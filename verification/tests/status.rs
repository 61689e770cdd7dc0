use overseer::{reconcile, HealthState, LifecycleState, ServiceError, ServiceStatus};

#[test]
fn health_report_contributions() {
    assert_eq!(ServiceStatus::from_health(HealthState::Starting), Some(ServiceStatus::Healthy));
    assert_eq!(ServiceStatus::from_health(HealthState::Healthy), Some(ServiceStatus::Healthy));
    assert_eq!(ServiceStatus::from_health(HealthState::Unhealthy), Some(ServiceStatus::Unhealthy));
    assert_eq!(ServiceStatus::from_health(HealthState::NoneReported), None);
    assert_eq!(ServiceStatus::from_health(HealthState::Empty), None);
}

#[test]
fn lifecycle_report_contributions() {
    assert_eq!(ServiceStatus::from_status(LifecycleState::Created), Some(ServiceStatus::Healthy));
    assert_eq!(ServiceStatus::from_status(LifecycleState::Running), Some(ServiceStatus::Healthy));
    assert_eq!(
        ServiceStatus::from_status(LifecycleState::Restarting),
        Some(ServiceStatus::Unhealthy)
    );
    assert_eq!(ServiceStatus::from_status(LifecycleState::Dead), Some(ServiceStatus::Unhealthy));
    assert_eq!(ServiceStatus::from_status(LifecycleState::Paused), Some(ServiceStatus::Offline));
    assert_eq!(ServiceStatus::from_status(LifecycleState::Exited), Some(ServiceStatus::Offline));
    assert_eq!(ServiceStatus::from_status(LifecycleState::Empty), None);
}

#[test]
fn healthy_health_overrides_unhealthy_lifecycle() {
    assert_eq!(
        reconcile(Some(ServiceStatus::Unhealthy), Some(ServiceStatus::Healthy)),
        Ok(ServiceStatus::Healthy)
    );
}

#[test]
fn agreeing_reports_keep_their_status() {
    assert_eq!(
        reconcile(Some(ServiceStatus::Healthy), Some(ServiceStatus::Healthy)),
        Ok(ServiceStatus::Healthy)
    );
    assert_eq!(
        reconcile(Some(ServiceStatus::Unhealthy), Some(ServiceStatus::Unhealthy)),
        Ok(ServiceStatus::Unhealthy)
    );
}

#[test]
fn lone_reports_stand_alone() {
    assert_eq!(reconcile(Some(ServiceStatus::Offline), None), Ok(ServiceStatus::Offline));
    assert_eq!(reconcile(None, Some(ServiceStatus::Unhealthy)), Ok(ServiceStatus::Unhealthy));
}

#[test]
fn contradictory_reports_conflict() {
    assert_eq!(
        reconcile(Some(ServiceStatus::Healthy), Some(ServiceStatus::Unhealthy)),
        Err(ServiceError::Conflicting(ServiceStatus::Healthy, ServiceStatus::Unhealthy))
    );
    assert_eq!(
        reconcile(Some(ServiceStatus::Offline), Some(ServiceStatus::Healthy)),
        Err(ServiceError::Conflicting(ServiceStatus::Offline, ServiceStatus::Healthy))
    );
}

#[test]
fn absent_reports_are_missing_info() {
    assert_eq!(reconcile(None, None), Err(ServiceError::MissingInfo));
}

#[test]
fn status_words() {
    assert_eq!(ServiceStatus::Healthy.describe(), "healthy");
    assert_eq!(ServiceStatus::Unhealthy.describe(), "unhealthy");
    assert_eq!(ServiceStatus::Offline.describe(), "offline");
}
