//! Service status reconciliation: merging a container's reported
//! lifecycle status and reported health-check status into one service
//! status, with health used as a tie-break override over lifecycle.

use vstd::prelude::*;
use vstd::string::StringExecFns;

verus! {

/// The merged status of a service dependency.
#[derive(Debug, Clone, Copy, PartialEq, Eq, Structural)]
pub enum ServiceStatus {
    Healthy,
    Unhealthy,
    Offline,
}

/// A container's reported health-check state, as the status provider
/// delivers it.
#[derive(Debug, Clone, Copy, PartialEq, Eq, Structural)]
pub enum HealthState {
    Starting,
    Healthy,
    Unhealthy,
    /// No health check is configured.
    NoneReported,
    /// The report field was present but empty.
    Empty,
}

/// A container's reported lifecycle state, as the status provider
/// delivers it.
#[derive(Debug, Clone, Copy, PartialEq, Eq, Structural)]
pub enum LifecycleState {
    Created,
    Running,
    Restarting,
    Removing,
    Dead,
    Paused,
    Exited,
    /// The report field was present but empty.
    Empty,
}

/// Why no merged status can be given.
#[derive(Debug, Clone, Copy, PartialEq, Eq, Structural)]
pub enum ServiceError {
    /// Neither a usable lifecycle status nor a usable health status was
    /// reported.
    MissingInfo,
    /// Lifecycle and health reports contradict each other beyond what the
    /// health override resolves.
    Conflicting(ServiceStatus, ServiceStatus),
}

/// What a health report contributes: starting and healthy count as
/// healthy, unhealthy as unhealthy, and an absent or empty report
/// contributes nothing.
pub open spec fn spec_from_health(health: HealthState) -> Option<ServiceStatus> {
    match health {
        HealthState::Starting => Some(ServiceStatus::Healthy),
        HealthState::Healthy => Some(ServiceStatus::Healthy),
        HealthState::Unhealthy => Some(ServiceStatus::Unhealthy),
        HealthState::NoneReported => None,
        HealthState::Empty => None,
    }
}

/// What a lifecycle report contributes: created and running count as
/// healthy; restarting, removing and dead as unhealthy; paused and
/// exited as offline; an empty report contributes nothing.
pub open spec fn spec_from_status(status: LifecycleState) -> Option<ServiceStatus> {
    match status {
        LifecycleState::Created => Some(ServiceStatus::Healthy),
        LifecycleState::Running => Some(ServiceStatus::Healthy),
        LifecycleState::Restarting => Some(ServiceStatus::Unhealthy),
        LifecycleState::Removing => Some(ServiceStatus::Unhealthy),
        LifecycleState::Dead => Some(ServiceStatus::Unhealthy),
        LifecycleState::Paused => Some(ServiceStatus::Offline),
        LifecycleState::Exited => Some(ServiceStatus::Offline),
        LifecycleState::Empty => None,
    }
}

/// The merge of the two contributions. A healthy health report overrides
/// an unhealthy lifecycle; beyond that override, two present but
/// contradictory reports are a conflict, and two absent ones leave the
/// status unknown.
pub open spec fn spec_reconcile(
    status: Option<ServiceStatus>,
    health: Option<ServiceStatus>,
) -> Result<ServiceStatus, ServiceError> {
    match (status, health) {
        (Some(ServiceStatus::Healthy), Some(ServiceStatus::Healthy)) => Ok(ServiceStatus::Healthy),
        (Some(ServiceStatus::Healthy), None) => Ok(ServiceStatus::Healthy),
        (Some(ServiceStatus::Unhealthy), Some(ServiceStatus::Healthy)) => Ok(
            ServiceStatus::Healthy,
        ),
        (Some(ServiceStatus::Unhealthy), Some(ServiceStatus::Unhealthy)) => Ok(
            ServiceStatus::Unhealthy,
        ),
        (Some(ServiceStatus::Unhealthy), None) => Ok(ServiceStatus::Unhealthy),
        (Some(ServiceStatus::Offline), Some(ServiceStatus::Unhealthy)) => Ok(
            ServiceStatus::Offline,
        ),
        (Some(ServiceStatus::Offline), None) => Ok(ServiceStatus::Offline),
        (None, Some(s)) => Ok(s),
        (None, None) => Err(ServiceError::MissingInfo),
        (Some(a), Some(b)) => Err(ServiceError::Conflicting(a, b)),
    }
}

impl ServiceStatus {
    /// Reads a health report's contribution.
    pub fn from_health(health: HealthState) -> (r: Option<ServiceStatus>)
        ensures
            r == spec_from_health(health),
    {
        match health {
            HealthState::Starting => Some(ServiceStatus::Healthy),
            HealthState::Healthy => Some(ServiceStatus::Healthy),
            HealthState::Unhealthy => Some(ServiceStatus::Unhealthy),
            HealthState::NoneReported => None,
            HealthState::Empty => None,
        }
    }

    /// Reads a lifecycle report's contribution.
    pub fn from_status(status: LifecycleState) -> (r: Option<ServiceStatus>)
        ensures
            r == spec_from_status(status),
    {
        match status {
            LifecycleState::Created => Some(ServiceStatus::Healthy),
            LifecycleState::Running => Some(ServiceStatus::Healthy),
            LifecycleState::Restarting => Some(ServiceStatus::Unhealthy),
            LifecycleState::Removing => Some(ServiceStatus::Unhealthy),
            LifecycleState::Dead => Some(ServiceStatus::Unhealthy),
            LifecycleState::Paused => Some(ServiceStatus::Offline),
            LifecycleState::Exited => Some(ServiceStatus::Offline),
            LifecycleState::Empty => None,
        }
    }

    /// The lower-case word the status prints as.
    pub fn describe(&self) -> (r: String)
        ensures
            (self is Healthy ==> r@ == "healthy"@) && (self is Unhealthy ==> r@ == "unhealthy"@)
                && (self is Offline ==> r@ == "offline"@),
    {
        match self {
            ServiceStatus::Healthy => String::from_str("healthy"),
            ServiceStatus::Unhealthy => String::from_str("unhealthy"),
            ServiceStatus::Offline => String::from_str("offline"),
        }
    }
}

/// Merges the two reported contributions into one service status.
pub fn reconcile(status: Option<ServiceStatus>, health: Option<ServiceStatus>) -> (r: Result<
    ServiceStatus,
    ServiceError,
>)
    ensures
        r == spec_reconcile(status, health),
{
    match (status, health) {
        (Some(ServiceStatus::Healthy), Some(ServiceStatus::Healthy)) => Ok(ServiceStatus::Healthy),
        (Some(ServiceStatus::Healthy), None) => Ok(ServiceStatus::Healthy),
        (Some(ServiceStatus::Unhealthy), Some(ServiceStatus::Healthy)) => Ok(
            ServiceStatus::Healthy,
        ),
        (Some(ServiceStatus::Unhealthy), Some(ServiceStatus::Unhealthy)) => Ok(
            ServiceStatus::Unhealthy,
        ),
        (Some(ServiceStatus::Unhealthy), None) => Ok(ServiceStatus::Unhealthy),
        (Some(ServiceStatus::Offline), Some(ServiceStatus::Unhealthy)) => Ok(
            ServiceStatus::Offline,
        ),
        (Some(ServiceStatus::Offline), None) => Ok(ServiceStatus::Offline),
        (None, Some(s)) => Ok(s),
        (None, None) => Err(ServiceError::MissingInfo),
        (Some(a), Some(b)) => Err(ServiceError::Conflicting(a, b)),
    }
}

} // verus!
