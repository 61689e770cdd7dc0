//! Run-result aggregation: a task run starts one execution unit per
//! command, waits for all of them, and reports either success or the
//! complete list of failures in the configured command order.

use vstd::prelude::*;

use crate::error::{CommandRunError, CommandRunErrorType, CommandRunErrorTypeView,
    CommandRunErrorView};

verus! {

/// How one execution unit of a task run ended.
#[derive(Debug, Clone)]
pub enum UnitOutcome {
    /// The command completed successfully.
    Success,
    /// The command ran and failed with this error.
    Failure(CommandRunError),
    /// The execution unit itself crashed or was aborted before producing
    /// a result; the message describes the crash.
    Panicked { message: String },
}

/// The mathematical value of a [`UnitOutcome`].
pub enum UnitOutcomeView {
    Success,
    Failure(CommandRunErrorView),
    Panicked { message: Seq<char> },
}

impl View for UnitOutcome {
    type V = UnitOutcomeView;

    open spec fn view(&self) -> UnitOutcomeView {
        match self {
            UnitOutcome::Success => UnitOutcomeView::Success,
            UnitOutcome::Failure(e) => UnitOutcomeView::Failure(e@),
            UnitOutcome::Panicked { message } => UnitOutcomeView::Panicked { message: message@ },
        }
    }
}

/// An outcome that counts as a failure of its unit.
pub open spec fn spec_unit_failed(o: UnitOutcomeView) -> bool {
    !(o is Success)
}

/// The error a failed unit contributes: its own command error, or, for a
/// crashed unit, a synthetic error under the owning task's name.
pub open spec fn spec_unit_error(task_name: Seq<char>, o: UnitOutcomeView) -> CommandRunErrorView {
    match o {
        UnitOutcomeView::Failure(e) => e,
        UnitOutcomeView::Panicked { message } => CommandRunErrorView {
            name: task_name,
            error: CommandRunErrorTypeView::Async { message },
        },
        UnitOutcomeView::Success => CommandRunErrorView {
            name: task_name,
            error: CommandRunErrorTypeView::Async { message: Seq::empty() },
        },
    }
}

/// The errors of the failed units, in the configured unit order.
pub open spec fn spec_collect_errors(
    task_name: Seq<char>,
    outcomes: Seq<UnitOutcomeView>,
) -> Seq<CommandRunErrorView>
    decreases outcomes.len(),
{
    if outcomes.len() == 0 {
        Seq::empty()
    } else {
        let rest = spec_collect_errors(task_name, outcomes.drop_last());
        if spec_unit_failed(outcomes.last()) {
            rest.push(spec_unit_error(task_name, outcomes.last()))
        } else {
            rest
        }
    }
}

/// Aggregation completeness: the collected errors are exactly the errors
/// of the failing units, kept in ascending index order — what filtering
/// the outcomes down to the failures and reading off their errors gives —
/// and the collection is empty exactly when every unit succeeded.
pub proof fn lemma_aggregation_completeness(task_name: Seq<char>, outcomes: Seq<UnitOutcomeView>)
    ensures
        spec_collect_errors(task_name, outcomes) == outcomes.filter(
            |o: UnitOutcomeView| spec_unit_failed(o),
        ).map_values(|o: UnitOutcomeView| spec_unit_error(task_name, o)),
        spec_collect_errors(task_name, outcomes).len() == 0 <==> (forall|i: int|
            0 <= i < outcomes.len() ==> !spec_unit_failed(outcomes[i])),
    decreases outcomes.len(),
{
    let pred = |o: UnitOutcomeView| spec_unit_failed(o);
    let err_of = |o: UnitOutcomeView| spec_unit_error(task_name, o);
    reveal_with_fuel(Seq::<UnitOutcomeView>::filter, 2);
    if outcomes.len() == 0 {
        assert(outcomes.filter(pred) =~= Seq::<UnitOutcomeView>::empty());
        assert(Seq::<UnitOutcomeView>::empty().map_values(err_of) =~= Seq::<
            CommandRunErrorView,
        >::empty());
    } else {
        let head = outcomes.drop_last();
        let last = outcomes.last();
        lemma_aggregation_completeness(task_name, head);
        assert(forall|i: int| 0 <= i < head.len() ==> outcomes[i] == head[i]);
        if pred(last) {
            assert(outcomes.filter(pred) == head.filter(pred).push(last));
            assert(head.filter(pred).push(last).map_values(err_of) =~= head.filter(
                pred,
            ).map_values(err_of).push(err_of(last)));
            assert(spec_unit_failed(outcomes[outcomes.len() - 1]));
        } else {
            assert(outcomes.filter(pred) == head.filter(pred));
            if spec_collect_errors(task_name, outcomes).len() == 0 {
                assert forall|i: int| 0 <= i < outcomes.len() implies !spec_unit_failed(
                    outcomes[i],
                ) by {
                    if i < outcomes.len() - 1 {
                        assert(!spec_unit_failed(head[i]));
                    }
                }
            } else {
                let w = choose|i: int| 0 <= i < head.len() && spec_unit_failed(head[i]);
                assert(spec_unit_failed(outcomes[w]));
            }
        }
    }
}

fn duplicate_error(e: &CommandRunError) -> (r: CommandRunError)
    ensures
        r@ == e@,
{
    let error = match &e.error {
        CommandRunErrorType::Async { message } => CommandRunErrorType::Async {
            message: message.clone(),
        },
        CommandRunErrorType::Io { message } => CommandRunErrorType::Io {
            message: message.clone(),
        },
        CommandRunErrorType::ExitStatus(code) => CommandRunErrorType::ExitStatus(*code),
        CommandRunErrorType::Ssh { message } => CommandRunErrorType::Ssh {
            message: message.clone(),
        },
    };
    CommandRunError { name: e.name.clone(), error }
}

/// Settles one task run from the outcomes of its execution units, given in
/// the configured command order (completion order does not reach this point:
/// the caller waits for every unit and keeps the configured order). An
/// empty error collection is success; otherwise the run fails with the
/// complete ordered list of failures.
pub fn aggregate_outcomes(task_name: &String, outcomes: &Vec<UnitOutcome>) -> (r: Result<
    (),
    Vec<CommandRunError>,
>)
    ensures
        ({
            let errs = spec_collect_errors(task_name@, outcomes@.map_values(|o: UnitOutcome| o@));
            match r {
                Ok(_) => errs.len() == 0,
                Err(v) => errs.len() > 0 && v@.map_values(|e: CommandRunError| e@) == errs,
            }
        }),
        (r is Ok) <==> (forall|i: int|
            0 <= i < outcomes@.len() ==> !spec_unit_failed(outcomes@[i]@)),
{
    let ghost all: Seq<UnitOutcomeView> = outcomes@.map_values(|o: UnitOutcome| o@);
    let mut errors: Vec<CommandRunError> = Vec::new();
    let mut i: usize = 0;
    proof {
        assert(all.take(0) =~= Seq::<UnitOutcomeView>::empty());
        assert(errors@.map_values(|e: CommandRunError| e@) =~= spec_collect_errors(
            task_name@,
            all.take(0),
        ));
    }
    while i < outcomes.len()
        invariant
            i <= outcomes.len(),
            all == outcomes@.map_values(|o: UnitOutcome| o@),
            all.len() == outcomes.len(),
            errors@.map_values(|e: CommandRunError| e@) == spec_collect_errors(
                task_name@,
                all.take(i as int),
            ),
        decreases outcomes.len() - i,
    {
        proof {
            assert(all.take(i + 1).drop_last() =~= all.take(i as int));
            assert(all.take(i + 1).last() == all[i as int]);
        }
        match &outcomes[i] {
            UnitOutcome::Success => {
                proof {
                    assert(!spec_unit_failed(all[i as int]));
                }
            },
            UnitOutcome::Failure(e) => {
                let dup = duplicate_error(e);
                proof {
                    assert((errors@.push(dup)).map_values(|e: CommandRunError| e@)
                        =~= errors@.map_values(|e: CommandRunError| e@).push(dup@));
                }
                errors.push(dup);
            },
            UnitOutcome::Panicked { message } => {
                let synthetic = CommandRunError {
                    name: task_name.clone(),
                    error: CommandRunErrorType::Async { message: message.clone() },
                };
                proof {
                    assert(spec_unit_error(task_name@, all[i as int]) == synthetic@);
                    assert((errors@.push(synthetic)).map_values(|e: CommandRunError| e@)
                        =~= errors@.map_values(|e: CommandRunError| e@).push(synthetic@));
                }
                errors.push(synthetic);
            },
        }
        i = i + 1;
    }
    proof {
        assert(all.take(all.len() as int) =~= all);
        lemma_aggregation_completeness(task_name@, all);
        if forall|j: int| 0 <= j < all.len() ==> !spec_unit_failed(all[j]) {
            assert forall|j: int| 0 <= j < outcomes@.len() implies !spec_unit_failed(
                outcomes@[j]@,
            ) by {
                assert(!spec_unit_failed(all[j]));
            }
        } else {
            let w = choose|j: int| 0 <= j < all.len() && spec_unit_failed(all[j]);
            assert(spec_unit_failed(outcomes@[w]@));
        }
    }
    if errors.len() == 0 {
        Ok(())
    } else {
        Err(errors)
    }
}

} // verus!
