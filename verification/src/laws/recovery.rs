//! What recovery after a restart does with each job.
use crate::application::reconcile::{
    action_job, fate_of, gathered, identity_asked, is_active, plan_outcome, possible_observations,
    process_fate, record_effect, record_model, recovery_planned, run_observed, runs_observed,
    with_effect, ActionModel, CommandFate, DeadlineModel, IdentityInspectionError,
    IdentityInspector, IdentityStatus, ReconciliationError, RecoveryAction, RecoveryPlan,
    RecoveryRecord, RunObservation,
};
use crate::domain::id::{JobId, RunId};
use crate::domain::job::JobModel;
use crate::domain::primitives::UtcTimestamp;
use crate::domain::recurrence::{lemma_next_occurrence, next_occurrence, occurrence, ElapsedInstant};
use crate::domain::run::{ClaimToken, IdentityModel, RunModel};
use crate::domain::schedule::{MissedPolicy, ScheduleModel};
use crate::domain::state::{JobState, RunState};
use vstd::prelude::*;
use vstd::seq_lib::group_to_multiset_ensures;

verus! {

broadcast use vstd::seq::group_seq_axioms;

// ---------------------------------------------------------------------------------------------
// What a plan holds for one job
// ---------------------------------------------------------------------------------------------
/// The job that an action changes.
pub open spec fn changed_job(action: RecoveryAction) -> JobId {
    match action {
        RecoveryAction::Interrupt { job_id, .. } => job_id,
        RecoveryAction::MarkMissed { job_id, .. } => job_id,
        RecoveryAction::AdvanceRecurring { job_id, .. } => job_id,
    }
}

/// The plan starts the job at no time.
pub open spec fn never_started(plan: RecoveryPlan, job: JobId) -> bool {
    forall|i: int|
        0 <= i < plan.deadlines@.len() ==> (#[trigger] plan.deadlines@[i]).job_id != job
}

/// The plan starts the job once: as its occurrence at `scheduled_for`, when the clock that only
/// moves forward shows `elapsed_due`.
pub open spec fn started_once(
    plan: RecoveryPlan,
    job: JobId,
    scheduled_for: int,
    elapsed_due: int,
) -> bool {
    exists|i: int|
        {
            &&& 0 <= i < plan.deadlines@.len()
            &&& (#[trigger] plan.deadlines@[i]).job_id == job
            &&& plan.deadlines@[i].scheduled_for_utc@ == scheduled_for
            &&& plan.deadlines@[i].elapsed_due@ == elapsed_due
            &&& forall|j: int|
                0 <= j < plan.deadlines@.len() && (#[trigger] plan.deadlines@[j]).job_id == job
                    ==> j == i
        }
}

/// The plan does not change the job.
pub open spec fn unchanged(plan: RecoveryPlan, job: JobId) -> bool {
    forall|i: int|
        0 <= i < plan.actions@.len() ==> changed_job(#[trigger] plan.actions@[i]) != job
}

/// The action at `i` is the only one that changes the job.
pub open spec fn only_change(plan: RecoveryPlan, job: JobId, i: int) -> bool {
    &&& 0 <= i < plan.actions@.len()
    &&& changed_job(plan.actions@[i]) == job
    &&& forall|j: int|
        0 <= j < plan.actions@.len() && changed_job(#[trigger] plan.actions@[j]) == job ==> j == i
}

/// No other record is about the same job.
pub open spec fn sole_record(records: Seq<RecoveryRecord>, at: int) -> bool {
    &&& 0 <= at < records.len()
    &&& forall|i: int|
        0 <= i < records.len() && i != at ==> (#[trigger] records[i]).job@.id != records[at].job@.id
}

/// The job waits for its deadline.
pub open spec fn awaits_deadline(job: JobModel) -> bool {
    job.state == JobState::Scheduled || job.state == JobState::Waiting
}

// ---------------------------------------------------------------------------------------------
// From records to plans
// ---------------------------------------------------------------------------------------------
/// The deadline is the only one for the job.
spec fn sole_deadline(deadlines: Seq<DeadlineModel>, job: JobId, kept: Option<DeadlineModel>) -> bool {
    match kept {
        None => forall|i: int|
            0 <= i < deadlines.len() ==> (#[trigger] deadlines[i]).job_id != job,
        Some(deadline) => exists|i: int|
            {
                &&& 0 <= i < deadlines.len()
                &&& #[trigger] deadlines[i] == deadline
                &&& deadline.job_id == job
                &&& forall|j: int|
                    0 <= j < deadlines.len() && (#[trigger] deadlines[j]).job_id == job ==> j == i
            },
    }
}

/// The action is the only one for the job.
spec fn sole_action(actions: Seq<ActionModel>, job: JobId, kept: Option<ActionModel>) -> bool {
    match kept {
        None => forall|i: int|
            0 <= i < actions.len() ==> action_job(#[trigger] actions[i]) != job,
        Some(action) => exists|i: int|
            {
                &&& 0 <= i < actions.len()
                &&& #[trigger] actions[i] == action
                &&& action_job(action) == job
                &&& forall|j: int|
                    0 <= j < actions.len() && action_job(#[trigger] actions[j]) == job ==> j == i
            },
    }
}

proof fn lemma_other_records(
    records: Seq<RecoveryRecord>,
    seen: Seq<RunObservation>,
    wall_now: int,
    elapsed_now: int,
    job: JobId,
)
    requires
        gathered(records, seen, wall_now, elapsed_now) is Ok,
        forall|i: int| 0 <= i < records.len() ==> (#[trigger] records[i]).job@.id != job,
    ensures
        ({
            let plan = gathered(records, seen, wall_now, elapsed_now)->Ok_0;
            sole_deadline(plan.deadlines, job, None) && sole_action(plan.actions, job, None)
        }),
    decreases records.len(),
{
    if records.len() > 0 {
        assert forall|i: int| 0 <= i < records.drop_last().len() implies (
        #[trigger] records.drop_last()[i]).job@.id != job by {
            assert(records.drop_last()[i] == records[i]);
        }
        assert(records.last() == records[records.len() - 1]);
        lemma_other_records(records.drop_last(), seen.drop_last(), wall_now, elapsed_now, job);
    }
}

proof fn lemma_sole_record(
    records: Seq<RecoveryRecord>,
    seen: Seq<RunObservation>,
    wall_now: int,
    elapsed_now: int,
    at: int,
)
    requires
        gathered(records, seen, wall_now, elapsed_now) is Ok,
        seen.len() == records.len(),
        sole_record(records, at),
    ensures
        ({
            let plan = gathered(records, seen, wall_now, elapsed_now)->Ok_0;
            let effect = record_effect(
                record_model(records[at]),
                seen[at],
                wall_now,
                elapsed_now,
            );
            let job = records[at].job@.id;
            &&& effect is Ok
            &&& sole_deadline(plan.deadlines, job, effect->Ok_0.deadline)
            &&& sole_action(plan.actions, job, effect->Ok_0.action)
            &&& effect->Ok_0.preserved matches Some(run) ==> plan.preserved.contains(run)
        }),
    decreases records.len(),
{
    let fewer = records.drop_last();
    let before = gathered(fewer, seen.drop_last(), wall_now, elapsed_now)->Ok_0;
    let last = record_effect(
        record_model(records.last()),
        seen.last(),
        wall_now,
        elapsed_now,
    )->Ok_0;
    let plan = gathered(records, seen, wall_now, elapsed_now)->Ok_0;
    let job = records[at].job@.id;
    assert(plan == with_effect(before, last));
    assert(records.last() == records[records.len() - 1]);
    assert forall|i: int| 0 <= i < fewer.len() implies #[trigger] fewer[i] == records[i] by {}
    if at < records.len() - 1 {
        lemma_sole_record(fewer, seen.drop_last(), wall_now, elapsed_now, at);
        let effect = record_effect(
            record_model(records[at]),
            seen[at],
            wall_now,
            elapsed_now,
        )->Ok_0;
        if let Some(deadline) = effect.deadline {
            let i = choose|i: int|
                {
                    &&& 0 <= i < before.deadlines.len()
                    &&& #[trigger] before.deadlines[i] == deadline
                    &&& deadline.job_id == job
                    &&& forall|j: int|
                        0 <= j < before.deadlines.len() && (
                        #[trigger] before.deadlines[j]).job_id == job ==> j == i
                };
            assert(plan.deadlines[i] == deadline);
            assert forall|j: int|
                0 <= j < plan.deadlines.len() && (#[trigger] plan.deadlines[j]).job_id
                    == job implies j == i by {
                if j < before.deadlines.len() {
                    assert(plan.deadlines[j] == before.deadlines[j]);
                }
            }
        }
        if let Some(action) = effect.action {
            let i = choose|i: int|
                {
                    &&& 0 <= i < before.actions.len()
                    &&& #[trigger] before.actions[i] == action
                    &&& action_job(action) == job
                    &&& forall|j: int|
                        0 <= j < before.actions.len() && action_job(
                            #[trigger] before.actions[j],
                        ) == job ==> j == i
                };
            assert(plan.actions[i] == action);
            assert forall|j: int|
                0 <= j < plan.actions.len() && action_job(#[trigger] plan.actions[j])
                    == job implies j == i by {
                if j < before.actions.len() {
                    assert(plan.actions[j] == before.actions[j]);
                }
            }
        }
        if let Some(run) = effect.preserved {
            let i = choose|i: int| 0 <= i < before.preserved.len() && before.preserved[i] == run;
            assert(plan.preserved[i] == run);
        }
    } else {
        lemma_other_records(fewer, seen.drop_last(), wall_now, elapsed_now, job);
        if let Some(deadline) = last.deadline {
            assert(plan.deadlines[before.deadlines.len() as int] == deadline);
        }
        if let Some(action) = last.action {
            assert(plan.actions[before.actions.len() as int] == action);
        }
        if let Some(run) = last.preserved {
            assert(plan.preserved[before.preserved.len() as int] == run);
        }
    }
}

proof fn lemma_sole_deadline_reordered(
    a: Seq<DeadlineModel>,
    b: Seq<DeadlineModel>,
    job: JobId,
    kept: Option<DeadlineModel>,
)
    requires
        a.to_multiset() == b.to_multiset(),
        sole_deadline(a, job, kept),
    ensures
        sole_deadline(b, job, kept),
{
    broadcast use group_to_multiset_ensures;

    assert forall|i: int| 0 <= i < b.len() implies a.contains(#[trigger] b[i]) by {
        assert(b.contains(b[i]));
        assert(b.to_multiset().count(b[i]) > 0);
    }
    if let Some(deadline) = kept {
        let i = choose|i: int|
            {
                &&& 0 <= i < a.len()
                &&& #[trigger] a[i] == deadline
                &&& deadline.job_id == job
                &&& forall|j: int| 0 <= j < a.len() && (#[trigger] a[j]).job_id == job ==> j == i
            };
        assert(a.contains(deadline));
        assert(b.to_multiset().count(deadline) > 0);
        assert(b.contains(deadline));
        let k = choose|k: int| 0 <= k < b.len() && b[k] == deadline;
        assert(!a.remove(i).contains(deadline)) by {
            assert forall|j: int| 0 <= j < a.remove(i).len() implies #[trigger] a.remove(i)[j]
                != deadline by {
                assert(a.remove(i)[j] == if j < i { a[j] } else { a[j + 1] });
            }
        }
        assert(a.remove(i).to_multiset().count(deadline) == 0);
        assert(a.to_multiset().count(deadline) == 1);
        assert forall|j: int| 0 <= j < b.len() && (#[trigger] b[j]).job_id == job implies j
            == k by {
            let m = choose|m: int| 0 <= m < a.len() && a[m] == b[j];
            assert(b[j] == deadline);
            if j != k {
                let other = if j < k { j } else { j - 1 };
                assert(b.remove(k)[other] == deadline);
                assert(b.remove(k).contains(deadline));
                assert(b.remove(k).to_multiset().count(deadline) > 0);
                assert(b.to_multiset().count(deadline) > 1);
            }
        }
    }
}

/// What a plan holds for the job of a record.
proof fn lemma_plan_for<Inspector: IdentityInspector>(
    inspector: Inspector,
    records: Seq<RecoveryRecord>,
    wall_now: UtcTimestamp,
    elapsed_now: ElapsedInstant,
    boot_identity: Seq<char>,
    plan: RecoveryPlan,
    at: int,
) -> (seen: RunObservation)
    requires
        recovery_planned(
            inspector,
            records,
            wall_now,
            elapsed_now,
            boot_identity,
            Ok::<RecoveryPlan, ReconciliationError>(plan),
        ),
        sole_record(records, at),
    ensures
        ({
            let effect = record_effect(
                record_model(records[at]),
                seen,
                wall_now@,
                elapsed_now@ as int,
            );
            let job = records[at].job@.id;
            &&& effect is Ok
            &&& match effect->Ok_0.deadline {
                None => never_started(plan, job),
                Some(deadline) => started_once(
                    plan,
                    job,
                    deadline.scheduled_for,
                    deadline.elapsed_due,
                ),
            }
            &&& match effect->Ok_0.action {
                None => unchanged(plan, job),
                Some(action) => exists|i: int| #[trigger]
                    only_change(plan, job, i) && plan.actions@[i]@ == action,
            }
            &&& effect->Ok_0.preserved matches Some(run) ==> plan.preserved_runs@.contains(run)
        }),
        record_model(records[at]).1 matches Some(run) ==> is_active(records[at].job@.state)
            && !run.state.terminal() ==> run_observed(inspector, run, boot_identity, seen),
{
    broadcast use group_to_multiset_ensures;

    let seen = choose|seen: Seq<RunObservation>|
        {
            &&& possible_observations(records, seen, boot_identity)
            &&& runs_observed(
                inspector,
                records,
                seen,
                boot_identity,
            )
            &&& #[trigger] plan_outcome(
                records,
                seen,
                wall_now@,
                elapsed_now@ as int,
                Ok::<RecoveryPlan, ReconciliationError>(plan),
            )
        };
    let all = gathered(records, seen, wall_now@, elapsed_now@ as int)->Ok_0;
    let job = records[at].job@.id;
    let effect = record_effect(
        record_model(records[at]),
        seen[at],
        wall_now@,
        elapsed_now@ as int,
    )->Ok_0;
    lemma_sole_record(records, seen, wall_now@, elapsed_now@ as int, at);
    lemma_sole_deadline_reordered(all.deadlines, plan@.deadlines, job, effect.deadline);
    assert forall|i: int| 0 <= i < plan.deadlines@.len() implies plan@.deadlines[i]
        == #[trigger] plan.deadlines@[i]@ by {}
    assert forall|i: int| 0 <= i < plan.actions@.len() implies plan@.actions[i]
        == #[trigger] plan.actions@[i]@ by {}
    assert forall|i: int| 0 <= i < plan.actions@.len() implies action_job(plan@.actions[i])
        == changed_job(#[trigger] plan.actions@[i]) by {}
    match effect.deadline {
        None => {
            assert forall|i: int| 0 <= i < plan.deadlines@.len() implies (
            #[trigger] plan.deadlines@[i]).job_id != job by {
                assert(plan@.deadlines[i].job_id == plan.deadlines@[i].job_id);
            }
        },
        Some(deadline) => {
            let i = choose|i: int|
                {
                    &&& 0 <= i < plan@.deadlines.len()
                    &&& #[trigger] plan@.deadlines[i] == deadline
                    &&& deadline.job_id == job
                    &&& forall|j: int|
                        0 <= j < plan@.deadlines.len() && (
                        #[trigger] plan@.deadlines[j]).job_id == job ==> j == i
                };
            assert(plan.deadlines@[i]@ == deadline);
            assert forall|j: int|
                0 <= j < plan.deadlines@.len() && (#[trigger] plan.deadlines@[j]).job_id
                    == job implies j == i by {
                assert(plan@.deadlines[j].job_id == plan.deadlines@[j].job_id);
            }
        },
    }
    match effect.action {
        None => {
            assert forall|i: int| 0 <= i < plan.actions@.len() implies changed_job(
                #[trigger] plan.actions@[i],
            ) != job by {
                assert(action_job(plan@.actions[i]) != job);
            }
        },
        Some(action) => {
            let i = choose|i: int|
                {
                    &&& 0 <= i < plan@.actions.len()
                    &&& #[trigger] plan@.actions[i] == action
                    &&& action_job(action) == job
                    &&& forall|j: int|
                        0 <= j < plan@.actions.len() && action_job(#[trigger] plan@.actions[j])
                            == job ==> j == i
                };
            assert(plan.actions@[i]@ == action);
            assert forall|j: int|
                0 <= j < plan.actions@.len() && changed_job(#[trigger] plan.actions@[j])
                    == job implies j == i by {
                assert(action_job(plan@.actions[j]) == job);
            }
            assert(only_change(plan, job, i));
        },
    }
    if let Some(run) = effect.preserved {
        assert(all.preserved.contains(run));
        assert(plan@.preserved.to_multiset().count(run) > 0);
    }
    seen[at]
}

// ---------------------------------------------------------------------------------------------
// Waiting jobs
// ---------------------------------------------------------------------------------------------
/// A job that waits for a time still to come is started at that time, and nothing else is done to it.
pub proof fn lemma_future_job_keeps_its_deadline<Inspector: IdentityInspector>(
    inspector: Inspector,
    records: Seq<RecoveryRecord>,
    wall_now: UtcTimestamp,
    elapsed_now: ElapsedInstant,
    boot_identity: Seq<char>,
    plan: RecoveryPlan,
    at: int,
)
    requires
        recovery_planned(
            inspector,
            records,
            wall_now,
            elapsed_now,
            boot_identity,
            Ok::<RecoveryPlan, ReconciliationError>(plan),
        ),
        sole_record(records, at),
        awaits_deadline(records[at].job@),
        records[at].job@.next_due_utc@ > wall_now@,
    ensures
        ({
            let job = records[at].job@;
            &&& started_once(
                plan,
                job.id,
                job.next_due_utc@,
                elapsed_now@ + (job.next_due_utc@ - wall_now@),
            )
            &&& unchanged(plan, job.id)
        }),
{
    let seen = lemma_plan_for(
        inspector,
        records,
        wall_now,
        elapsed_now,
        boot_identity,
        plan,
        at,
    );
}

/// An overdue job under the hold policy, whether it recurs or not, is left to the user: it is marked as
/// missed, at the revision that was read, and started at no time.
pub proof fn lemma_held_job_is_missed<Inspector: IdentityInspector>(
    inspector: Inspector,
    records: Seq<RecoveryRecord>,
    wall_now: UtcTimestamp,
    elapsed_now: ElapsedInstant,
    boot_identity: Seq<char>,
    plan: RecoveryPlan,
    at: int,
)
    requires
        recovery_planned(
            inspector,
            records,
            wall_now,
            elapsed_now,
            boot_identity,
            Ok::<RecoveryPlan, ReconciliationError>(plan),
        ),
        sole_record(records, at),
        awaits_deadline(records[at].job@),
        records[at].job@.next_due_utc@ <= wall_now@,
        records[at].job@.missed_policy == MissedPolicy::Hold,
    ensures
        never_started(plan, records[at].job@.id),
        exists|i: int| #[trigger]
            only_change(plan, records[at].job@.id, i) && plan.actions@[i]
                == (RecoveryAction::MarkMissed {
                job_id: records[at].job@.id,
                expected_revision: records[at].job@.revision,
            }),
{
    let seen = lemma_plan_for(
        inspector,
        records,
        wall_now,
        elapsed_now,
        boot_identity,
        plan,
        at,
    );
    let i = choose|i: int| #[trigger]
        only_change(plan, records[at].job@.id, i) && plan.actions@[i]@
            == (ActionModel::MarkMissed {
            job_id: records[at].job@.id,
            expected_revision: records[at].job@.revision,
        });
    assert(only_change(plan, records[at].job@.id, i));
}

/// An overdue job that does not recur has nothing to skip to: under the skip policy it is marked as
/// missed too.
pub proof fn lemma_skipped_one_shot_job_is_missed<Inspector: IdentityInspector>(
    inspector: Inspector,
    records: Seq<RecoveryRecord>,
    wall_now: UtcTimestamp,
    elapsed_now: ElapsedInstant,
    boot_identity: Seq<char>,
    plan: RecoveryPlan,
    at: int,
)
    requires
        recovery_planned(
            inspector,
            records,
            wall_now,
            elapsed_now,
            boot_identity,
            Ok::<RecoveryPlan, ReconciliationError>(plan),
        ),
        sole_record(records, at),
        awaits_deadline(records[at].job@),
        records[at].job@.next_due_utc@ <= wall_now@,
        records[at].job@.missed_policy == MissedPolicy::Skip,
        !(records[at].job@.schedule is RecurringInterval),
    ensures
        never_started(plan, records[at].job@.id),
        exists|i: int| #[trigger]
            only_change(plan, records[at].job@.id, i) && plan.actions@[i]
                == (RecoveryAction::MarkMissed {
                job_id: records[at].job@.id,
                expected_revision: records[at].job@.revision,
            }),
{
    let seen = lemma_plan_for(
        inspector,
        records,
        wall_now,
        elapsed_now,
        boot_identity,
        plan,
        at,
    );
    let i = choose|i: int| #[trigger]
        only_change(plan, records[at].job@.id, i) && plan.actions@[i]@
            == (ActionModel::MarkMissed {
            job_id: records[at].job@.id,
            expected_revision: records[at].job@.revision,
        });
    assert(only_change(plan, records[at].job@.id, i));
}

/// The time is the first after `now` that lies a whole number of intervals after the anchor.
pub open spec fn first_occurrence_after(anchor: int, seconds: int, now: int, time: int) -> bool {
    &&& time > now
    &&& exists|count: int|
        count >= 0 && time == #[trigger] occurrence(anchor, seconds * 1_000_000_000, count)
    &&& time == anchor || time - seconds * 1_000_000_000 <= now
}

proof fn lemma_first_occurrence(anchor: int, seconds: int, now: int)
    requires
        seconds > 0,
    ensures
        first_occurrence_after(
            anchor,
            seconds,
            now,
            next_occurrence(anchor, now, seconds * 1_000_000_000),
        ),
{
    let period = seconds * 1_000_000_000;
    lemma_next_occurrence(anchor, now, period);
    let next = next_occurrence(anchor, now, period);
    let count = choose|count: int|
        count >= 0 && next == #[trigger] occurrence(anchor, period, count);
    if count == 0 {
        assert(0 * period == 0);
    } else {
        assert(occurrence(anchor, period, count - 1) == next - period) by (nonlinear_arith)
            requires
                occurrence(anchor, period, count - 1) == anchor + (count - 1) * period,
                next == anchor + count * period,
        ;
    }
}

/// An overdue recurring job under the skip policy is put off to its next occurrence after now, and
/// started then.
pub proof fn lemma_skipped_recurring_job_waits_for_its_next_occurrence<Inspector: IdentityInspector>(
    inspector: Inspector,
    records: Seq<RecoveryRecord>,
    wall_now: UtcTimestamp,
    elapsed_now: ElapsedInstant,
    boot_identity: Seq<char>,
    plan: RecoveryPlan,
    at: int,
)
    requires
        recovery_planned(
            inspector,
            records,
            wall_now,
            elapsed_now,
            boot_identity,
            Ok::<RecoveryPlan, ReconciliationError>(plan),
        ),
        sole_record(records, at),
        awaits_deadline(records[at].job@),
        records[at].job@.next_due_utc@ <= wall_now@,
        records[at].job@.missed_policy == MissedPolicy::Skip,
        records[at].job@.schedule matches ScheduleModel::RecurringInterval { interval, .. }
            && interval@ > 0,
    ensures
        exists|next: UtcTimestamp, i: int|
            {
                &&& #[trigger] only_change(plan, records[at].job@.id, i)
                &&& plan.actions@[i] == (RecoveryAction::AdvanceRecurring {
                    job_id: records[at].job@.id,
                    expected_revision: records[at].job@.revision,
                    next_due_utc: next,
                })
                &&& started_once(
                    plan,
                    records[at].job@.id,
                    #[trigger] next@,
                    elapsed_now@ + (next@ - wall_now@),
                )
                &&& records[at].job@.schedule matches ScheduleModel::RecurringInterval {
                    interval,
                    persisted_anchor_utc,
                } && first_occurrence_after(
                    persisted_anchor_utc@,
                    interval@ as int,
                    wall_now@,
                    next@,
                )
            },
{
    let seen = lemma_plan_for(
        inspector,
        records,
        wall_now,
        elapsed_now,
        boot_identity,
        plan,
        at,
    );
    let job = records[at].job@;
    if let ScheduleModel::RecurringInterval { interval, persisted_anchor_utc } = job.schedule {
        lemma_first_occurrence(persisted_anchor_utc@, interval@ as int, wall_now@);
        let i = choose|i: int| #[trigger]
            only_change(plan, job.id, i) && plan.actions@[i]@ is AdvanceRecurring;
        let next = plan.actions@[i]->AdvanceRecurring_next_due_utc;
        assert(only_change(plan, job.id, i) && next@ > wall_now@);
    }
}

/// An overdue job under the run-latest policy is started at once, for the time that it was due; one that
/// recurs is then due at its next occurrence after now, and nothing is done to another.
pub proof fn lemma_latest_missed_occurrence_runs_at_once<Inspector: IdentityInspector>(
    inspector: Inspector,
    records: Seq<RecoveryRecord>,
    wall_now: UtcTimestamp,
    elapsed_now: ElapsedInstant,
    boot_identity: Seq<char>,
    plan: RecoveryPlan,
    at: int,
)
    requires
        recovery_planned(
            inspector,
            records,
            wall_now,
            elapsed_now,
            boot_identity,
            Ok::<RecoveryPlan, ReconciliationError>(plan),
        ),
        sole_record(records, at),
        awaits_deadline(records[at].job@),
        records[at].job@.next_due_utc@ <= wall_now@,
        records[at].job@.missed_policy == MissedPolicy::RunLatest,
        records[at].job@.schedule matches ScheduleModel::RecurringInterval { interval, .. }
            ==> interval@ > 0,
    ensures
        ({
            let job = records[at].job@;
            &&& started_once(plan, job.id, job.next_due_utc@, elapsed_now@ as int)
            &&& match job.schedule {
                ScheduleModel::RecurringInterval { interval, persisted_anchor_utc } => exists|
                    next: UtcTimestamp,
                    i: int,
                |
                    {
                        &&& #[trigger] only_change(plan, job.id, i)
                        &&& plan.actions@[i] == (RecoveryAction::AdvanceRecurring {
                            job_id: job.id,
                            expected_revision: job.revision,
                            next_due_utc: next,
                        })
                        &&& first_occurrence_after(
                            persisted_anchor_utc@,
                            interval@ as int,
                            wall_now@,
                            #[trigger] next@,
                        )
                    },
                _ => unchanged(plan, job.id),
            }
        }),
{
    let seen = lemma_plan_for(
        inspector,
        records,
        wall_now,
        elapsed_now,
        boot_identity,
        plan,
        at,
    );
    let job = records[at].job@;
    if let ScheduleModel::RecurringInterval { interval, persisted_anchor_utc } = job.schedule {
        lemma_first_occurrence(persisted_anchor_utc@, interval@ as int, wall_now@);
        let i = choose|i: int| #[trigger]
            only_change(plan, job.id, i) && plan.actions@[i]@ is AdvanceRecurring;
        let next = plan.actions@[i]->AdvanceRecurring_next_due_utc;
        assert(only_change(plan, job.id, i) && next@ > wall_now@);
    }
}

// ---------------------------------------------------------------------------------------------
// Active jobs
// ---------------------------------------------------------------------------------------------
/// The command of the job has been started, or is about to be.
pub open spec fn may_have_started(job: JobModel) -> bool {
    ||| job.state == JobState::Starting
    ||| job.state == JobState::Running
    ||| job.state == JobState::CancelRequested
}

/// The run has not ended.
pub open spec fn unfinished(run: RunModel) -> bool {
    ||| run.state == RunState::Starting
    ||| run.state == RunState::Running
    ||| run.state == RunState::CancelRequested
}

/// The process with the identity is alive: it is of this boot, and the inspector has no other
/// answer than that it is there.
pub open spec fn surely_alive<Inspector: IdentityInspector>(
    inspector: Inspector,
    identity: Option<IdentityModel>,
    boot_identity: Seq<char>,
) -> bool {
    &&& identity matches Some(known) && known.boot_identity == boot_identity
    &&& forall|answer: Result<IdentityStatus, IdentityInspectionError>|
        #[trigger] identity_asked(inspector, identity->0, answer) ==> answer == Ok::<
            IdentityStatus,
            IdentityInspectionError,
        >(IdentityStatus::Alive)
}

/// The process with the identity is not known to be alive: it has none, is of an earlier boot, or the
/// inspector never answers that it is there.
pub open spec fn surely_lost<Inspector: IdentityInspector>(
    inspector: Inspector,
    identity: Option<IdentityModel>,
    boot_identity: Seq<char>,
) -> bool {
    identity matches Some(known) ==> {
        ||| known.boot_identity != boot_identity
        ||| forall|answer: Result<IdentityStatus, IdentityInspectionError>|
            #[trigger] identity_asked(inspector, known, answer) ==> answer != Ok::<
                IdentityStatus,
                IdentityInspectionError,
            >(IdentityStatus::Alive)
    }
}

/// A run under way whose monitor is alive is kept: its job is neither changed nor started.
pub proof fn lemma_live_run_is_kept<Inspector: IdentityInspector>(
    inspector: Inspector,
    records: Seq<RecoveryRecord>,
    wall_now: UtcTimestamp,
    elapsed_now: ElapsedInstant,
    boot_identity: Seq<char>,
    plan: RecoveryPlan,
    at: int,
)
    requires
        recovery_planned(
            inspector,
            records,
            wall_now,
            elapsed_now,
            boot_identity,
            Ok::<RecoveryPlan, ReconciliationError>(plan),
        ),
        sole_record(records, at),
        may_have_started(records[at].job@),
        record_model(records[at]).1 matches Some(run) && (run.state == RunState::Running
            || run.state == RunState::CancelRequested) && surely_alive(
            inspector,
            run.monitor_identity,
            boot_identity,
        ),
    ensures
        never_started(plan, records[at].job@.id),
        unchanged(plan, records[at].job@.id),
        plan.preserved_runs@.contains(record_model(records[at]).1->0.id),
{
    let seen = lemma_plan_for(
        inspector,
        records,
        wall_now,
        elapsed_now,
        boot_identity,
        plan,
        at,
    );
}

/// A run that has not ended and whose monitor is not known to be alive, or whose command had not been
/// started, is interrupted with its job, under the claim that was read; the job is not started again.
pub proof fn lemma_lost_run_is_interrupted<Inspector: IdentityInspector>(
    inspector: Inspector,
    records: Seq<RecoveryRecord>,
    wall_now: UtcTimestamp,
    elapsed_now: ElapsedInstant,
    boot_identity: Seq<char>,
    plan: RecoveryPlan,
    at: int,
)
    requires
        recovery_planned(
            inspector,
            records,
            wall_now,
            elapsed_now,
            boot_identity,
            Ok::<RecoveryPlan, ReconciliationError>(plan),
        ),
        sole_record(records, at),
        may_have_started(records[at].job@),
        record_model(records[at]).1 matches Some(run) && unfinished(run) && (run.state
            == RunState::Starting || surely_lost(inspector, run.monitor_identity, boot_identity)),
    ensures
        never_started(plan, records[at].job@.id),
        exists|i: int, fate: CommandFate, token: ClaimToken|
            {
                &&& #[trigger] only_change(plan, records[at].job@.id, i)
                &&& plan.actions@[i] == (RecoveryAction::Interrupt {
                    job_id: records[at].job@.id,
                    expected_revision: records[at].job@.revision,
                    run: Some((record_model(records[at]).1->0.id, token)),
                    command_fate: fate,
                })
                &&& #[trigger] token@ == record_model(records[at]).1->0.claim_token
                &&& #[trigger] process_fate(
                    inspector,
                    record_model(records[at]).1->0.command_identity,
                    boot_identity,
                    fate,
                )
            },
{
    let seen = lemma_plan_for(
        inspector,
        records,
        wall_now,
        elapsed_now,
        boot_identity,
        plan,
        at,
    );
    let job = records[at].job@;
    let run = record_model(records[at]).1->0;
    assert(!seen.monitor_alive || run.state == RunState::Starting) by {
        if seen.monitor_alive && run.state != RunState::Starting {
            assert(process_fate(
                inspector,
                run.monitor_identity,
                boot_identity,
                CommandFate::Alive,
            ));
        }
    }
    let i = choose|i: int| #[trigger]
        only_change(plan, job.id, i) && plan.actions@[i]@ is Interrupt;
    assert(only_change(plan, job.id, i));
    let token = (plan.actions@[i]->Interrupt_run->0).1;
    assert(token@ == run.claim_token);
    assert(process_fate(inspector, run.command_identity, boot_identity, seen.command_fate));
}

/// An active job whose run is missing or has ended is interrupted alone, and nothing is claimed of its
/// command.
pub proof fn lemma_job_without_a_run_is_interrupted<Inspector: IdentityInspector>(
    inspector: Inspector,
    records: Seq<RecoveryRecord>,
    wall_now: UtcTimestamp,
    elapsed_now: ElapsedInstant,
    boot_identity: Seq<char>,
    plan: RecoveryPlan,
    at: int,
)
    requires
        recovery_planned(
            inspector,
            records,
            wall_now,
            elapsed_now,
            boot_identity,
            Ok::<RecoveryPlan, ReconciliationError>(plan),
        ),
        sole_record(records, at),
        may_have_started(records[at].job@),
        record_model(records[at]).1 matches Some(run) ==> !unfinished(run),
    ensures
        never_started(plan, records[at].job@.id),
        exists|i: int| #[trigger]
            only_change(plan, records[at].job@.id, i) && plan.actions@[i]
                == (RecoveryAction::Interrupt {
                job_id: records[at].job@.id,
                expected_revision: records[at].job@.revision,
                run: None,
                command_fate: CommandFate::Unknown,
            }),
{
    let seen = lemma_plan_for(
        inspector,
        records,
        wall_now,
        elapsed_now,
        boot_identity,
        plan,
        at,
    );
    let i = choose|i: int| #[trigger]
        only_change(plan, records[at].job@.id, i) && plan.actions@[i]@ is Interrupt;
    assert(only_change(plan, records[at].job@.id, i));
}

/// What became of a process is what the inspector says of it: a process without identity is unknown,
/// one of an earlier boot is another one now, and one that could not be looked at is unknown.
pub proof fn lemma_fate_is_what_was_answered<Inspector: IdentityInspector>(
    inspector: Inspector,
    identity: Option<IdentityModel>,
    boot_identity: Seq<char>,
    fate: CommandFate,
)
    requires
        process_fate(inspector, identity, boot_identity, fate),
    ensures
        match fate {
            CommandFate::Alive => identity matches Some(known) && known.boot_identity
                == boot_identity && identity_asked(
                inspector,
                known,
                Ok::<IdentityStatus, IdentityInspectionError>(IdentityStatus::Alive),
            ),
            CommandFate::Dead => identity matches Some(known) && known.boot_identity
                == boot_identity && identity_asked(
                inspector,
                known,
                Ok::<IdentityStatus, IdentityInspectionError>(IdentityStatus::Dead),
            ),
            CommandFate::Changed => identity matches Some(known) && (known.boot_identity
                != boot_identity || identity_asked(
                inspector,
                known,
                Ok::<IdentityStatus, IdentityInspectionError>(IdentityStatus::Changed),
            )),
            CommandFate::Unknown => identity matches Some(known) ==> known.boot_identity
                == boot_identity && exists|error: IdentityInspectionError| #[trigger]
                identity_asked(
                    inspector,
                    known,
                    Err::<IdentityStatus, IdentityInspectionError>(error),
                ),
        },
{
    if let Some(known) = identity {
        if known.boot_identity == boot_identity {
            let answer = choose|answer: Result<IdentityStatus, IdentityInspectionError>|
                #[trigger] identity_asked(inspector, known, answer) && fate == fate_of(answer);
            assert(identity_asked(inspector, known, answer));
            if let Err(error) = answer {
                assert(answer == Err::<IdentityStatus, IdentityInspectionError>(error));
            }
        }
    }
}

/// A plan is made only where no job is done and no job that waits has a run.
pub proof fn lemma_planned_jobs_are_open<Inspector: IdentityInspector>(
    inspector: Inspector,
    records: Seq<RecoveryRecord>,
    wall_now: UtcTimestamp,
    elapsed_now: ElapsedInstant,
    boot_identity: Seq<char>,
    plan: RecoveryPlan,
    at: int,
)
    requires
        recovery_planned(
            inspector,
            records,
            wall_now,
            elapsed_now,
            boot_identity,
            Ok::<RecoveryPlan, ReconciliationError>(plan),
        ),
        sole_record(records, at),
    ensures
        awaits_deadline(records[at].job@) || may_have_started(records[at].job@),
        awaits_deadline(records[at].job@) ==> records[at].active_run is None,
{
    let seen = lemma_plan_for(
        inspector,
        records,
        wall_now,
        elapsed_now,
        boot_identity,
        plan,
        at,
    );
}

/// The deadlines of a plan come in the order in which they fall due.
pub proof fn lemma_deadlines_are_in_order<Inspector: IdentityInspector>(
    inspector: Inspector,
    records: Seq<RecoveryRecord>,
    wall_now: UtcTimestamp,
    elapsed_now: ElapsedInstant,
    boot_identity: Seq<char>,
    plan: RecoveryPlan,
    i: int,
    j: int,
)
    requires
        recovery_planned(
            inspector,
            records,
            wall_now,
            elapsed_now,
            boot_identity,
            Ok::<RecoveryPlan, ReconciliationError>(plan),
        ),
        0 <= i < j < plan.deadlines@.len(),
    ensures
        plan.deadlines@[i].elapsed_due@ <= plan.deadlines@[j].elapsed_due@,
        plan.deadlines@[i].elapsed_due@ == plan.deadlines@[j].elapsed_due@
            ==> plan.deadlines@[i].job_id@ <= plan.deadlines@[j].job_id@,
{
    assert(plan@.deadlines[i] == plan.deadlines@[i]@);
    assert(plan@.deadlines[j] == plan.deadlines@[j]@);
}

// ---------------------------------------------------------------------------------------------
// The plan as a whole
// ---------------------------------------------------------------------------------------------
proof fn lemma_gathered_runs(
    records: Seq<RecoveryRecord>,
    seen: Seq<RunObservation>,
    wall_now: int,
    elapsed_now: int,
    run: RunId,
)
    requires
        gathered(records, seen, wall_now, elapsed_now) is Ok,
        seen.len() == records.len(),
        gathered(records, seen, wall_now, elapsed_now)->Ok_0.preserved.contains(run),
    ensures
        exists|i: int|
            {
                &&& 0 <= i < records.len()
                &&& may_have_started((#[trigger] records[i]).job@)
                &&& record_model(records[i]).1 matches Some(found) && found.id == run && (found.state
                    == RunState::Running || found.state == RunState::CancelRequested)
                &&& seen[i].monitor_alive
            },
    decreases records.len(),
{
    if records.len() > 0 {
        let before = gathered(records.drop_last(), seen.drop_last(), wall_now, elapsed_now)->Ok_0;
        let all = gathered(records, seen, wall_now, elapsed_now)->Ok_0;
        let at = choose|at: int| 0 <= at < all.preserved.len() && all.preserved[at] == run;
        assert(records.last() == records[records.len() - 1]);
        if at < before.preserved.len() {
            assert(before.preserved[at] == run);
            lemma_gathered_runs(records.drop_last(), seen.drop_last(), wall_now, elapsed_now, run);
            let i = choose|i: int|
                {
                    &&& 0 <= i < records.drop_last().len()
                    &&& may_have_started((#[trigger] records.drop_last()[i]).job@)
                    &&& record_model(records.drop_last()[i]).1 matches Some(found) && found.id == run
                        && (found.state == RunState::Running || found.state
                        == RunState::CancelRequested)
                    &&& seen.drop_last()[i].monitor_alive
                };
            assert(records[i] == records.drop_last()[i]);
            assert(seen[i] == seen.drop_last()[i]);
        }
    }
}

/// A run is kept only where it was under way and its monitor was seen alive.
pub proof fn lemma_only_live_runs_are_kept<Inspector: IdentityInspector>(
    inspector: Inspector,
    records: Seq<RecoveryRecord>,
    wall_now: UtcTimestamp,
    elapsed_now: ElapsedInstant,
    boot_identity: Seq<char>,
    plan: RecoveryPlan,
    run: RunId,
)
    requires
        recovery_planned(
            inspector,
            records,
            wall_now,
            elapsed_now,
            boot_identity,
            Ok::<RecoveryPlan, ReconciliationError>(plan),
        ),
        plan.preserved_runs@.contains(run),
    ensures
        exists|i: int|
            {
                &&& 0 <= i < records.len()
                &&& may_have_started((#[trigger] records[i]).job@)
                &&& record_model(records[i]).1 matches Some(found) && found.id == run && (found.state
                    == RunState::Running || found.state == RunState::CancelRequested)
                    && process_fate(
                    inspector,
                    found.monitor_identity,
                    boot_identity,
                    CommandFate::Alive,
                )
            },
{
    broadcast use group_to_multiset_ensures;

    let seen = choose|seen: Seq<RunObservation>|
        {
            &&& possible_observations(records, seen, boot_identity)
            &&& runs_observed(inspector, records, seen, boot_identity)
            &&& #[trigger] plan_outcome(
                records,
                seen,
                wall_now@,
                elapsed_now@ as int,
                Ok::<RecoveryPlan, ReconciliationError>(plan),
            )
        };
    let all = gathered(records, seen, wall_now@, elapsed_now@ as int)->Ok_0;
    assert(plan@.preserved.to_multiset().count(run) > 0);
    assert(all.preserved.contains(run));
    lemma_gathered_runs(records, seen, wall_now@, elapsed_now@ as int, run);
    let i = choose|i: int|
        {
            &&& 0 <= i < records.len()
            &&& may_have_started((#[trigger] records[i]).job@)
            &&& record_model(records[i]).1 matches Some(found) && found.id == run && (found.state
                == RunState::Running || found.state == RunState::CancelRequested)
            &&& seen[i].monitor_alive
        };
    let found = record_model(records[i]).1->0;
    assert(run_observed(inspector, found, boot_identity, seen[i]));
    assert(may_have_started(records[i].job@));
}

/// The job can be planned for: its command may have started; or it waits without a run, and its time is
/// still to come and can be reached, or has passed.
pub open spec fn can_be_planned(
    record: RecoveryRecord,
    wall_now: int,
    elapsed_now: int,
) -> bool {
    let job = record.job@;
    ||| may_have_started(job)
    ||| awaits_deadline(job) && record.active_run is None && if job.next_due_utc@ > wall_now {
        elapsed_now + (job.next_due_utc@ - wall_now) <= u128::MAX
    } else {
        match job.schedule {
            ScheduleModel::RecurringInterval { interval, persisted_anchor_utc } => {
                ||| job.missed_policy == MissedPolicy::Hold
                ||| {
                    &&& interval@ > 0
                    &&& persisted_anchor_utc@ <= wall_now
                    &&& -377_705_023_201_000_000_000 <= wall_now
                    &&& wall_now + interval@ * 1_000_000_000 <= 253_402_207_200_999_999_999
                    &&& elapsed_now + interval@ * 1_000_000_000 <= u128::MAX
                }
            },
            _ => true,
        }
    }
}

/// Recovery succeeds wherever every job can be planned for.
pub proof fn lemma_plan_is_made_where_it_can_be<Inspector: IdentityInspector>(
    inspector: Inspector,
    records: Seq<RecoveryRecord>,
    wall_now: UtcTimestamp,
    elapsed_now: ElapsedInstant,
    boot_identity: Seq<char>,
    r: Result<RecoveryPlan, ReconciliationError>,
)
    requires
        recovery_planned(inspector, records, wall_now, elapsed_now, boot_identity, r),
        boot_identity.len() > 0 && !boot_identity.contains('\0'),
        forall|i: int|
            0 <= i < records.len() ==> can_be_planned(
                #[trigger] records[i],
                wall_now@,
                elapsed_now@ as int,
            ),
    ensures
        r is Ok,
{
    let seen = choose|seen: Seq<RunObservation>|
        {
            &&& possible_observations(records, seen, boot_identity)
            &&& r is Ok ==> runs_observed(inspector, records, seen, boot_identity)
            &&& #[trigger] plan_outcome(records, seen, wall_now@, elapsed_now@ as int, r)
        };
    lemma_gathers(records, seen, wall_now@, elapsed_now@ as int);
}

proof fn lemma_gathers(
    records: Seq<RecoveryRecord>,
    seen: Seq<RunObservation>,
    wall_now: int,
    elapsed_now: int,
)
    requires
        seen.len() == records.len(),
        elapsed_now <= u128::MAX,
        forall|i: int|
            0 <= i < records.len() ==> can_be_planned(#[trigger] records[i], wall_now, elapsed_now),
    ensures
        gathered(records, seen, wall_now, elapsed_now) is Ok,
    decreases records.len(),
{
    if records.len() > 0 {
        assert forall|i: int| 0 <= i < records.drop_last().len() implies can_be_planned(
            #[trigger] records.drop_last()[i],
            wall_now,
            elapsed_now,
        ) by {
            assert(records.drop_last()[i] == records[i]);
        }
        lemma_gathers(records.drop_last(), seen.drop_last(), wall_now, elapsed_now);
        let last = records.last();
        assert(can_be_planned(records[records.len() - 1], wall_now, elapsed_now));
        if let ScheduleModel::RecurringInterval { interval, persisted_anchor_utc } =
            last.job@.schedule {
            if interval@ > 0 {
                lemma_first_occurrence(persisted_anchor_utc@, interval@ as int, wall_now);
            }
        }
    }
}

/// The kept runs of a plan come in the order of their identifiers.
pub proof fn lemma_kept_runs_are_in_order<Inspector: IdentityInspector>(
    inspector: Inspector,
    records: Seq<RecoveryRecord>,
    wall_now: UtcTimestamp,
    elapsed_now: ElapsedInstant,
    boot_identity: Seq<char>,
    plan: RecoveryPlan,
    i: int,
    j: int,
)
    requires
        recovery_planned(
            inspector,
            records,
            wall_now,
            elapsed_now,
            boot_identity,
            Ok::<RecoveryPlan, ReconciliationError>(plan),
        ),
        0 <= i < j < plan.preserved_runs@.len(),
    ensures
        plan.preserved_runs@[i]@ <= plan.preserved_runs@[j]@,
{
    assert(plan@.preserved[i]@ <= plan@.preserved[j]@);
}

} // verus!
