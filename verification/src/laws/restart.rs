//! How recovery changes the store.
use crate::application::reconcile::{
    plan_recovery, reconcile_startup, recovery_planned, startup_outcome, CommandFate,
    IdentityInspector, ReconciliationError, RecoveryAction, RecoveryAnswers, RecoveryPlan,
    RecoveryRecord, RecoveryStore, RecoveryStoreError, StartupReconciliationError,
};
use crate::domain::id::{id_text, JobId, RunId};
use crate::domain::job::Job;
use crate::domain::primitives::{Revision, UtcTimestamp};
use crate::domain::recurrence::ElapsedInstant;
use crate::domain::run::{ClaimToken, OutcomeModel, Run};
use crate::domain::schedule::{MissedPolicy, RuntimeTier};
use crate::domain::state::{JobState, RunState};
use crate::infrastructure::sqlite::database::{StoreError, StoreFault};
use crate::infrastructure::sqlite::names::{job_state_name, lemma_names_read_back};
use crate::infrastructure::sqlite::reconcile::{
    fine_before, has_job, interruption_text, join_records, recovery_writes, repeats, run_ending,
    run_stop, RecoveryWrite,
};
use crate::outside::timestamp_text;
use vstd::prelude::*;

verus! {

broadcast use vstd::seq::group_seq_axioms;

/// The writes move the job to the state at its next revision, on the condition that it still has the
/// expected revision and state, and record that recovery did so and why.
pub open spec fn moves_and_records(
    writes: Seq<RecoveryWrite>,
    job: JobId,
    expected: Revision,
    from: JobState,
    to: Seq<char>,
    reason: Seq<char>,
    now: UtcTimestamp,
) -> bool {
    &&& writes.len() == 2
    &&& writes[0] matches RecoveryWrite::MoveJob {
        job_id,
        expected_revision,
        from: earlier,
        revision,
        to: later,
        updated_at_utc,
    } && {
        &&& job_id@ == id_text(job@)
        &&& expected_revision == expected@ && revision == expected@ + 1
        &&& earlier@ == job_state_name(from) && later@ == to
        &&& updated_at_utc@ == timestamp_text(now@)
    }
    &&& writes[1] matches RecoveryWrite::Record(row) && {
        &&& row.job_id@ == id_text(job@)
        &&& row.from_state@ == job_state_name(from) && row.to_state@ == to
        &&& row.actor@ == "recovery"@ && row.reason@ == reason
        &&& row.occurred_at_utc@ == timestamp_text(now@)
        &&& row.revision == expected@ + 1
    }
}

/// A job that was missed is stored as missed, where it still waited.
pub proof fn lemma_missed_jobs_are_stored_as_missed(
    job: JobId,
    expected: Revision,
    action: &RecoveryAction,
    found: Option<String>,
    now: UtcTimestamp,
    r: Result<Vec<RecoveryWrite>, StoreError>,
    state: JobState,
)
    requires
        *action == (RecoveryAction::MarkMissed { job_id: job, expected_revision: expected }),
        call_ensures(recovery_writes, (action, found, now), r),
        expected@ < i64::MAX,
        found matches Some(name) && name@ == job_state_name(state),
    ensures
        if state == JobState::Scheduled || state == JobState::Waiting {
            r matches Ok(writes) && moves_and_records(
                writes@,
                job,
                expected,
                state,
                "missed"@,
                "deadline passed while no supervisor owned the job"@,
                now,
            )
        } else {
            r matches Err(error) && error@ == StoreFault::Conflict
        },
{
    lemma_names_read_back(state, RunState::Starting, RuntimeTier::Session, MissedPolicy::Hold);
}

/// A job whose run was lost is stored as interrupted, where its command may have run.
pub proof fn lemma_lost_jobs_are_stored_as_interrupted(
    job: JobId,
    expected: Revision,
    run: Option<(RunId, ClaimToken)>,
    fate: CommandFate,
    action: &RecoveryAction,
    found: Option<String>,
    now: UtcTimestamp,
    r: Result<Vec<RecoveryWrite>, StoreError>,
    state: JobState,
)
    requires
        *action == (RecoveryAction::Interrupt {
            job_id: job,
            expected_revision: expected,
            run,
            command_fate: fate,
        }),
        call_ensures(recovery_writes, (action, found, now), r),
        expected@ < i64::MAX,
        found matches Some(name) && name@ == job_state_name(state),
    ensures
        if state == JobState::Starting || state == JobState::Running || state
            == JobState::CancelRequested {
            r matches Ok(writes) && moves_and_records(
                writes@,
                job,
                expected,
                state,
                "interrupted"@,
                interruption_text(fate),
                now,
            )
        } else {
            r matches Err(error) && error@ == StoreFault::Conflict
        },
{
    lemma_names_read_back(state, RunState::Starting, RuntimeTier::Session, MissedPolicy::Hold);
}

/// A recurring job that is put off gets its new deadline at its next revision, and stays in its state.
pub proof fn lemma_put_off_jobs_get_their_deadline(
    job: JobId,
    expected: Revision,
    next: UtcTimestamp,
    action: &RecoveryAction,
    found: Option<String>,
    now: UtcTimestamp,
    r: Result<Vec<RecoveryWrite>, StoreError>,
)
    requires
        *action == (RecoveryAction::AdvanceRecurring {
            job_id: job,
            expected_revision: expected,
            next_due_utc: next,
        }),
        call_ensures(recovery_writes, (action, found, now), r),
        expected@ < i64::MAX,
    ensures
        r matches Ok(writes) && writes@.len() == 1 && (writes@[0] matches RecoveryWrite::Postpone {
            job_id,
            expected_revision,
            revision,
            updated_at_utc,
            next_due_utc,
        } && {
            &&& job_id@ == id_text(job@)
            &&& expected_revision == expected@ && revision == expected@ + 1
            &&& next_due_utc@ == timestamp_text(next@)
            &&& updated_at_utc@ == timestamp_text(now@)
        }),
{
}

/// The run of a lost job is ended under its claim, as interrupted and at the time of recovery; no other
/// action ends a run.
pub proof fn lemma_lost_runs_are_ended(
    action: &RecoveryAction,
    now: UtcTimestamp,
    r: Option<RecoveryWrite>,
)
    requires
        call_ensures(run_ending, (action, now), r),
    ensures
        r is Some <==> (*action matches RecoveryAction::Interrupt { run, .. } && run is Some),
        *action matches RecoveryAction::Interrupt { run: Some((id, token)), command_fate, .. } ==> (
        r matches Some(RecoveryWrite::FinishRun { run_id, token: held, columns }) && {
            &&& run_id@ == id_text(id@)
            &&& held@ == token@
            &&& columns.state@ == "interrupted"@
            &&& columns.outcome@ == OutcomeModel::Interrupted(interruption_text(command_fate))
            &&& columns.exit_code is None && columns.terminating_signal is None
        }),
{
}

/// Jobs and their active runs are brought together: every job is there once and in its order, with the run
/// that belongs to it. A run of a job that is not there, or a second run of a job, is an error, and so are
/// more than a hundred thousand jobs.
pub proof fn lemma_runs_are_joined_with_their_jobs(
    runs: Vec<Run>,
    jobs: Vec<Job>,
    r: Result<Vec<RecoveryRecord>, StoreError>,
    at: int,
    first: int,
    second: int,
)
    requires
        call_ensures(join_records, (runs, jobs), r),
    ensures
        r matches Ok(records) ==> {
            &&& records@.len() == jobs@.len()
            &&& 0 <= at < jobs@.len() ==> records@[at].job == jobs@[at]
            &&& 0 <= at < jobs@.len() ==> (records@[at].active_run matches Some(run) ==> run@.job_id@
                == jobs@[at]@.id@ && runs@.contains(run))
        },
        r is Ok && 0 <= first < second < runs@.len() ==> runs@[first]@.job_id@
            != runs@[second]@.job_id@,
        r is Ok && 0 <= first < runs@.len() ==> has_job(jobs@, runs@[first]@.job_id@),
        r is Ok ==> jobs@.len() <= 100_000,
        runs@.len() == 0 && jobs@.len() <= 100_000 ==> r is Ok,
{
    if r is Ok && 0 <= first < second < runs@.len() {
        assert(fine_before(runs@, runs@.len() as int));
        assert(run_stop(runs@, second) is None);
        assert(!repeats(runs@, second));
    }
}

/// A restart plans for the jobs that are not done, applies the plan once, and only then cleans up; where the
/// plan fails nothing is changed.
pub proof fn lemma_plan_is_applied_before_the_cleanup<
    Store: RecoveryStore,
    Inspector: IdentityInspector,
>(
    before: Store,
    after: Store,
    inspector: &Inspector,
    wall_now: UtcTimestamp,
    elapsed_now: ElapsedInstant,
    boot_identity: &str,
    r: Result<RecoveryPlan, StartupReconciliationError>,
)
    requires
        exists|store: &mut Store|
            {
                &&& #[trigger] call_ensures(
                    reconcile_startup::<Store, Inspector>,
                    (store, inspector, wall_now, elapsed_now, boot_identity),
                    r,
                )
                &&& *store == before
                &&& *final(store) == after
            },
    ensures
        r matches Err(StartupReconciliationError::Plan(_)) ==> after == before,
        r matches Ok(plan) ==> exists|records: Vec<RecoveryRecord>|
            {
                &&& #[trigger] call_ensures(
                    Store::load_nonterminal,
                    (&before,),
                    Ok::<Vec<RecoveryRecord>, RecoveryStoreError>(records),
                )
                &&& recovery_planned(
                    *inspector,
                    records@,
                    wall_now,
                    elapsed_now,
                    boot_identity@,
                    Ok::<RecoveryPlan, ReconciliationError>(plan),
                )
            },
        r matches Ok(plan) ==> exists|
            at: &mut Store,
            applied: Result<(), RecoveryStoreError>,
            then: &mut Store,
            cleaned: Result<(), RecoveryStoreError>,
        |
            {
                &&& #[trigger] call_ensures(
                    Store::apply_recovery,
                    (at, &plan.actions, wall_now),
                    applied,
                )
                &&& applied is Ok
                &&& *at == before
                &&& #[trigger] call_ensures(Store::cleanup_recovery, (then, wall_now), cleaned)
                &&& cleaned is Ok
                &&& *then == *final(at)
                &&& *final(then) == after
            },
{
    let answers = choose|answers: RecoveryAnswers<Store>| #[trigger]
        startup_outcome(
            before,
            *inspector,
            wall_now,
            elapsed_now,
            boot_identity@,
            answers,
            r,
        );
    if r is Ok {
        let records = answers.loaded->Ok_0;
        assert(answers.loaded == Ok::<Vec<RecoveryRecord>, RecoveryStoreError>(records));
        assert(answers.planned == Ok::<RecoveryPlan, ReconciliationError>(r->Ok_0));
    }
}

/// A plan is refused for a boot without a usable identity.
pub proof fn lemma_boot_must_be_known<Inspector: IdentityInspector>(
    records: &[RecoveryRecord],
    inspector: &Inspector,
    wall_now: UtcTimestamp,
    elapsed_now: ElapsedInstant,
    boot_identity: &str,
    r: Result<RecoveryPlan, ReconciliationError>,
)
    requires
        call_ensures(
            plan_recovery::<Inspector>,
            (records, inspector, wall_now, elapsed_now, boot_identity),
            r,
        ),
    ensures
        boot_identity@.len() == 0 || boot_identity@.contains('\0') ==> r == Err::<
            RecoveryPlan,
            ReconciliationError,
        >(ReconciliationError::InvalidBootIdentity),
        r matches Ok(plan) ==> recovery_planned(
            *inspector,
            records@,
            wall_now,
            elapsed_now,
            boot_identity@,
            r,
        ),
{
}

} // verus!
