//! What the store keeps, and under which conditions.
use crate::application::reconcile::{CommandFate, RecoveryStore, RecoveryStoreError};
use crate::domain::id::{ascii_lower, id_text, JobId, RunId};
use crate::domain::job::{Job, JobModel};
use crate::domain::primitives::{Revision, Sequence, UtcTimestamp};
use crate::domain::run::{
    state_of_outcome, ClaimToken, ProcessIdentitySnapshot, Run, RunModel, RunOutcome,
};
use crate::domain::schedule::{MissedPolicy, RuntimeTier};
use crate::domain::state::{JobState, RunState};
use crate::domain::transition::{Transition, TransitionActor};
use crate::infrastructure::paths::EntryFacts;
use crate::infrastructure::sqlite::connection::{Connection, Statement};
use crate::infrastructure::sqlite::database::{
    apply_migrations, changed_one, check_busy_timeout, check_database_file, lemma_pending_bounds,
    map_write_error, one_row, pending, schema_wait, verify_pragmas, ConnectionPragmas,
    DatabaseFailure, SchemaWait, StoreError, StoreFault,
};
use crate::infrastructure::sqlite::job_row::{encode_job, stores_job, JobRow};
use crate::infrastructure::sqlite::job_store::{
    change_job, change_statement, id_given, inserted_job, job_changed, job_inserted,
    lemma_change_is_all_or_nothing, lemma_changed_job_was_allowed, loaded_jobs, records_change,
    Change, ChangeAnswers, JobStore,
};
use crate::infrastructure::sqlite::management::{
    bounded_active_runs, hide_outcome, hide_refusal, hide_statements,
    lemma_hiding_is_all_or_nothing, lemma_requeueing_is_all_or_nothing, listed_jobs, records_rerun,
    requeue, requeue_outcome, requeue_statement, HideAnswers, RequeueAnswers,
};
use crate::infrastructure::sqlite::names::{
    actor_name, encode_job_state, encode_policy, encode_run_state, encode_tier, job_state_name,
    lemma_names_read_back,
};
use crate::infrastructure::sqlite::reconcile::{check_recovery, interruption_reason, StartupStore};
use crate::infrastructure::sqlite::retention::{cleanup_outcome, CleanupAnswers, RetentionReport};
use crate::infrastructure::sqlite::run_row::{
    finish_columns, stores_run, tells_end, FinishColumns, RunRow,
};
use crate::infrastructure::sqlite::run_store::{
    cancel_found, claim, claim_outcome, finish_found, finish_outcome, inserted_run,
    lemma_claim_is_all_or_nothing, loaded_runs, mark_found, next_sequence, verify_claim,
    ClaimAnswers, RunAnswers, RunChange,
};
use crate::infrastructure::sqlite::statements::{
    ran_completed_runs, ran_has_run, ran_last_sequence, ran_page_jobs, ran_visible_jobs,
    ran_visible_jobs_by_prefix,
};
use crate::infrastructure::sqlite::tables::{Database, TransitionRow};
use crate::infrastructure::sqlite::transaction::{kept, Transaction};
use crate::outside::{timestamp_of_text, timestamp_text};
use crate::path_text::stays_below;
use crate::text::utf8_len;
use super::lifecycle::{ended, enters, is_reason, names_a_process};
use vstd::prelude::*;
use vstd::utf8::{is_ascii_chars, is_ascii_chars_encode_utf8};

verus! {

broadcast use vstd::seq::group_seq_axioms;

// ---------------------------------------------------------------------------------------------
// The database
// ---------------------------------------------------------------------------------------------
/// A database file is opened only where it is a regular one, the user's own and closed to others.
pub proof fn lemma_database_must_be_private(entry: EntryFacts, uid: u32, r: Result<(), StoreError>)
    requires
        call_ensures(check_database_file, (entry, uid), r),
    ensures
        r is Ok <==> entry.is_file && !entry.is_symlink && entry.owner == uid && entry.mode & 0o777
            == 0o600,
        r matches Err(error) ==> error@ == StoreFault::InsecureDatabaseFile,
{
}

/// A file that was there before and has no schema is looked at again while there are attempts left; it is
/// never taken for a new one.
pub proof fn lemma_empty_files_are_not_rebuilt(
    created: bool,
    version: i64,
    attempts: u32,
    r: SchemaWait,
)
    requires
        call_ensures(schema_wait, (created, version, attempts), r),
    ensures
        r == SchemaWait::Ready <==> created || version != 0,
        r == SchemaWait::Missing <==> !created && version == 0 && attempts <= 1,
        r matches SchemaWait::Retry(left) ==> left == attempts - 1,
{
}

/// Exactly the migrations beyond the current version and up to the target are run, in order; a newer
/// database is refused.
pub proof fn lemma_missing_migrations_are_run(
    current: u32,
    versions: &Vec<u32>,
    target: u32,
    r: Result<Vec<usize>, StoreError>,
    at: int,
)
    requires
        call_ensures(apply_migrations, (current, versions, target), r),
        versions@.len() <= usize::MAX,
        0 <= at < versions@.len(),
    ensures
        r is Err <==> current > target,
        r matches Ok(plan) ==> {
            &&& plan@.contains(at as usize) <==> current < versions@[at] <= target
            &&& forall|i: int, j: int| 0 <= i < j < plan@.len() ==> plan@[i] < plan@[j]
        },
{
    lemma_pending_bounds(versions@, current, target);
    lemma_pending_holds(versions@, current, target, at);
}

proof fn lemma_pending_holds(versions: Seq<u32>, current: u32, target: u32, at: int)
    requires
        versions.len() <= usize::MAX,
        0 <= at < versions.len(),
    ensures
        pending(versions, current, target).contains(at as usize) <==> current < versions[at]
            <= target,
    decreases versions.len(),
{
    let rest = pending(versions.drop_last(), current, target);
    let all = pending(versions, current, target);
    lemma_pending_bounds(versions, current, target);
    lemma_pending_bounds(versions.drop_last(), current, target);
    if at < versions.len() - 1 {
        lemma_pending_holds(versions.drop_last(), current, target, at);
        assert(versions.drop_last()[at] == versions[at]);
        if rest.contains(at as usize) {
            let k = choose|k: int| 0 <= k < rest.len() && rest[k] == at as usize;
            assert(all[k] == at as usize);
        }
        if all.contains(at as usize) {
            let k = choose|k: int| 0 <= k < all.len() && all[k] == at as usize;
            if k < rest.len() {
                assert(rest[k] == at as usize);
            }
        }
    } else {
        if current < versions[at] <= target {
            assert(all[rest.len() as int] == at as usize);
        }
        if all.contains(at as usize) {
            let k = choose|k: int| 0 <= k < all.len() && all[k] == at as usize;
            assert(current < versions[all[k] as int] <= target);
        }
    }
}

/// A busy timeout is counted in milliseconds, up to the largest 32-bit number of them; none at all is
/// refused.
pub proof fn lemma_busy_timeout_is_in_milliseconds(nanos: u128, r: Result<u64, StoreError>)
    requires
        call_ensures(check_busy_timeout, (nanos,), r),
    ensures
        r is Ok <==> 0 < nanos && nanos / 1_000_000 <= 2_147_483_647,
        r matches Ok(milliseconds) ==> milliseconds == nanos / 1_000_000,
{
}

/// A connection is used only where it enforces foreign keys, writes its journal ahead, and makes every
/// commit last.
pub proof fn lemma_settings_must_hold(
    actual: &ConnectionPragmas,
    timeout: u64,
    r: Result<(), StoreError>,
)
    requires
        call_ensures(verify_pragmas, (actual, timeout), r),
    ensures
        r is Ok <==> actual.foreign_keys && actual.journal_mode@ == "wal"@ && actual.synchronous
            == 2 && actual.busy_timeout_ms == timeout,
{
}

/// A write that fails because others write is told from any other failure, and one that had to change a
/// row and did not found it changed by others.
pub proof fn lemma_lost_writes_are_conflicts(
    result: Result<usize, DatabaseFailure>,
    r: Result<(), StoreError>,
    failure: DatabaseFailure,
    mapped: StoreError,
)
    requires
        call_ensures(changed_one, (result,), r),
        call_ensures(map_write_error, (failure,), mapped),
    ensures
        r is Ok <==> result == Ok::<usize, DatabaseFailure>(1),
        r matches Err(StoreError::Conflict) <==> result is Ok && result
            != Ok::<usize, DatabaseFailure>(1),
        mapped is Busy <==> failure is Busy,
        mapped is Sqlite <==> !(failure is Busy),
{
}

// ---------------------------------------------------------------------------------------------
// Jobs
// ---------------------------------------------------------------------------------------------
/// A job that exists is not stored again.
pub proof fn lemma_jobs_are_stored_once(
    result: Result<usize, DatabaseFailure>,
    r: Result<(), StoreError>,
)
    requires
        call_ensures(inserted_job, (result,), r),
    ensures
        r is Ok <==> result == Ok::<usize, DatabaseFailure>(1),
        r matches Err(StoreError::AlreadyExists) <==> result matches Err(
            DatabaseFailure::Constraint(_),
        ),
{
}

/// A stored job is changed only where it has the revision that was expected and may enter the state; it
/// then has the next revision.
pub proof fn lemma_only_the_expected_revision_is_changed(
    found: Option<Job>,
    expected: Revision,
    to: JobState,
    recurring: bool,
    actor: TransitionActor,
    reason: &str,
    now: UtcTimestamp,
    r: Result<(Job, Transition<JobState>), StoreError>,
)
    requires
        call_ensures(change_job, (found, expected, to, recurring, actor, reason, now), r),
    ensures
        found is None ==> (r matches Err(error) && error is NotFound),
        found matches Some(job) ==> job@.revision != expected ==> (r matches Err(error) && error
            is Conflict),
        r is Ok <==> (found matches Some(job) && job@.revision == expected && enters(
            job@.state,
            to,
            recurring,
        ) && is_reason(reason@) && now@ >= job@.updated_at_utc@ && job@.revision@ < u64::MAX),
        r matches Ok((job, done)) ==> {
            &&& job@.state == to && job@.updated_at_utc == now
            &&& job@.revision@ == expected@ + 1
            &&& job@.id == found->0@.id && job@.schedule == found->0@.schedule
            &&& job@.execution == found->0@.execution
            &&& done.spec_from() == found->0@.state && done.spec_to() == to
            &&& done.spec_actor() == actor && done.spec_reason() == reason@
        },
{
}

/// A change of a stored job that succeeds writes the new state at the next revision, on the condition that
/// the job still has the expected one, together with a record of who changed it from which state and why;
/// one that fails keeps nothing.
pub proof fn lemma_changes_are_recorded<D: Database>(
    before: JobStore<D>,
    after: JobStore<D>,
    id: JobId,
    expected: Revision,
    to: JobState,
    recurring: bool,
    actor: TransitionActor,
    reason: &str,
    now: UtcTimestamp,
    r: Result<Job, StoreError>,
)
    requires
        exists|at: &mut JobStore<D>|
            {
                &&& #[trigger] call_ensures(
                    JobStore::<D>::transition_job,
                    (at, id, expected, to, recurring, actor, reason, now),
                    r,
                )
                &&& *at == before
                &&& *final(at) == after
            },
    ensures
        r matches Ok(job) ==> job@.state == to && job@.revision@ == expected@ + 1
            && job@.updated_at_utc == now && exists|earlier: JobState|
            #[trigger] enters(earlier, to, recurring),
        exists|statements: Seq<Statement>|
            {
                &&& #[trigger] after.connection.ran(before.connection, statements)
                &&& r is Err ==> kept(statements, None) == Seq::<Statement>::empty()
                &&& r is Ok ==> exists|
                    row: TransitionRow,
                    from: JobState,
                    recorded: Result<usize, DatabaseFailure>,
                |
                    {
                        &&& kept(statements, None) == seq![
                            Statement::UpdateJobState {
                                id: id_text(id@),
                                expected_revision: expected@ as i64,
                                expected_state: None,
                                revision: (expected@ + 1) as i64,
                                state: job_state_name(to),
                                updated_at_utc: timestamp_text(now@),
                                answer: Ok(1),
                            },
                            #[trigger] recording(row, recorded),
                        ]
                        &&& recorded is Ok
                        &&& row.job_id@ == id_text(id@)
                        &&& row.from_state@ == #[trigger] job_state_name(from)
                        &&& row.to_state@ == job_state_name(to)
                        &&& row.occurred_at_utc@ == timestamp_text(now@)
                        &&& row.actor@ == actor_name(actor)
                        &&& row.reason@ == reason@
                        &&& row.revision == expected@ + 1
                    }
            },
{
    let change = Change {
        id,
        expected_revision: expected,
        to,
        recurring,
        actor,
        reason: reason@,
        now,
    };
    assert(job_changed(before, after, change, r));
    lemma_changed_job_was_allowed(before, after, change, r);
    lemma_change_is_all_or_nothing(before, after, change, r);
    if let Ok(job) = r {
        let earlier = choose|earlier: JobModel| #[trigger] change.gives(earlier, job@);
        assert(enters(earlier.state, to, recurring));
        let statements = choose|statements: Seq<Statement>|
            {
                &&& #[trigger] after.connection.ran(before.connection, statements)
                &&& exists|
                    row: TransitionRow,
                    from: JobState,
                    answers: ChangeAnswers,
                |
                    {
                        &&& #[trigger] records_change(
                            row,
                            change,
                            from,
                        )
                        &&& kept(statements, None) == seq![
                            #[trigger] change_statement(
                                change,
                                answers,
                            ),
                            Statement::InsertTransition { row, answer: answers.recorded },
                        ]
                        &&& answers.updated == Ok::<usize, DatabaseFailure>(1)
                        &&& answers.recorded is Ok
                    }
            };
        let (row, from, answers) = choose|
            row: TransitionRow,
            from: JobState,
            answers: ChangeAnswers,
        |
            {
                &&& #[trigger] records_change(
                    row,
                    change,
                    from,
                )
                &&& kept(statements, None) == seq![
                    #[trigger] change_statement(
                        change,
                        answers,
                    ),
                    Statement::InsertTransition { row, answer: answers.recorded },
                ]
                &&& answers.updated == Ok::<usize, DatabaseFailure>(1)
                &&& answers.recorded is Ok
            };
        assert(recording(row, answers.recorded) == (Statement::InsertTransition {
            row,
            answer: answers.recorded,
        }));
        assert(job_state_name(from) == row.from_state@);
    }
}

/// The statement that records a change.
pub open spec fn recording(row: TransitionRow, answer: Result<usize, DatabaseFailure>) -> Statement {
    Statement::InsertTransition { row, answer }
}

/// The statement that deletes the runs of a job.
pub open spec fn deleting_runs(job_id: JobId, deleted: usize) -> Statement {
    Statement::DeleteRunsOf { job_id: id_text(job_id@), answer: Ok(deleted) }
}

/// The statement that hides a job that is done and has the revision.
pub open spec fn hiding(job_id: JobId, revision: Revision) -> Statement {
    Statement::HideFinishedJob { id: id_text(job_id@), revision: revision@ as i64, answer: Ok(1) }
}

/// A job that is removed is hidden at the revision that was expected; its runs are deleted with it only
/// where its history is not kept. A removal that fails keeps nothing.
pub proof fn lemma_removed_jobs_are_hidden<D: Database>(
    before: JobStore<D>,
    after: JobStore<D>,
    job_id: JobId,
    expected: Revision,
    keep_history: bool,
    r: Result<Job, StoreError>,
)
    requires
        exists|at: &mut JobStore<D>|
            {
                &&& #[trigger] call_ensures(
                    JobStore::<D>::conceal_job,
                    (at, job_id, expected, keep_history),
                    r,
                )
                &&& *at == before
                &&& *final(at) == after
            },
    ensures
        exists|statements: Seq<Statement>|
            {
                &&& #[trigger] after.connection.ran(before.connection, statements)
                &&& r is Err ==> kept(statements, None) == Seq::<Statement>::empty()
                &&& r is Ok && keep_history ==> kept(statements, None) == seq![
                    hiding(job_id, expected),
                ]
                &&& r is Ok && !keep_history ==> exists|deleted: usize|
                    kept(statements, None) == seq![
                        #[trigger] deleting_runs(job_id, deleted),
                        hiding(job_id, expected),
                    ]
            },
{
    let (transaction, answers) = choose|transaction: Transaction<D, Job>, answers: HideAnswers|
        #[trigger] hide_outcome(
            before,
            after,
            job_id,
            expected,
            keep_history,
            transaction,
            answers,
            r,
        );
    lemma_hiding_is_all_or_nothing(
        before,
        after,
        job_id,
        expected,
        keep_history,
        transaction,
        answers,
        r,
    );
    let writes = hide_statements(
        job_id,
        expected,
        keep_history,
        answers.deleted,
        answers.hidden,
    );
    let statements = choose|statements: Seq<Statement>|
        {
            &&& #[trigger] after.connection.ran(before.connection, statements)
            &&& kept(statements, None) == if r is Ok {
                writes
            } else {
                Seq::empty()
            }
        };
    if r is Ok {
        assert(hide_refusal(expected, keep_history, answers.deleted, answers.hidden) is None);
        assert(answers.hidden == Ok::<usize, DatabaseFailure>(1));
        if keep_history {
            assert(writes == seq![hiding(job_id, expected)]);
        } else {
            let deleted = answers.deleted->Ok_0;
            assert(answers.deleted == Ok::<usize, DatabaseFailure>(deleted));
            assert(writes == seq![deleting_runs(job_id, deleted), hiding(job_id, expected)]);
        }
    }
    assert(after.connection.ran(before.connection, statements));
}

/// Only a job that is stored as done may wait again, at the next revision.
pub proof fn lemma_only_done_jobs_wait_again(
    current: Option<String>,
    expected: Revision,
    r: Result<(String, i64), StoreError>,
    state: JobState,
)
    requires
        call_ensures(requeue, (current, expected), r),
    ensures
        r matches Ok((name, revision)) ==> current == Some(name) && revision == expected@ + 1,
        current is None ==> (r matches Err(error) && error is Conflict),
        current matches Some(name) ==> name@ == job_state_name(state) && expected@ < i64::MAX ==> (
        r is Ok <==> state == JobState::Succeeded || state == JobState::Failed || state
            == JobState::Cancelled || state == JobState::Interrupted || state == JobState::Missed),
{
    lemma_names_read_back(
        state,
        RunState::Starting,
        RuntimeTier::Session,
        MissedPolicy::Hold,
    );
}

// ---------------------------------------------------------------------------------------------
// Runs
// ---------------------------------------------------------------------------------------------
/// Runs of a job are numbered from one, without gaps.
pub proof fn lemma_runs_are_numbered(last: i64, r: Result<Sequence, StoreError>)
    requires
        call_ensures(next_sequence, (last,), r),
    ensures
        r is Ok <==> last >= 0,
        r matches Ok(sequence) ==> sequence@ == last + 1,
{
}

/// A claimed run starts out with nothing but its deadline and its token.
pub proof fn lemma_claimed_run_is_new(
    job_id: JobId,
    last: i64,
    scheduled: UtcTimestamp,
    created: UtcTimestamp,
    token: Result<[u8; 32], String>,
    r: Result<Run, StoreError>,
)
    requires
        call_ensures(claim, (job_id, last, scheduled, created, token), r),
    ensures
        r is Ok <==> last >= 0 && token is Ok,
        r matches Ok(run) ==> {
            &&& run@.job_id == job_id
            &&& run@.sequence@ == last + 1
            &&& run@.scheduled_for_utc == scheduled
            &&& run@.created_at_utc == created
            &&& run@.claim_token == token->Ok_0@
            &&& run@.state == RunState::Starting
            &&& run@.started_at_utc is None && run@.finished_at_utc is None
            &&& run@.outcome is None && run@.command_identity is None
            &&& run@.monitor_identity is None && run@.stdout_path is None
        },
{
}

/// A deadline is claimed once: a claim that the database refuses is a duplicate.
pub proof fn lemma_deadlines_are_claimed_once(
    result: Result<usize, DatabaseFailure>,
    r: Result<(), StoreError>,
)
    requires
        call_ensures(inserted_run, (result,), r),
    ensures
        r is Ok <==> result == Ok::<usize, DatabaseFailure>(1),
        r matches Err(StoreError::DuplicateClaim) <==> result matches Err(
            DatabaseFailure::Constraint(_),
        ),
{
}

/// A claim that succeeds keeps one new run of the job for the deadline; one that fails keeps nothing.
pub proof fn lemma_claim_keeps_one_run<D: Database>(
    before: JobStore<D>,
    after: JobStore<D>,
    job_id: JobId,
    scheduled: UtcTimestamp,
    created: UtcTimestamp,
    r: Result<Run, StoreError>,
)
    requires
        exists|at: &mut JobStore<D>|
            {
                &&& #[trigger] call_ensures(
                    JobStore::<D>::claim_run,
                    (at, job_id, scheduled, created),
                    r,
                )
                &&& *at == before
                &&& *final(at) == after
            },
    ensures
        r matches Ok(run) ==> {
            &&& run@.job_id == job_id
            &&& run@.scheduled_for_utc == scheduled
            &&& run@.created_at_utc == created
            &&& run@.state == RunState::Starting
            &&& run@.outcome is None && run@.started_at_utc is None
            &&& run@.sequence@ >= 1
        },
        exists|statements: Seq<Statement>|
            {
                &&& #[trigger] after.connection.ran(before.connection, statements)
                &&& r is Err ==> kept(statements, None) == Seq::<Statement>::empty()
                &&& r matches Ok(run) ==> exists|row: RunRow| #[trigger]
                    stores_run(row, run@) && kept(statements, None) == seq![
                        Statement::InsertRun { run: row, answer: Ok(1) },
                    ]
            },
{
    let (transaction, run, answers) = choose|
        transaction: Transaction<D, Run>,
        run: RunModel,
        answers: ClaimAnswers,
    | #[trigger]
        claim_outcome(
            before,
            after,
            job_id,
            scheduled,
            created,
            transaction,
            run,
            answers,
            r,
        );
    lemma_claim_is_all_or_nothing(
        before,
        after,
        job_id,
        scheduled,
        created,
        transaction,
        run,
        answers,
        r,
    );
}

/// Only the holder of its token may change a run.
pub proof fn lemma_claims_are_checked(run: &Run, token: ClaimToken, r: Result<(), StoreError>)
    requires
        call_ensures(verify_claim, (run, token), r),
    ensures
        r is Ok <==> run@.claim_token == token@,
        r matches Err(error) ==> error is InvalidClaim,
{
}

/// The end of a run is recorded once: the same end again changes nothing, and another one is a conflict.
pub proof fn lemma_end_is_recorded_once(
    found: Option<Run>,
    token: ClaimToken,
    finished: UtcTimestamp,
    outcome: &RunOutcome,
    r: Result<RunChange, StoreError>,
)
    requires
        call_ensures(finish_found, (found, token, finished, outcome), r),
    ensures
        found is None ==> (r matches Err(error) && error is NotFound),
        found matches Some(run) ==> {
            &&& run@.claim_token != token@ ==> (r matches Err(error) && error is InvalidClaim)
            &&& run@.claim_token == token@ && ended(run@.state) ==> if run@.finished_at_utc == Some(
                finished,
            ) && run@.outcome == Some(outcome@) {
                r == Ok::<RunChange, StoreError>(RunChange::Unchanged(run))
            } else {
                r matches Err(error) && error is Conflict
            }
            &&& r matches Ok(RunChange::Store(done)) ==> {
                &&& !ended(run@.state)
                &&& done@.outcome == Some(outcome@)
                &&& done@.finished_at_utc == Some(finished)
                &&& ended(done@.state)
                &&& done@.id == run@.id && done@.claim_token == run@.claim_token
                &&& done@.state == RunState::Cancelled ==> run@.state == RunState::CancelRequested
            }
        },
{
}

/// The cancellation of a run is asked for once, and not after it ended.
pub proof fn lemma_cancellation_is_asked_for_once(
    found: Option<Run>,
    token: ClaimToken,
    r: Result<RunChange, StoreError>,
)
    requires
        call_ensures(cancel_found, (found, token), r),
    ensures
        found matches Some(run) ==> run@.claim_token == token@ ==> {
            &&& r is Ok
            &&& r->Ok_0 is Store <==> run@.state == RunState::Starting || run@.state
                == RunState::Running
            &&& r matches Ok(RunChange::Store(asked)) ==> asked@.state == RunState::CancelRequested
                && asked@.id == run@.id && asked@.claim_token == run@.claim_token
                && asked@.outcome == run@.outcome
            &&& r matches Ok(RunChange::Unchanged(same)) ==> same == run
        },
        !(found matches Some(run) && run@.claim_token == token@) ==> r is Err,
{
}

/// At most a thousand active runs are looked at.
pub proof fn lemma_active_runs_are_bounded(runs: Vec<Run>, r: Result<Vec<Run>, StoreError>)
    requires
        call_ensures(bounded_active_runs, (runs,), r),
    ensures
        r is Ok <==> runs@.len() <= 1000,
        r matches Ok(same) ==> same == runs,
{
}

// ---------------------------------------------------------------------------------------------
// Recovery
// ---------------------------------------------------------------------------------------------
/// Recovery interrupts only jobs whose command may have run, and misses only jobs that waited.
pub proof fn lemma_recovery_moves_stored_jobs(
    current: Option<String>,
    target: JobState,
    r: Result<String, StoreError>,
    state: JobState,
)
    requires
        call_ensures(check_recovery, (current, target), r),
    ensures
        current is None ==> r is Err,
        r matches Ok(name) ==> current == Some(name) && (target == JobState::Interrupted || target
            == JobState::Missed),
        r matches Err(error) ==> error is Conflict,
        current matches Some(name) ==> name@ == job_state_name(state) ==> (r is Ok <==> (target
            == JobState::Interrupted && (state == JobState::Starting || state == JobState::Running
            || state == JobState::CancelRequested)) || (target == JobState::Missed && (state
            == JobState::Scheduled || state == JobState::Waiting))),
{
    lemma_names_read_back(
        state,
        RunState::Starting,
        RuntimeTier::Session,
        MissedPolicy::Hold,
    );
}

/// An interruption says what is known of the command.
pub proof fn lemma_interruptions_say_what_is_known(fate: CommandFate, r: &'static str)
    requires
        call_ensures(interruption_reason, (fate,), r),
    ensures
        fate == CommandFate::Alive ==> r@ == "run monitor disappeared while command remains alive"@,
        fate == CommandFate::Dead ==> r@ == "run monitor and command are no longer alive"@,
        fate == CommandFate::Changed ==> r@ == "stored process identity no longer matches"@,
        fate == CommandFate::Unknown ==> r@ == "run outcome and process identity are unknown"@,
{
}

// ---------------------------------------------------------------------------------------------
// Queries and columns
// ---------------------------------------------------------------------------------------------
/// The name of a state, where one is asked for.
pub open spec fn state_asked_for(state: Option<JobState>) -> Option<Seq<char>> {
    match state {
        Some(wanted) => Some(job_state_name(wanted)),
        None => None,
    }
}

/// The identifier after which a list starts, or nothing.
pub open spec fn place_asked_for(after: Option<JobId>) -> Seq<char> {
    match after {
        Some(id) => id_text(id@),
        None => Seq::empty(),
    }
}

/// The identifier of a job, where one is asked for.
pub open spec fn job_asked_for(job_id: Option<JobId>) -> Option<Seq<char>> {
    match job_id {
        Some(id) => Some(id_text(id@)),
        None => None,
    }
}

/// Jobs are asked for in the state, from the place and up to the number that were asked for.
pub proof fn lemma_listing_asks_for_what_was_asked<D: Database>(
    store: &JobStore<D>,
    state: Option<JobState>,
    after: Option<JobId>,
    limit: usize,
    r: Result<Vec<Job>, StoreError>,
)
    requires
        call_ensures(JobStore::<D>::visible_jobs, (store, state, after, limit), r),
        limit <= 1000,
    ensures
        exists|found: Result<Vec<JobRow>, DatabaseFailure>|
            {
                &&& #[trigger] ran_visible_jobs(
                    store.connection.state(),
                    state_asked_for(state),
                    place_asked_for(after),
                    limit as i64,
                    found,
                )
                &&& found is Err ==> (r matches Err(error) && error is Sqlite)
                &&& r matches Ok(jobs) ==> (found matches Ok(rows) && jobs@.len() == rows@.len())
            },
{
    let found = choose|found: Result<Vec<JobRow>, DatabaseFailure>| #[trigger]
        listed_jobs(
            *store,
            state,
            after,
            limit,
            found,
            r,
        );
    assert(ran_visible_jobs(
        store.connection.state(),
        state_asked_for(state),
        place_asked_for(after),
        limit as i64,
        found,
    ));
    assert(loaded_jobs(found, r));
}

/// Runs are asked for of the job that was asked for, up to the number that was asked for.
pub proof fn lemma_history_asks_for_what_was_asked<D: Database>(
    store: &JobStore<D>,
    job_id: Option<JobId>,
    limit: usize,
    r: Result<Vec<Run>, StoreError>,
)
    requires
        call_ensures(JobStore::<D>::recent_runs, (store, job_id, limit), r),
        limit <= 1000,
    ensures
        exists|found: Result<Vec<RunRow>, DatabaseFailure>|
            {
                &&& #[trigger] ran_completed_runs(
                    store.connection.state(),
                    job_asked_for(job_id),
                    limit as i64,
                    found,
                )
                &&& loaded_runs(found, r)
            },
{
}

/// A prefix is looked for as it is written in identifiers, in small letters and over its whole length.
pub proof fn lemma_prefixes_are_looked_for_in_small_letters<D: Database>(
    store: &JobStore<D>,
    prefix: &str,
    limit: usize,
    r: Result<Vec<Job>, StoreError>,
)
    requires
        call_ensures(JobStore::<D>::jobs_by_prefix, (store, prefix, limit), r),
        limit <= 1000,
        prefix@.len() <= 26,
        is_ascii_chars(prefix@),
    ensures
        exists|found: Result<Vec<JobRow>, DatabaseFailure>, lower: Seq<char>|
            {
                &&& #[trigger] ran_visible_jobs_by_prefix(
                    store.connection.state(),
                    lower,
                    prefix@.len() as i64,
                    limit as i64,
                    found,
                )
                &&& lower.len() == prefix@.len()
                &&& forall|i: int|
                    0 <= i < lower.len() ==> if 'A' <= prefix@[i] <= 'Z' {
                        (#[trigger] lower[i]) as u32 == prefix@[i] as u32 + 32
                    } else {
                        lower[i] == prefix@[i]
                    }
            },
{
    let lower = ascii_lower(prefix@);
    assert forall|i: int| 0 <= i < lower.len() implies if 'A' <= prefix@[i] <= 'Z' {
        (#[trigger] lower[i]) as u32 == prefix@[i] as u32 + 32
    } else {
        lower[i] == prefix@[i]
    } by {
        lemma_small_letter(prefix@[i]);
    }
    assert(is_ascii_chars(lower)) by {
        assert forall|i: int| 0 <= i < lower.len() implies '\0' <= #[trigger] lower[i]
            <= '\u{7f}' by {
            lemma_small_letter(prefix@[i]);
            assert('\0' <= prefix@[i] <= '\u{7f}');
        }
    }
    is_ascii_chars_encode_utf8(lower);
    assert(utf8_len(lower) == prefix@.len());
}

proof fn lemma_small_letter(c: char)
    ensures
        ascii_lower(seq![c])[0] as u32 == if 'A' <= c <= 'Z' {
            c as u32 + 32
        } else {
            c as u32 as int
        },
        !('A' <= c <= 'Z') ==> ascii_lower(seq![c])[0] == c,
{
}

/// A stored run is marked as started only by the holder of its token, from its first state, and with
/// what is needed to find its processes and its logs again.
pub proof fn lemma_only_the_holder_starts_a_run(
    found: Option<Run>,
    token: ClaimToken,
    started: UtcTimestamp,
    monitor: ProcessIdentitySnapshot,
    command: ProcessIdentitySnapshot,
    stdout_path: &str,
    stderr_path: &str,
    r: Result<Run, StoreError>,
)
    requires
        call_ensures(
            mark_found,
            (found, token, started, monitor, command, stdout_path, stderr_path),
            r,
        ),
    ensures
        found is None ==> (r matches Err(error) && error is NotFound),
        found matches Some(run) ==> run@.claim_token != token@ ==> (r matches Err(error) && error
            is InvalidClaim),
        r is Ok <==> (found matches Some(run) && run@.claim_token == token@ && run@.state
            == RunState::Starting && started@ >= run@.created_at_utc@ && names_a_process(monitor)
            && names_a_process(command) && stays_below(stdout_path@) && stays_below(stderr_path@)),
        r matches Ok(run) ==> {
            &&& run@.state == RunState::Running && run@.started_at_utc == Some(started)
            &&& run@.command_identity == Some(command@) && run@.monitor_identity == Some(monitor@)
            &&& run@.stdout_path == Some(stdout_path@) && run@.stderr_path == Some(stderr_path@)
            &&& run@.id == found->0@.id && run@.job_id == found->0@.job_id
        },
{
}

/// The end of a run is stored in the column of its kind, and in no other.
pub proof fn lemma_ends_are_stored_by_kind(
    finished: UtcTimestamp,
    state: RunState,
    outcome: &RunOutcome,
    r: FinishColumns,
)
    requires
        call_ensures(finish_columns, (finished, state, outcome), r),
    ensures
        r.finished_at_utc@ == timestamp_text(finished@),
        r.outcome@ == outcome@,
        match *outcome {
            RunOutcome::Exit(code) => r.exit_code == Some(code) && r.terminating_signal is None
                && r.failure is None,
            RunOutcome::Signal(signal) => r.exit_code is None && r.terminating_signal == Some(
                signal,
            ) && r.failure is None,
            RunOutcome::Failure(reason)
            | RunOutcome::Interrupted(reason)
            | RunOutcome::Cancelled(reason) => r.exit_code is None && r.terminating_signal is None
                && (r.failure matches Some(text) && text@ == reason@),
        },
{
}

/// States, tiers and policies are stored under these names.
pub proof fn lemma_stored_names(
    job: JobState,
    job_name: &'static str,
    run: RunState,
    run_name: &'static str,
    tier: RuntimeTier,
    tier_name: &'static str,
    policy: MissedPolicy,
    policy_name: &'static str,
)
    requires
        call_ensures(encode_job_state, (job,), job_name),
        call_ensures(encode_run_state, (run,), run_name),
        call_ensures(encode_tier, (tier,), tier_name),
        call_ensures(encode_policy, (policy,), policy_name),
    ensures
        job == JobState::Scheduled ==> job_name@ == "scheduled"@,
        job == JobState::Waiting ==> job_name@ == "waiting"@,
        job == JobState::Starting ==> job_name@ == "starting"@,
        job == JobState::Running ==> job_name@ == "running"@,
        job == JobState::CancelRequested ==> job_name@ == "cancel_requested"@,
        job == JobState::Succeeded ==> job_name@ == "succeeded"@,
        job == JobState::Failed ==> job_name@ == "failed"@,
        job == JobState::Cancelled ==> job_name@ == "cancelled"@,
        job == JobState::Interrupted ==> job_name@ == "interrupted"@,
        job == JobState::Missed ==> job_name@ == "missed"@,
        run == RunState::Starting ==> run_name@ == "starting"@,
        run == RunState::Running ==> run_name@ == "running"@,
        run == RunState::CancelRequested ==> run_name@ == "cancel_requested"@,
        run == RunState::Succeeded ==> run_name@ == "succeeded"@,
        run == RunState::Failed ==> run_name@ == "failed"@,
        run == RunState::Cancelled ==> run_name@ == "cancelled"@,
        run == RunState::Interrupted ==> run_name@ == "interrupted"@,
        tier == RuntimeTier::Session ==> tier_name@ == "session"@,
        tier == RuntimeTier::Durable ==> tier_name@ == "durable"@,
        policy == MissedPolicy::Hold ==> policy_name@ == "hold"@,
        policy == MissedPolicy::RunLatest ==> policy_name@ == "run_latest"@,
        policy == MissedPolicy::Skip ==> policy_name@ == "skip"@,
{
}

/// What was cut off of the output of a run is recorded under its claim, for each stream by itself.
pub proof fn lemma_truncation_is_recorded<D: Database>(
    before: JobStore<D>,
    after: JobStore<D>,
    run: RunId,
    token: ClaimToken,
    stdout: bool,
    stderr: bool,
    r: Result<(), StoreError>,
)
    requires
        exists|at: &mut JobStore<D>|
            {
                &&& #[trigger] call_ensures(
                    JobStore::<D>::record_log_truncation,
                    (at, run, token, stdout, stderr),
                    r,
                )
                &&& *at == before
                &&& *final(at) == after
            },
    ensures
        exists|answer: Result<usize, DatabaseFailure>|
            {
                &&& after.connection.ran(
                    before.connection,
                    seq![#[trigger] truncating(run, token, stdout, stderr, answer)],
                )
                &&& r is Ok <==> answer == Ok::<usize, DatabaseFailure>(1)
            },
{
    let answer = choose|answer: Result<usize, DatabaseFailure>|
        {
            &&& #[trigger] one_row(answer, StoreFault::InvalidClaim, r)
            &&& after.connection.ran(
                before.connection,
                seq![(Statement::SetTruncation {
                    run_id: id_text(run@),
                    token,
                    stdout_truncated: stdout,
                    stderr_truncated: stderr,
                    answer,
                })],
            )
        };
    assert(after.connection.ran(
        before.connection,
        seq![truncating(run, token, stdout, stderr, answer)],
    ));
}

/// The statement that records what was cut off.
pub open spec fn truncating(
    run: RunId,
    token: ClaimToken,
    stdout: bool,
    stderr: bool,
    answer: Result<usize, DatabaseFailure>,
) -> Statement {
    Statement::SetTruncation {
        run_id: id_text(run@),
        token,
        stdout_truncated: stdout,
        stderr_truncated: stderr,
        answer,
    }
}

/// A new job is stored with all of its fields; one that exists is not replaced.
pub proof fn lemma_new_jobs_are_inserted<D: Database>(
    before: JobStore<D>,
    after: JobStore<D>,
    job: &Job,
    r: Result<(), StoreError>,
)
    requires
        exists|at: &mut JobStore<D>|
            {
                &&& #[trigger] call_ensures(JobStore::<D>::create, (at, job), r)
                &&& *at == before
                &&& *final(at) == after
            },
        job@.revision@ <= i64::MAX,
    ensures
        exists|row: JobRow, answer: Result<usize, DatabaseFailure>|
            {
                &&& #[trigger] stores_job(row, job@)
                &&& after.connection.ran(
                    before.connection,
                    seq![#[trigger] inserting(row, answer)],
                )
                &&& r is Ok <==> answer == Ok::<usize, DatabaseFailure>(1)
                &&& answer matches Err(DatabaseFailure::Constraint(_)) ==> (r matches Err(error)
                    && error is AlreadyExists)
            },
{
    let (row, answer) = choose|row: JobRow, answer: Result<usize, DatabaseFailure>|
        {
            &&& #[trigger] stores_job(row, job@)
            &&& #[trigger] job_inserted(answer, r)
            &&& after.connection.ran(
                before.connection,
                seq![(Statement::InsertJob { job: row, answer })],
            )
        };
    assert(stores_job(row, job@));
    assert(after.connection.ran(before.connection, seq![inserting(row, answer)]));
}

/// The statement that stores a new job.
pub open spec fn inserting(row: JobRow, answer: Result<usize, DatabaseFailure>) -> Statement {
    Statement::InsertJob { job: row, answer }
}

/// The row of a job holds each of its fields in the column of that name.
pub proof fn lemma_job_columns(job: &Job, row: JobRow)
    requires
        call_ensures(encode_job, (job,), Ok::<JobRow, StoreError>(row)),
    ensures
        row.id@ == id_text(job@.id@),
        row.revision == job@.revision@,
        row.state@ == job_state_name(job@.state),
        timestamp_of_text(row.created_at_utc@) == Some(job@.created_at_utc@),
        timestamp_of_text(row.updated_at_utc@) == Some(job@.updated_at_utc@),
        timestamp_of_text(row.next_due_utc@) == Some(job@.next_due_utc@),
        row.owner_uid == job@.owner_uid,
{
}

// ---------------------------------------------------------------------------------------------
// Changes of runs
// ---------------------------------------------------------------------------------------------
/// A claim is made only after the database said that the deadline has no run yet, and its run comes after
/// the last one of the job.
pub proof fn lemma_claims_follow_the_last_run<D: Database>(
    before: JobStore<D>,
    after: JobStore<D>,
    job_id: JobId,
    scheduled: UtcTimestamp,
    created: UtcTimestamp,
    run: Run,
)
    requires
        exists|at: &mut JobStore<D>|
            {
                &&& #[trigger] call_ensures(
                    JobStore::<D>::claim_run,
                    (at, job_id, scheduled, created),
                    Ok::<Run, StoreError>(run),
                )
                &&& *at == before
                &&& *final(at) == after
            },
    ensures
        exists|opened: Connection<D>, last: i64|
            {
                &&& #[trigger] ran_has_run(
                    opened.state(),
                    id_text(job_id@),
                    timestamp_text(scheduled@),
                    Ok::<bool, DatabaseFailure>(false),
                )
                &&& #[trigger] ran_last_sequence(
                    opened.state(),
                    id_text(job_id@),
                    Ok::<i64, DatabaseFailure>(last),
                )
                &&& run@.sequence@ == last + 1
            },
{
    let r = Ok::<Run, StoreError>(run);
    let (transaction, model, answers) = choose|
        transaction: Transaction<D, Run>,
        model: RunModel,
        answers: ClaimAnswers,
    | #[trigger]
        claim_outcome(
            before,
            after,
            job_id,
            scheduled,
            created,
            transaction,
            model,
            answers,
            r,
        );
    let opened = transaction.opened;
    let last = answers.last->Ok_0;
    assert(answers.last == Ok::<i64, DatabaseFailure>(last));
    assert(ran_has_run(
        opened.state(),
        id_text(job_id@),
        timestamp_text(scheduled@),
        Ok::<bool, DatabaseFailure>(false),
    ));
    assert(ran_last_sequence(
        opened.state(),
        id_text(job_id@),
        Ok::<i64, DatabaseFailure>(last),
    ));
}

/// The end of a run is written under its claim, or was written just so before.
pub proof fn lemma_recorded_end_is_the_one_given<D: Database>(
    before: JobStore<D>,
    after: JobStore<D>,
    id: RunId,
    token: ClaimToken,
    finished: UtcTimestamp,
    outcome: RunOutcome,
    r: Result<Run, StoreError>,
)
    requires
        exists|at: &mut JobStore<D>|
            {
                &&& #[trigger] call_ensures(
                    JobStore::<D>::record_run_terminal,
                    (at, id, token, finished, outcome),
                    r,
                )
                &&& *at == before
                &&& *final(at) == after
            },
    ensures
        r matches Ok(run) ==> {
            &&& run@.claim_token == token@
            &&& run@.finished_at_utc == Some(finished)
            &&& run@.outcome == Some(outcome@)
            &&& ended(run@.state)
        },
        after.connection == before.connection || exists|
            columns: FinishColumns,
            answer: Result<usize, DatabaseFailure>,
        |
            {
                &&& after.connection.ran(
                    before.connection,
                    seq![#[trigger] finishing(id, token, columns, answer)],
                )
                &&& columns.finished_at_utc@ == timestamp_text(finished@)
                &&& columns.outcome@ == outcome@
                &&& r is Ok <==> answer == Ok::<usize, DatabaseFailure>(1)
            },
{
    let answers = choose|answers: RunAnswers| #[trigger]
        finish_outcome(
            before.connection,
            after.connection,
            id,
            token,
            finished,
            outcome@,
            answers,
            r,
        );
    if after.connection != before.connection {
        let found = answers.loaded->Ok_0->0@;
        let columns = choose|columns: FinishColumns|
            {
                &&& #[trigger] tells_end(
                    columns,
                    finished,
                    state_of_outcome(outcome@),
                    outcome@,
                )
                &&& after.connection.ran(
                    before.connection,
                    seq![
                        Statement::FinishRun {
                            id: id_text(id@),
                            token,
                            ending: columns,
                            answer: answers.changed,
                        },
                    ],
                )
            };
        assert(after.connection.ran(
            before.connection,
            seq![finishing(id, token, columns, answers.changed)],
        ));
    }
}

/// The statement that ends a run.
pub open spec fn finishing(
    id: RunId,
    token: ClaimToken,
    columns: FinishColumns,
    answer: Result<usize, DatabaseFailure>,
) -> Statement {
    Statement::FinishRun { id: id_text(id@), token, ending: columns, answer }
}

/// A cancellation that was asked for of a stored run leaves it so, unless it had ended.
pub proof fn lemma_stored_cancellation_is_asked_for<D: Database>(
    before: JobStore<D>,
    after: JobStore<D>,
    id: RunId,
    token: ClaimToken,
    run: Run,
)
    requires
        exists|at: &mut JobStore<D>|
            {
                &&& #[trigger] call_ensures(
                    JobStore::<D>::request_run_cancellation,
                    (at, id, token),
                    Ok::<Run, StoreError>(run),
                )
                &&& *at == before
                &&& *final(at) == after
            },
    ensures
        run@.claim_token == token@,
        run@.state == RunState::CancelRequested || ended(run@.state),
{
}

/// A page holds between one and a hundred jobs.
pub proof fn lemma_pages_are_bounded<D: Database>(
    store: &JobStore<D>,
    after: Option<JobId>,
    limit: usize,
    r: Result<Vec<Job>, StoreError>,
)
    requires
        call_ensures(JobStore::<D>::list, (store, after, limit), r),
    ensures
        !(1 <= limit <= 100) ==> (r matches Err(error) && error is InvalidPageSize),
        1 <= limit <= 100 ==> exists|found: Result<Vec<JobRow>, DatabaseFailure>|
            #[trigger] ran_page_jobs(
                store.connection.state(),
                job_asked_for(after),
                limit as i64,
                found,
            ) && loaded_jobs(found, r),
{
    if 1 <= limit <= 100 {
        let found = choose|found: Result<Vec<JobRow>, DatabaseFailure>|
            {
                &&& #[trigger] ran_page_jobs(
                    store.connection.state(),
                    id_given(after),
                    limit as i64,
                    found,
                )
                &&& loaded_jobs(found, r)
            };
        assert(ran_page_jobs(
            store.connection.state(),
            job_asked_for(after),
            limit as i64,
            found,
        ));
    }
}

/// The cleanup of a restart keeps to the policy of the store.
pub proof fn lemma_restart_cleans_up_by_its_policy<D: Database>(
    before: StartupStore<D>,
    after: StartupStore<D>,
    now: UtcTimestamp,
    r: Result<(), RecoveryStoreError>,
)
    requires
        exists|at: &mut StartupStore<D>|
            {
                &&& #[trigger] call_ensures(
                    StartupStore::<D>::cleanup_recovery,
                    (at, now),
                    r,
                )
                &&& *at == before
                &&& *final(at) == after
            },
    ensures
        after.retention_policy == before.retention_policy,
        exists|
            transaction: Transaction<D, RetentionReport>,
            answers: CleanupAnswers,
            stored: Result<RetentionReport, StoreError>,
        |
            {
                &&& #[trigger] cleanup_outcome(
                    before.store,
                    after.store,
                    now,
                    before.retention_policy,
                    transaction,
                    answers,
                    stored,
                )
                &&& r is Ok <==> stored is Ok
            },
{
}

/// The statement that makes a job wait again.
pub open spec fn requeueing(
    job_id: JobId,
    expected: Revision,
    from: Seq<char>,
    now: UtcTimestamp,
    answer: Result<usize, DatabaseFailure>,
) -> Statement {
    Statement::RequeueJob {
        id: id_text(job_id@),
        expected_revision: expected@ as i64,
        from_state: from,
        revision: (expected@ + 1) as i64,
        now: timestamp_text(now@),
        answer,
    }
}

/// A job that is run again waits at its next revision, on the condition that it still has the expected one,
/// and that the user asked for it is recorded; one that fails before that keeps nothing.
pub proof fn lemma_requeued_jobs_are_recorded<D: Database>(
    before: JobStore<D>,
    after: JobStore<D>,
    job_id: JobId,
    expected: Revision,
    now: UtcTimestamp,
    job: Job,
)
    requires
        exists|at: &mut JobStore<D>|
            {
                &&& #[trigger] call_ensures(
                    JobStore::<D>::requeue_job,
                    (at, job_id, expected, now),
                    Ok::<Job, StoreError>(job),
                )
                &&& *at == before
                &&& *final(at) == after
            },
    ensures
        exists|
            statements: Seq<Statement>,
            from: Seq<char>,
            updated: Result<usize, DatabaseFailure>,
            row: TransitionRow,
            recorded: Result<usize, DatabaseFailure>,
        |
            {
                &&& #[trigger] after.connection.ran(before.connection, statements)
                &&& kept(statements, None) == seq![
                    #[trigger] requeueing(job_id, expected, from, now, updated),
                    #[trigger] recording(row, recorded),
                ]
                &&& row.job_id@ == id_text(job_id@)
                &&& row.from_state@ == from && row.to_state@ == "waiting"@
                &&& row.actor@ == "cli"@ && row.reason@ == "explicit rerun requested"@
                &&& row.occurred_at_utc@ == timestamp_text(now@)
                &&& row.revision == expected@ + 1
            },
{
    let r = Ok::<Job, StoreError>(job);
    let (transaction, answers, done) = choose|
        transaction: Transaction<D, ()>,
        answers: RequeueAnswers,
        done: Result<(), StoreError>,
    | #[trigger]
        requeue_outcome(before, after, job_id, expected, now, transaction, answers, done, r);
    lemma_requeueing_is_all_or_nothing(
        before,
        after,
        job_id,
        expected,
        now,
        transaction,
        answers,
        done,
        r,
    );
    let statements = choose|statements: Seq<Statement>|
        {
            &&& #[trigger] after.connection.ran(before.connection, statements)
            &&& exists|row: TransitionRow, state: Seq<char>|
                {
                    &&& #[trigger] records_rerun(row, job_id, state, now, expected@ + 1)
                    &&& kept(statements, None) == seq![
                        requeue_statement(job_id, expected, state, now, answers),
                        Statement::InsertTransition { row, answer: answers.recorded },
                    ]
                }
        };
    let (row, state) = choose|row: TransitionRow, state: Seq<char>|
        {
            &&& #[trigger] records_rerun(row, job_id, state, now, expected@ + 1)
            &&& kept(statements, None) == seq![
                requeue_statement(job_id, expected, state, now, answers),
                Statement::InsertTransition { row, answer: answers.recorded },
            ]
        };
    assert(requeueing(job_id, expected, state, now, answers.updated) == requeue_statement(
        job_id,
        expected,
        state,
        now,
        answers,
    ));
    assert(recording(row, answers.recorded) == (Statement::InsertTransition {
        row,
        answer: answers.recorded,
    }));
}

} // verus!
