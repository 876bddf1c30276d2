//! Startup recovery.
use std::collections::HashMap;

use vstd::prelude::*;

use super::connection::{lemma_ran_both, lemma_ran_nothing, Connection, Statement};
use super::database::{
    answered, changed_one, one_row, store_message, write_fault, written, DatabaseFailure,
    StoreError, StoreFault,
};
use super::job_row::{corrupt, revision_i64, stores_time, JobRow};
use super::job_store::{loaded_jobs, read_jobs, JobStore};
use super::names::{
    decode_job_state, encode_job_state, job_state_name, job_state_named, lemma_names_read_back,
};
use super::retention::{
    cleanup_outcome, CleanupAnswers, RetentionPolicy, RetentionReport,
};
use super::run_row::{finish_columns, FinishColumns, RunRow};
use super::run_store::{loaded_runs, read_runs};
use super::statements::{ran_active_runs, ran_job_state_at, ran_unfinished_jobs};
use super::tables::{
    ends_run, is_time, legal_move, next_in_column, records_legal_move, Database, TransitionRow,
};
use super::transaction::{
    kept, lemma_transaction_is_all_or_nothing, only_writes, settled, settlement, Transaction,
};
use crate::application::reconcile::{
    CommandFate, RecoveryAction, RecoveryRecord, RecoveryStore, RecoveryStoreError,
};
use crate::domain::execution::optional_text;
use crate::domain::id::{id_text, JobId, RunId};
use crate::domain::job::Job;
use crate::domain::primitives::{primitive_message, PrimitiveError, Revision, UtcTimestamp};
use crate::domain::run::{ClaimToken, OutcomeModel, Run, RunOutcome};
use crate::domain::schedule::{MissedPolicy, RuntimeTier};
use crate::domain::state::{JobState, RunState};
use crate::domain::transition::{job_legal, valid_reason};
use crate::outside::timestamp_text;
use crate::text::copy_text;

verus! {

broadcast use {vstd::std_specs::hash::group_hash_axioms, vstd::seq::group_seq_axioms};

/// The largest number of jobs or runs that are recovered.
pub const MAX_RECOVERY_RECORDS: usize = 100_000;

// ---------------------------------------------------------------------------------------------
// Jobs with their runs
// ---------------------------------------------------------------------------------------------
/// An earlier run belongs to the same job.
pub open spec fn repeats(runs: Seq<Run>, index: int) -> bool {
    exists|j: int| 0 <= j < index && (#[trigger] runs[j])@.job_id@ == runs[index]@.job_id@
}

/// What is wrong with a run among the active runs, if anything.
pub open spec fn run_stop(runs: Seq<Run>, index: int) -> Option<Seq<char>> {
    if repeats(runs, index) {
        Some("job has more than one active run"@)
    } else if index >= MAX_RECOVERY_RECORDS {
        Some("too many active runs to reconcile"@)
    } else {
        None
    }
}

/// Nothing is wrong with the runs before the index.
pub open spec fn fine_before(runs: Seq<Run>, index: int) -> bool {
    forall|j: int| 0 <= j < index ==> #[trigger] run_stop(runs, j) is None
}

/// Some job has the number.
pub open spec fn has_job(jobs: Seq<Job>, number: u128) -> bool {
    exists|k: int| 0 <= k < jobs.len() && (#[trigger] jobs[k])@.id@ == number
}

/// Some run belongs to the job with the number.
pub open spec fn has_run_of(runs: Seq<Run>, number: u128) -> bool {
    exists|i: int| 0 <= i < runs.len() && (#[trigger] runs[i])@.job_id@ == number
}

/// The run is that of the job at the index, if it has one. Should a job occur twice, its first
/// occurrence gets the run.
pub open spec fn is_run_of(runs: Seq<Run>, jobs: Seq<Job>, index: int, active: Option<Run>) -> bool {
    let number = jobs[index]@.id@;
    let first = !has_job(jobs.take(index), number);
    match active {
        Some(run) => first && runs.contains(run) && run@.job_id@ == number,
        None => !first || !has_run_of(runs, number),
    }
}

/// The records are the jobs with their runs.
pub open spec fn joined_records(runs: Seq<Run>, jobs: Seq<Job>, records: Seq<RecoveryRecord>) -> bool {
    &&& records.len() == jobs.len()
    &&& forall|k: int|
        0 <= k < records.len() ==> (#[trigger] records[k]).job == jobs[k] && is_run_of(
            runs,
            jobs,
            k,
            records[k].active_run,
        )
}

/// The result is what the active runs and the unfinished jobs give: every run belongs to one of the
/// jobs, and no two to the same.
pub open spec fn join_outcome(
    runs: Seq<Run>,
    jobs: Seq<Job>,
    r: Result<Vec<RecoveryRecord>, StoreError>,
) -> bool {
    if !fine_before(runs, runs.len() as int) {
        exists|i: int|
            {
                &&& 0 <= i < runs.len()
                &&& fine_before(runs, i)
                &&& #[trigger] run_stop(runs, i) matches Some(fault) && corrupt(r, fault)
            }
    } else if jobs.len() > MAX_RECOVERY_RECORDS {
        corrupt(r, "too many jobs to reconcile"@)
    } else if exists|i: int|
        0 <= i < runs.len() && !has_job(jobs, (#[trigger] runs[i])@.job_id@) {
        corrupt(r, "active run belongs to a terminal or missing job"@)
    } else {
        r matches Ok(records) && joined_records(runs, jobs, records@)
    }
}

/// The map holds each of the runs before the index under the number of its job.
spec fn indexes(map: Map<u128, Run>, runs: Seq<Run>, index: int) -> bool {
    &&& forall|i: int|
        0 <= i < index ==> map.contains_key((#[trigger] runs[i])@.job_id@)
            && map[runs[i]@.job_id@] == runs[i]
    &&& forall|number: u128| #[trigger]
        map.contains_key(number) ==> exists|i: int|
            0 <= i < index && (#[trigger] runs[i])@.job_id@ == number
}

fn index_runs(runs: Vec<Run>) -> (r: Result<HashMap<u128, Run>, StoreError>)
    ensures
        match r {
            Ok(map) => fine_before(runs@, runs@.len() as int) && indexes(
                map@,
                runs@,
                runs@.len() as int,
            ) && map@.len() == runs@.len(),
            Err(error) => exists|i: int|
                {
                    &&& 0 <= i < runs@.len()
                    &&& fine_before(runs@, i)
                    &&& #[trigger] run_stop(runs@, i) matches Some(fault) && error@
                        == StoreFault::Corrupt(fault)
                },
        },
{
    let ghost all = runs@;
    let mut map: HashMap<u128, Run> = HashMap::new();
    let ghost mut seen: int = 0;
    for run in iter: runs
        invariant
            iter.seq() == all,
            seen == iter.index(),
            fine_before(all, seen),
            indexes(map@, all, seen),
            map@.len() == seen,
            map@.dom().finite(),
    {
        assert(run == all[seen]);
        let ghost before = map@;
        let number: u128 = run.job_id().as_u128();
        let replaced: Option<Run> = map.insert(number, run);
        proof {
            assert(before.contains_key(number) == repeats(all, seen)) by {
                if before.contains_key(number) {
                    let i = choose|i: int|
                        0 <= i < seen && (#[trigger] all[i])@.job_id@ == number;
                    assert(all[i]@.job_id@ == all[seen]@.job_id@);
                }
                if repeats(all, seen) {
                    let j = choose|j: int|
                        0 <= j < seen && (#[trigger] all[j])@.job_id@ == all[seen]@.job_id@;
                    assert(before.contains_key(all[j]@.job_id@));
                }
            }
        }
        if replaced.is_some() {
            assert(run_stop(all, seen) == Some("job has more than one active run"@));
            return Err(StoreError::Corrupt("job has more than one active run".to_owned()));
        }
        if map.len() > MAX_RECOVERY_RECORDS {
            assert(run_stop(all, seen) == Some("too many active runs to reconcile"@));
            return Err(StoreError::Corrupt("too many active runs to reconcile".to_owned()));
        }
        proof {
            assert forall|key: u128| #[trigger] map@.contains_key(key) implies exists|i: int|
                0 <= i < seen + 1 && (#[trigger] all[i])@.job_id@ == key by {
                if key == number {
                    assert(all[seen]@.job_id@ == key);
                } else {
                    assert(before.contains_key(key));
                }
            }
            assert forall|i: int| 0 <= i < seen + 1 implies map@.contains_key(
                (#[trigger] all[i])@.job_id@,
            ) && map@[all[i]@.job_id@] == all[i] by {
                if i < seen {
                    assert(before.contains_key(all[i]@.job_id@));
                }
            }
            assert(fine_before(all, seen + 1));
            seen = seen + 1;
        }
    }
    Ok(map)
}

/// Joins the active runs with the unfinished jobs.
pub fn join_records(runs: Vec<Run>, jobs: Vec<Job>) -> (r: Result<Vec<RecoveryRecord>, StoreError>)
    ensures
        join_outcome(runs@, jobs@, r),
{
    let ghost all_runs = runs@;
    let mut active: HashMap<u128, Run> = match index_runs(runs) {
        Ok(map) => map,
        Err(error) => {
            return Err(error);
        },
    };
    let ghost index = active@;
    let ghost all_jobs = jobs@;
    let mut records: Vec<RecoveryRecord> = Vec::new();
    let ghost mut seen: int = 0;
    proof {
        assert forall|number: u128| #[trigger] index.contains_key(number) implies active@.contains_key(
            number,
        ) == (index.contains_key(number) && !has_job(all_jobs.take(0), number)) by {}
    }
    for job in iter: jobs
        invariant
            all_runs == runs@,
            iter.seq() == all_jobs,
            seen == iter.index(),
            seen == records@.len(),
            seen <= MAX_RECOVERY_RECORDS,
            indexes(index, all_runs, all_runs.len() as int),
            fine_before(all_runs, all_runs.len() as int),
            forall|number: u128| #[trigger]
                active@.contains_key(number) == (index.contains_key(number) && !has_job(
                    all_jobs.take(seen),
                    number,
                )),
            forall|number: u128| #[trigger]
                active@.contains_key(number) ==> active@[number] == index[number],
            forall|k: int|
                0 <= k < records@.len() ==> (#[trigger] records@[k]).job == all_jobs[k]
                    && is_run_of(all_runs, all_jobs, k, records@[k].active_run),
    {
        assert(job == all_jobs[seen]);
        let number: u128 = job.id().as_u128();
        let ghost before = active@;
        let active_run: Option<Run> = active.remove(&number);
        proof {
            lemma_has_job_push(all_jobs, seen);
            if active_run is Some {
                let run = active_run->0;
                assert(before.contains_key(number) && before[number] == run);
                assert(index.contains_key(number));
                let i = choose|i: int|
                    0 <= i < all_runs.len() && (#[trigger] all_runs[i])@.job_id@ == number;
                assert(index[all_runs[i]@.job_id@] == all_runs[i]);
                assert(all_runs.contains(run));
            } else {
                assert(!before.contains_key(number));
                if has_run_of(all_runs, number) {
                    let i = choose|i: int|
                        0 <= i < all_runs.len() && (#[trigger] all_runs[i])@.job_id@ == number;
                    assert(index.contains_key(all_runs[i]@.job_id@));
                }
            }
            assert(is_run_of(all_runs, all_jobs, seen, active_run));
            assert forall|key: u128| #[trigger] active@.contains_key(key) == (index.contains_key(
                key,
            ) && !has_job(all_jobs.take(seen + 1), key)) by {
                assert(before.contains_key(key) == (index.contains_key(key) && !has_job(
                    all_jobs.take(seen),
                    key,
                )));
            }
        }
        records.push(RecoveryRecord { job, active_run });
        if records.len() > MAX_RECOVERY_RECORDS {
            return Err(StoreError::Corrupt("too many jobs to reconcile".to_owned()));
        }
        proof {
            seen = seen + 1;
        }
    }
    assert(all_jobs.take(all_jobs.len() as int) =~= all_jobs);
    if !active.is_empty() {
        proof {
            let number = choose|number: u128| active@.contains_key(number);
            assert(active@.contains_key(number)) by {
                if forall|number: u128| !active@.contains_key(number) {
                    assert(active@ =~= Map::<u128, Run>::empty());
                }
            }
            assert(index.contains_key(number));
            let i = choose|i: int|
                0 <= i < all_runs.len() && (#[trigger] all_runs[i])@.job_id@ == number;
            assert(!has_job(all_jobs, all_runs[i]@.job_id@));
        }
        return Err(StoreError::Corrupt("active run belongs to a terminal or missing job".to_owned()));
    }
    proof {
        assert forall|i: int| 0 <= i < all_runs.len() implies has_job(
            all_jobs,
            (#[trigger] all_runs[i])@.job_id@,
        ) by {
            assert(index.contains_key(all_runs[i]@.job_id@));
            assert(!active@.contains_key(all_runs[i]@.job_id@));
        }
    }
    Ok(records)
}

proof fn lemma_has_job_push(jobs: Seq<Job>, index: int)
    requires
        0 <= index < jobs.len(),
    ensures
        forall|number: u128| #[trigger]
            has_job(jobs.take(index + 1), number) == (has_job(jobs.take(index), number)
                || jobs[index]@.id@ == number),
{
    let head = jobs.take(index);
    let next = jobs.take(index + 1);
    assert forall|number: u128| #[trigger] has_job(next, number) == (has_job(head, number)
        || jobs[index]@.id@ == number) by {
        if has_job(head, number) {
            let k = choose|k: int| 0 <= k < head.len() && (#[trigger] head[k])@.id@ == number;
            assert(next[k]@.id@ == number);
        }
        if jobs[index]@.id@ == number {
            assert(next[index]@.id@ == number);
        }
        if has_job(next, number) {
            let k = choose|k: int| 0 <= k < next.len() && (#[trigger] next[k])@.id@ == number;
            if k < index {
                assert(head[k]@.id@ == number);
            }
        }
    }
}

// ---------------------------------------------------------------------------------------------
// Changes
// ---------------------------------------------------------------------------------------------
/// Why a run and its job were interrupted.
pub open spec fn interruption_text(fate: CommandFate) -> Seq<char> {
    match fate {
        CommandFate::Alive => "run monitor disappeared while command remains alive"@,
        CommandFate::Dead => "run monitor and command are no longer alive"@,
        CommandFate::Changed => "stored process identity no longer matches"@,
        CommandFate::Unknown => "run outcome and process identity are unknown"@,
    }
}

/// Why a run and its job were interrupted.
pub fn interruption_reason(fate: CommandFate) -> (r: &'static str)
    ensures
        r@ == interruption_text(fate),
{
    match fate {
        CommandFate::Alive => "run monitor disappeared while command remains alive",
        CommandFate::Dead => "run monitor and command are no longer alive",
        CommandFate::Changed => "stored process identity no longer matches",
        CommandFate::Unknown => "run outcome and process identity are unknown",
    }
}

/// The revision after another, as a column.
pub fn next_revision(revision: Revision) -> (r: Result<i64, StoreError>)
    ensures
        if revision@ == u64::MAX {
            r matches Err(error) && error@ == StoreFault::Domain(
                primitive_message(PrimitiveError::Overflow { field: "revision" }),
            )
        } else if revision@ + 1 > i64::MAX {
            corrupt(r, "revision exceeds SQLite i64"@)
        } else {
            r matches Ok(next) && next == revision@ + 1
        },
{
    match revision.next() {
        Ok(next) => revision_i64(next),
        Err(error) => Err(StoreError::Domain(error.to_string())),
    }
}

/// Recovery may move a job from one state to the other.
pub open spec fn recoverable(from: JobState, target: JobState) -> bool {
    match target {
        JobState::Interrupted => from == JobState::Starting || from == JobState::Running || from
            == JobState::CancelRequested,
        JobState::Missed => from == JobState::Scheduled || from == JobState::Waiting,
        _ => false,
    }
}

/// Every move that recovery makes is a legal transition, and ends in a state that is done.
pub proof fn lemma_recovery_moves_are_legal(from: JobState, target: JobState, recurring: bool)
    requires
        recoverable(from, target),
    ensures
        job_legal(from, target, recurring),
        target.terminal(),
        !from.terminal(),
{
}

/// Checks that recovery may move a job from its stored state.
pub fn check_recovery(current: Option<String>, target: JobState) -> (r: Result<String, StoreError>)
    ensures
        match current {
            Some(name) => if job_state_named(name@) matches Some(from) && recoverable(
                from,
                target,
            ) {
                r == Ok::<String, StoreError>(name)
            } else {
                r matches Err(error) && error@ == StoreFault::Conflict
            },
            None => r matches Err(error) && error@ == StoreFault::Conflict,
        },
{
    match current {
        Some(name) => {
            let allowed: bool = match (decode_job_state(name.as_str()), target) {
                (Some(JobState::Starting), JobState::Interrupted) => true,
                (Some(JobState::Running), JobState::Interrupted) => true,
                (Some(JobState::CancelRequested), JobState::Interrupted) => true,
                (Some(JobState::Scheduled), JobState::Missed) => true,
                (Some(JobState::Waiting), JobState::Missed) => true,
                _ => false,
            };
            if allowed {
                Ok(name)
            } else {
                Err(StoreError::Conflict)
            }
        },
        None => Err(StoreError::Conflict),
    }
}

/// The row that records a move of recovery.
pub fn recovery_row(
    job_id: JobId,
    current: &str,
    target: JobState,
    now: UtcTimestamp,
    reason: &str,
    revision: i64,
) -> (r: TransitionRow)
    ensures
        r.job_id@ == id_text(job_id@),
        r.from_state@ == current@,
        r.to_state@ == job_state_name(target),
        r.occurred_at_utc@ == timestamp_text(now@),
        r.actor@ == "recovery"@,
        r.reason@ == reason@,
        r.revision == revision,
{
    TransitionRow {
        job_id: job_id.to_string(),
        from_state: copy_text(current),
        to_state: encode_job_state(target).to_owned(),
        occurred_at_utc: now.to_string(),
        actor: "recovery".to_owned(),
        reason: copy_text(reason),
        revision,
    }
}

/// The job that an action changes.
pub open spec fn job_of(action: RecoveryAction) -> JobId {
    match action {
        RecoveryAction::Interrupt { job_id, .. } => job_id,
        RecoveryAction::MarkMissed { job_id, .. } => job_id,
        RecoveryAction::AdvanceRecurring { job_id, .. } => job_id,
    }
}

/// The revision that a job must have for an action to apply.
pub open spec fn action_revision(action: RecoveryAction) -> Revision {
    match action {
        RecoveryAction::Interrupt { expected_revision, .. } => expected_revision,
        RecoveryAction::MarkMissed { expected_revision, .. } => expected_revision,
        RecoveryAction::AdvanceRecurring { expected_revision, .. } => expected_revision,
    }
}

/// A write of recovery.
pub enum RecoveryWrite {
    /// Ends an active run with the claim.
    FinishRun { run_id: String, token: ClaimToken, columns: FinishColumns },
    /// Moves a job with the expected revision and state.
    MoveJob {
        job_id: String,
        expected_revision: i64,
        from: String,
        revision: i64,
        to: &'static str,
        updated_at_utc: String,
    },
    /// Records a move.
    Record(TransitionRow),
    /// Gives a waiting job with the expected revision a later deadline.
    Postpone {
        job_id: String,
        expected_revision: i64,
        revision: i64,
        updated_at_utc: String,
        next_due_utc: String,
    },
}

/// The write ends the run as interrupted, for the reason.
pub open spec fn interrupts_run(
    write: RecoveryWrite,
    run: (RunId, ClaimToken),
    reason: Seq<char>,
    now: UtcTimestamp,
) -> bool {
    write matches RecoveryWrite::FinishRun { run_id, token, columns } && {
        &&& run_id@ == id_text(run.0@)
        &&& token@ == run.1@
        &&& stores_time(columns.finished_at_utc@, now@)
        &&& columns.state@ == "interrupted"@
        &&& columns.exit_code is None
        &&& columns.terminating_signal is None
        &&& optional_text(columns.failure) == Some(reason)
        &&& columns.outcome@ == OutcomeModel::Interrupted(reason)
    }
}

/// The write moves the job to the target and to its next revision.
pub open spec fn moves_job(
    write: RecoveryWrite,
    job_id: JobId,
    expected: Revision,
    from_state: Seq<char>,
    target: JobState,
    now: UtcTimestamp,
) -> bool {
    write matches RecoveryWrite::MoveJob {
        job_id: job,
        expected_revision,
        from,
        revision,
        to,
        updated_at_utc,
    } && {
        &&& job@ == id_text(job_id@)
        &&& expected_revision == expected@
        &&& from@ == from_state
        &&& next_in_column(expected_revision, revision)
        &&& to@ == job_state_name(target)
        &&& updated_at_utc@ == timestamp_text(now@)
    }
}

/// The write records the move.
pub open spec fn records_move(
    write: RecoveryWrite,
    job_id: JobId,
    expected: Revision,
    from_state: Seq<char>,
    target: JobState,
    reason: Seq<char>,
    now: UtcTimestamp,
) -> bool {
    write matches RecoveryWrite::Record(row) && {
        &&& row.job_id@ == id_text(job_id@)
        &&& row.from_state@ == from_state
        &&& row.to_state@ == job_state_name(target)
        &&& row.occurred_at_utc@ == timestamp_text(now@)
        &&& row.actor@ == "recovery"@
        &&& row.reason@ == reason
        &&& row.revision == expected@ + 1
    }
}

/// Why recovery may not move a job in a stored state, if so.
pub open spec fn move_fault(found: Option<Seq<char>>, expected: Revision, target: JobState) -> Option<
    StoreFault,
> {
    if expected@ > i64::MAX {
        Some(StoreFault::Corrupt("revision exceeds SQLite i64"@))
    } else if !(found matches Some(name) && (job_state_named(name) matches Some(from)
        && recoverable(from, target))) {
        Some(StoreFault::Conflict)
    } else if expected@ + 1 > i64::MAX {
        Some(StoreFault::Corrupt("revision exceeds SQLite i64"@))
    } else {
        None
    }
}

/// The writes move the job and record that.
pub open spec fn writes_move(
    writes: Seq<RecoveryWrite>,
    job_id: JobId,
    expected: Revision,
    from_state: Seq<char>,
    target: JobState,
    reason: Seq<char>,
    now: UtcTimestamp,
) -> bool {
    &&& writes.len() == 2
    &&& moves_job(writes[0], job_id, expected, from_state, target, now)
    &&& records_move(writes[1], job_id, expected, from_state, target, reason, now)
}

/// The result is the writes for the job of an action that is in a stored state: every move is
/// recorded, and a postponed job only gets a new deadline.
pub open spec fn action_writes(
    action: RecoveryAction,
    found: Option<Seq<char>>,
    now: UtcTimestamp,
    r: Result<Seq<RecoveryWrite>, StoreFault>,
) -> bool {
    match action {
        RecoveryAction::Interrupt { job_id, expected_revision, command_fate, .. } => match move_fault(
            found,
            expected_revision,
            JobState::Interrupted,
        ) {
            Some(fault) => r == Err::<Seq<RecoveryWrite>, StoreFault>(fault),
            None => r matches Ok(writes) && writes_move(
                writes,
                job_id,
                expected_revision,
                found->0,
                JobState::Interrupted,
                interruption_text(command_fate),
                now,
            ),
        },
        RecoveryAction::MarkMissed { job_id, expected_revision } => match move_fault(
            found,
            expected_revision,
            JobState::Missed,
        ) {
            Some(fault) => r == Err::<Seq<RecoveryWrite>, StoreFault>(fault),
            None => r matches Ok(writes) && writes_move(
                writes,
                job_id,
                expected_revision,
                found->0,
                JobState::Missed,
                "deadline passed while no supervisor owned the job"@,
                now,
            ),
        },
        RecoveryAction::AdvanceRecurring { job_id, expected_revision, next_due_utc } => {
            if expected_revision@ == u64::MAX {
                r == Err::<Seq<RecoveryWrite>, StoreFault>(
                    StoreFault::Domain(
                        primitive_message(PrimitiveError::Overflow { field: "revision" }),
                    ),
                )
            } else if expected_revision@ + 1 > i64::MAX {
                r == Err::<Seq<RecoveryWrite>, StoreFault>(
                    StoreFault::Corrupt("revision exceeds SQLite i64"@),
                )
            } else {
                r matches Ok(writes) && writes.len() == 1 && (writes[0] matches
                    RecoveryWrite::Postpone {
                    job_id: job,
                    expected_revision: expected,
                    revision,
                    updated_at_utc,
                    next_due_utc: due,
                } && {
                    &&& job@ == id_text(job_id@)
                    &&& expected == expected_revision@
                    &&& next_in_column(expected, revision)
                    &&& updated_at_utc@ == timestamp_text(now@)
                    &&& due@ == timestamp_text(next_due_utc@)
                })
            }
        },
    }
}

/// The result with the writes as a sequence and the fault as a model.
pub open spec fn writes_outcome(r: Result<Vec<RecoveryWrite>, StoreError>) -> Result<
    Seq<RecoveryWrite>,
    StoreFault,
> {
    match r {
        Ok(writes) => Ok(writes@),
        Err(error) => Err(error@),
    }
}

fn push_move(
    writes: &mut Vec<RecoveryWrite>,
    job_id: JobId,
    expected_revision: Revision,
    found: Option<String>,
    target: JobState,
    reason: &str,
    now: UtcTimestamp,
) -> (r: Result<(), StoreError>)
    ensures
        match move_fault(optional_text(found), expected_revision, target) {
            Some(fault) => r matches Err(error) && error@ == fault,
            None => {
                &&& r is Ok
                &&& final(writes)@.len() == old(writes)@.len() + 2
                &&& final(writes)@.take(old(writes)@.len() as int) == old(writes)@
                &&& writes_move(
                    final(writes)@.skip(old(writes)@.len() as int),
                    job_id,
                    expected_revision,
                    found->0@,
                    target,
                    reason@,
                    now,
                )
            },
        },
{
    let expected: i64 = match revision_i64(expected_revision) {
        Ok(expected) => expected,
        Err(error) => {
            return Err(error);
        },
    };
    let current: String = match check_recovery(found, target) {
        Ok(current) => current,
        Err(error) => {
            return Err(error);
        },
    };
    let revision: i64 = match next_revision(expected_revision) {
        Ok(revision) => revision,
        Err(error) => {
            return Err(error);
        },
    };
    let row: TransitionRow = recovery_row(
        job_id,
        current.as_str(),
        target,
        now,
        reason,
        revision,
    );
    let ghost before = writes@;
    writes.push(
        RecoveryWrite::MoveJob {
            job_id: job_id.to_string(),
            expected_revision: expected,
            from: current,
            revision,
            to: encode_job_state(target),
            updated_at_utc: now.to_string(),
        },
    );
    writes.push(RecoveryWrite::Record(row));
    assert(writes@.take(before.len() as int) =~= before);
    Ok(())
}

/// The result is the write that ends the run of an action, where it interrupts one.
pub open spec fn ending_write(
    action: RecoveryAction,
    now: UtcTimestamp,
    r: Option<RecoveryWrite>,
) -> bool {
    match action {
        RecoveryAction::Interrupt { run: Some(claimed), command_fate, .. } => r matches Some(write)
            && interrupts_run(write, claimed, interruption_text(command_fate), now),
        _ => r is None,
    }
}

/// The write that ends the run of an action, where it interrupts one.
pub fn run_ending(action: &RecoveryAction, now: UtcTimestamp) -> (r: Option<RecoveryWrite>)
    ensures
        ending_write(*action, now, r),
{
    match action {
        RecoveryAction::Interrupt { run: Some((run_id, claim_token)), command_fate, .. } => {
            let outcome: RunOutcome = RunOutcome::Interrupted(
                interruption_reason(*command_fate).to_owned(),
            );
            Some(
                RecoveryWrite::FinishRun {
                    run_id: run_id.to_string(),
                    token: *claim_token,
                    columns: finish_columns(now, RunState::Interrupted, &outcome),
                },
            )
        },
        _ => None,
    }
}

/// The writes for the job of an action that is in a stored state.
pub fn recovery_writes(action: &RecoveryAction, found: Option<String>, now: UtcTimestamp) -> (r:
    Result<Vec<RecoveryWrite>, StoreError>)
    ensures
        action_writes(*action, optional_text(found), now, writes_outcome(r)),
{
    let mut writes: Vec<RecoveryWrite> = Vec::new();
    match action {
        RecoveryAction::Interrupt { job_id, expected_revision, command_fate, .. } => {
            match push_move(
                &mut writes,
                *job_id,
                *expected_revision,
                found,
                JobState::Interrupted,
                interruption_reason(*command_fate),
                now,
            ) {
                Ok(_) => {
                    assert(writes@.skip(0) =~= writes@);
                    Ok(writes)
                },
                Err(error) => Err(error),
            }
        },
        RecoveryAction::MarkMissed { job_id, expected_revision } => {
            match push_move(
                &mut writes,
                *job_id,
                *expected_revision,
                found,
                JobState::Missed,
                "deadline passed while no supervisor owned the job",
                now,
            ) {
                Ok(_) => {
                    assert(writes@.skip(0) =~= writes@);
                    Ok(writes)
                },
                Err(error) => Err(error),
            }
        },
        RecoveryAction::AdvanceRecurring { job_id, expected_revision, next_due_utc } => {
            let revision: i64 = match next_revision(*expected_revision) {
                Ok(revision) => revision,
                Err(error) => {
                    return Err(error);
                },
            };
            let expected: i64 = match revision_i64(*expected_revision) {
                Ok(expected) => expected,
                Err(error) => {
                    return Err(error);
                },
            };
            writes.push(
                RecoveryWrite::Postpone {
                    job_id: job_id.to_string(),
                    expected_revision: expected,
                    revision,
                    updated_at_utc: now.to_string(),
                    next_due_utc: next_due_utc.to_string(),
                },
            );
            Ok(writes)
        },
    }
}

/// The write may be handed to a database.
pub open spec fn sound_write(write: RecoveryWrite) -> bool {
    match write {
        RecoveryWrite::FinishRun { columns, .. } => ends_run(columns),
        RecoveryWrite::MoveJob { expected_revision, from, revision, to, updated_at_utc, .. } => {
            &&& next_in_column(expected_revision, revision)
            &&& job_state_named(from@) matches Some(before) && (job_state_named(to@) matches Some(
                after,
            ) && legal_move(before, after))
            &&& is_time(updated_at_utc@)
        },
        RecoveryWrite::Record(row) => records_legal_move(row),
        RecoveryWrite::Postpone { expected_revision, revision, updated_at_utc, next_due_utc, .. } => {
            &&& next_in_column(expected_revision, revision)
            &&& is_time(updated_at_utc@)
            &&& is_time(next_due_utc@)
        },
    }
}

/// Every write for a job is sound: its revision grows by one, and it only moves as the rules allow.
pub proof fn lemma_recovery_writes_are_sound(
    action: RecoveryAction,
    found: Option<Seq<char>>,
    now: UtcTimestamp,
    writes: Seq<RecoveryWrite>,
)
    requires
        action_writes(action, found, now, Ok(writes)),
    ensures
        forall|i: int| 0 <= i < writes.len() ==> sound_write(#[trigger] writes[i]),
{
    match action {
        RecoveryAction::Interrupt { job_id, expected_revision, command_fate, .. } => {
            reveal_strlit("run monitor disappeared while command remains alive");
            reveal_strlit("run monitor and command are no longer alive");
            reveal_strlit("stored process identity no longer matches");
            reveal_strlit("run outcome and process identity are unknown");
            lemma_move_is_sound(
                writes,
                job_id,
                expected_revision,
                found->0,
                JobState::Interrupted,
                interruption_text(command_fate),
                now,
            );
        },
        RecoveryAction::MarkMissed { job_id, expected_revision } => {
            reveal_strlit("deadline passed while no supervisor owned the job");
            lemma_move_is_sound(
                writes,
                job_id,
                expected_revision,
                found->0,
                JobState::Missed,
                "deadline passed while no supervisor owned the job"@,
                now,
            );
        },
        RecoveryAction::AdvanceRecurring { next_due_utc, .. } => {
            assert(is_time(timestamp_text(now@)));
            assert(is_time(timestamp_text(next_due_utc@)));
        },
    }
}

/// The write that ends a run is sound.
pub proof fn lemma_run_ending_is_sound(
    action: RecoveryAction,
    now: UtcTimestamp,
    write: RecoveryWrite,
)
    requires
        ending_write(action, now, Some(write)),
    ensures
        sound_write(write),
{
    lemma_names_read_back(
        JobState::Waiting,
        RunState::Interrupted,
        RuntimeTier::Session,
        MissedPolicy::Hold,
    );
    assert(is_time(timestamp_text(now@)));
}

proof fn lemma_move_is_sound(
    writes: Seq<RecoveryWrite>,
    job_id: JobId,
    expected: Revision,
    from_state: Seq<char>,
    target: JobState,
    reason: Seq<char>,
    now: UtcTimestamp,
)
    requires
        writes_move(writes, job_id, expected, from_state, target, reason, now),
        job_state_named(from_state) matches Some(from) && recoverable(from, target),
        valid_reason(reason),
    ensures
        forall|i: int| 0 <= i < writes.len() ==> sound_write(#[trigger] writes[i]),
{
    lemma_names_read_back(target, RunState::Starting, RuntimeTier::Session, MissedPolicy::Hold);
    assert(is_time(timestamp_text(now@)));
    assert(sound_write(writes[0]));
    assert(sound_write(writes[1]));
}

/// The statement that makes a write, with its answer.
pub open spec fn write_statement(
    write: RecoveryWrite,
    answer: Result<usize, DatabaseFailure>,
) -> Statement {
    match write {
        RecoveryWrite::FinishRun { run_id, token, columns } => Statement::FinishRun {
            id: run_id@,
            token,
            ending: columns,
            answer,
        },
        RecoveryWrite::MoveJob { job_id, expected_revision, from, revision, to, updated_at_utc } =>
        Statement::UpdateJobState {
            id: job_id@,
            expected_revision,
            expected_state: Some(from@),
            revision,
            state: to@,
            updated_at_utc: updated_at_utc@,
            answer,
        },
        RecoveryWrite::Record(row) => Statement::InsertTransition { row, answer },
        RecoveryWrite::Postpone {
            job_id,
            expected_revision,
            revision,
            updated_at_utc,
            next_due_utc,
        } => Statement::PostponeJob {
            id: job_id@,
            expected_revision,
            revision,
            updated_at_utc: updated_at_utc@,
            next_due_utc: next_due_utc@,
            answer,
        },
    }
}

/// The statements that make writes, as far as there are answers.
pub open spec fn write_statements(
    writes: Seq<RecoveryWrite>,
    results: Seq<Result<usize, DatabaseFailure>>,
) -> Seq<Statement> {
    Seq::new(results.len(), |i: int| write_statement(writes[i], results[i]))
}

/// The result of a write of recovery, given the answer of the database. Every write but a record
/// has to change one row.
pub open spec fn performed(
    write: RecoveryWrite,
    result: Result<usize, DatabaseFailure>,
    r: Result<(), StoreError>,
) -> bool {
    match write {
        RecoveryWrite::Record(_) => match result {
            Ok(_) => r is Ok,
            Err(failure) => r matches Err(error) && error@ == write_fault(failure),
        },
        _ => one_row(result, StoreFault::Conflict, r),
    }
}

/// The outcome of a write of recovery, given the answer of the database.
pub fn write_outcome(write: &RecoveryWrite, result: Result<usize, DatabaseFailure>) -> (r: Result<
    (),
    StoreError,
>)
    ensures
        performed(*write, result, r),
{
    match write {
        RecoveryWrite::Record(_) => match written(result) {
            Ok(_) => Ok(()),
            Err(error) => Err(error),
        },
        _ => changed_one(result),
    }
}

/// The stored state of the job of an action, given the answer of the database; an action that
/// only postpones a job asks for none.
pub open spec fn looked_up(
    action: RecoveryAction,
    found: Result<Option<String>, DatabaseFailure>,
) -> Result<Option<Seq<char>>, StoreFault> {
    if action is AdvanceRecurring {
        Ok(None)
    } else if action_revision(action)@ > i64::MAX {
        Err(StoreFault::Corrupt("revision exceeds SQLite i64"@))
    } else {
        match found {
            Ok(name) => Ok(optional_text(name)),
            Err(failure) => Err(StoreFault::Sqlite(failure.spec_detail())),
        }
    }
}

/// The stored state of the job of an action was asked for, where it is, with this answer.
pub open spec fn state_asked<D: Database>(
    connection: Connection<D>,
    action: RecoveryAction,
    found: Result<Option<String>, DatabaseFailure>,
) -> bool {
    !(action is AdvanceRecurring) && action_revision(action)@ <= i64::MAX ==> ran_job_state_at(
        connection.state(),
        id_text(job_of(action)@),
        action_revision(action)@ as i64,
        false,
        found,
    )
}

/// The result of a lookup, with the name and the fault as models.
pub open spec fn lookup_of(r: Result<Option<String>, StoreError>) -> Result<
    Option<Seq<char>>,
    StoreFault,
> {
    match r {
        Ok(name) => Ok(optional_text(name)),
        Err(error) => Err(error@),
    }
}

/// The result is what the writes give with the answers, one for each write that was made: the
/// first that fails ends them.
pub open spec fn all_performed(
    writes: Seq<RecoveryWrite>,
    results: Seq<Result<usize, DatabaseFailure>>,
    r: Result<(), StoreError>,
) -> bool {
    match r {
        Ok(_) => {
            &&& results.len() == writes.len()
            &&& forall|i: int|
                0 <= i < writes.len() ==> performed(#[trigger] writes[i], results[i], Ok(()))
        },
        Err(_) => {
            &&& 0 < results.len() <= writes.len()
            &&& forall|i: int|
                0 <= i < results.len() - 1 ==> performed(#[trigger] writes[i], results[i], Ok(()))
            &&& performed(writes[results.len() - 1], results.last(), r)
        },
    }
}

/// What came back while the job of an action was changed: the stored state, the writes that follow
/// from it, and the answers to those that were made.
pub struct MoveAnswers {
    pub found: Result<Option<String>, DatabaseFailure>,
    pub planned: Result<Seq<RecoveryWrite>, StoreFault>,
    pub results: Seq<Result<usize, DatabaseFailure>>,
}

impl MoveAnswers {
    /// The statements that were run.
    pub open spec fn statements(self) -> Seq<Statement> {
        match self.planned {
            Ok(writes) => write_statements(writes, self.results),
            Err(_) => Seq::empty(),
        }
    }
}

/// The result is what changing the job of an action gives with the answers of the database.
pub open spec fn job_moved<D: Database>(
    before: Connection<D>,
    after: Connection<D>,
    action: RecoveryAction,
    now: UtcTimestamp,
    answers: MoveAnswers,
    r: Result<(), StoreError>,
) -> bool {
    &&& state_asked(before, action, answers.found)
    &&& match looked_up(action, answers.found) {
        Err(fault) => {
            &&& after == before
            &&& answers.planned is Err
            &&& r matches Err(error) && error@ == fault
        },
        Ok(stored) => {
            &&& action_writes(action, stored, now, answers.planned)
            &&& match answers.planned {
                Err(fault) => after == before && (r matches Err(error) && error@ == fault),
                Ok(writes) => {
                    &&& after.ran(before, write_statements(writes, answers.results))
                    &&& all_performed(writes, answers.results, r)
                },
            }
        },
    }
}

/// What came back while an action was carried out: the write that ended its run and the answer, where
/// it interrupts one, the connection after that, and what came back while its job was changed.
pub struct ActionAnswers<D> {
    pub ending: Option<(RecoveryWrite, Result<usize, DatabaseFailure>)>,
    pub ended: Connection<D>,
    pub moved: MoveAnswers,
}

impl<D> ActionAnswers<D> {
    /// The run could not be ended: no row was changed.
    pub open spec fn ending_failed(self) -> bool {
        self.ending matches Some((_, result)) && result != Ok::<usize, DatabaseFailure>(1)
    }

    /// The statement that ended the run, where there was one.
    pub open spec fn ending_statements(self) -> Seq<Statement> {
        match self.ending {
            Some((write, result)) => seq![write_statement(write, result)],
            None => Seq::empty(),
        }
    }

    /// The statements that were run.
    pub open spec fn statements(self) -> Seq<Statement> {
        if self.ending_failed() {
            self.ending_statements()
        } else {
            self.ending_statements() + self.moved.statements()
        }
    }
}

/// The result is what an action gives with the answers of the database: its run is ended first, and
/// only then is its job looked at and changed.
pub open spec fn applied<D: Database>(
    before: Connection<D>,
    after: Connection<D>,
    action: RecoveryAction,
    now: UtcTimestamp,
    answers: ActionAnswers<D>,
    r: Result<(), StoreError>,
) -> bool {
    &&& ending_write(
        action,
        now,
        match answers.ending {
            Some((write, _)) => Some(write),
            None => None,
        },
    )
    &&& answers.ending is None ==> answers.ended == before
    &&& answers.ended.ran(before, answers.ending_statements())
    &&& match answers.ending {
        Some((write, result)) if answers.ending_failed() => after == answers.ended && performed(
            write,
            result,
            r,
        ),
        _ => job_moved(answers.ended, after, action, now, answers.moved, r),
    }
}

/// The statements of actions, one action after the other.
pub open spec fn action_statements<D>(answers: Seq<ActionAnswers<D>>) -> Seq<Statement>
    decreases answers.len(),
{
    if answers.len() == 0 {
        Seq::empty()
    } else {
        action_statements(answers.drop_last()) + answers.last().statements()
    }
}

/// The result is what the actions give with the answers, each action on what the one before left:
/// the first that fails ends them. `between` are the connections before, between and after them.
pub open spec fn all_applied<D: Database>(
    before: Connection<D>,
    after: Connection<D>,
    actions: Seq<RecoveryAction>,
    now: UtcTimestamp,
    between: Seq<Connection<D>>,
    answers: Seq<ActionAnswers<D>>,
    r: Result<(), StoreError>,
) -> bool {
    &&& between.len() == answers.len() + 1
    &&& between[0] == before
    &&& between.last() == after
    &&& after.ran(before, action_statements(answers))
    &&& match r {
        Ok(_) => {
            &&& answers.len() == actions.len()
            &&& forall|i: int|
                0 <= i < actions.len() ==> applied(
                    between[i],
                    between[i + 1],
                    #[trigger] actions[i],
                    now,
                    answers[i],
                    Ok(()),
                )
        },
        Err(_) => {
            &&& 0 < answers.len() <= actions.len()
            &&& forall|i: int|
                0 <= i < answers.len() - 1 ==> applied(
                    between[i],
                    between[i + 1],
                    #[trigger] actions[i],
                    now,
                    answers[i],
                    Ok(()),
                )
            &&& applied(
                between[answers.len() - 1],
                between[answers.len() as int],
                actions[answers.len() - 1],
                now,
                answers.last(),
                r,
            )
        },
    }
}

/// The result is what recovery gives with the answers: the actions are carried out in one
/// transaction.
pub open spec fn recovery_outcome<D: Database>(
    before: JobStore<D>,
    after: JobStore<D>,
    actions: Seq<RecoveryAction>,
    now: UtcTimestamp,
    transaction: Transaction<D, ()>,
    between: Seq<Connection<D>>,
    answers: Seq<ActionAnswers<D>>,
    r: Result<(), StoreError>,
) -> bool {
    &&& transaction.carried_out(before.connection, after.connection, r)
    &&& transaction.began is Ok ==> all_applied(
        transaction.opened,
        transaction.closed,
        actions,
        now,
        between,
        answers,
        transaction.outcome,
    )
}

/// The result is what recovery gives with some answers of the database.
pub open spec fn recovery_applied<D: Database>(
    before: JobStore<D>,
    after: JobStore<D>,
    actions: Seq<RecoveryAction>,
    now: UtcTimestamp,
    r: Result<(), StoreError>,
) -> bool {
    exists|
        transaction: Transaction<D, ()>,
        between: Seq<Connection<D>>,
        answers: Seq<ActionAnswers<D>>,
    | #[trigger]
        recovery_outcome(before, after, actions, now, transaction, between, answers, r)
}

/// The statement gave the job of an action its next revision: one row had the expected one.
pub open spec fn raises_revision(statement: Statement, action: RecoveryAction) -> bool {
    match statement {
        Statement::UpdateJobState { id, expected_revision, revision, answer, .. } => {
            &&& id == id_text(job_of(action)@)
            &&& expected_revision == action_revision(action)@
            &&& revision == action_revision(action)@ + 1
            &&& answer == Ok::<usize, DatabaseFailure>(1)
        },
        Statement::PostponeJob { id, expected_revision, revision, answer, .. } => {
            &&& id == id_text(job_of(action)@)
            &&& expected_revision == action_revision(action)@
            &&& revision == action_revision(action)@ + 1
            &&& answer == Ok::<usize, DatabaseFailure>(1)
        },
        _ => false,
    }
}

proof fn lemma_only_writes<D>(answers: Seq<ActionAnswers<D>>)
    ensures
        only_writes(action_statements(answers)),
    decreases answers.len(),
{
    if answers.len() > 0 {
        lemma_only_writes(answers.drop_last());
        let all = action_statements(answers);
        let first = action_statements(answers.drop_last());
        assert forall|i: int| 0 <= i < all.len() implies !(#[trigger] all[i]).is_control() by {
            if i < first.len() {
                assert(all[i] == first[i]);
            } else {
                assert(all[i] == answers.last().statements()[i - first.len()]);
            }
        }
    }
}

/// What was run for an action are its statements.
proof fn lemma_applied_runs_statements<D: Database>(
    before: Connection<D>,
    after: Connection<D>,
    action: RecoveryAction,
    now: UtcTimestamp,
    answers: ActionAnswers<D>,
    r: Result<(), StoreError>,
)
    requires
        applied(before, after, action, now, answers, r),
    ensures
        after.ran(before, answers.statements()),
{
    if !answers.ending_failed() {
        if after == answers.ended {
            lemma_ran_nothing(after);
        }
        lemma_ran_both(
            before,
            answers.ended,
            after,
            answers.ending_statements(),
            answers.moved.statements(),
        );
    }
}

/// An action that succeeded raised the revision of its job.
proof fn lemma_action_raises_revision<D: Database>(
    before: Connection<D>,
    after: Connection<D>,
    action: RecoveryAction,
    now: UtcTimestamp,
    answers: ActionAnswers<D>,
)
    requires
        applied(before, after, action, now, answers, Ok(())),
    ensures
        exists|at: int|
            0 <= at < answers.statements().len() && raises_revision(
                #[trigger] answers.statements()[at],
                action,
            ),
{
    let writes = answers.moved.planned->Ok_0;
    let at = answers.ending_statements().len() as int;
    assert(performed(writes[0], answers.moved.results[0], Ok(())));
    assert(answers.statements()[at] == answers.moved.statements()[0]);
    assert(raises_revision(answers.statements()[at], action));
}

proof fn lemma_statement_is_among<D>(answers: Seq<ActionAnswers<D>>, action: int, at: int)
    requires
        0 <= action < answers.len(),
        0 <= at < answers[action].statements().len(),
    ensures
        exists|place: int|
            0 <= place < action_statements(answers).len() && #[trigger] action_statements(
                answers,
            )[place] == answers[action].statements()[at],
    decreases answers.len(),
{
    let first = action_statements(answers.drop_last());
    let all = action_statements(answers);
    if action == answers.len() - 1 {
        assert(all[first.len() + at] == answers[action].statements()[at]);
    } else {
        lemma_statement_is_among(answers.drop_last(), action, at);
        let place = choose|place: int|
            0 <= place < first.len() && #[trigger] first[place] == answers[action].statements()[at];
        assert(all[place] == first[place]);
    }
}

/// Recovery is atomic. Where it fails, nothing that it wrote is kept, also of the actions before
/// the one that failed. Where it succeeds, every action took effect: what is kept gave the job of
/// each action its next revision.
pub proof fn lemma_recovery_is_atomic<D: Database>(
    before: JobStore<D>,
    after: JobStore<D>,
    actions: Seq<RecoveryAction>,
    now: UtcTimestamp,
    r: Result<(), StoreError>,
)
    requires
        recovery_applied(before, after, actions, now, r),
    ensures
        recovery_keeps(before, after, actions, r),
{
    let (transaction, between, answers) = choose|
        transaction: Transaction<D, ()>,
        between: Seq<Connection<D>>,
        answers: Seq<ActionAnswers<D>>,
    | #[trigger]
        recovery_outcome(before, after, actions, now, transaction, between, answers, r);
    let writes = action_statements(answers);
    lemma_only_writes(answers);
    lemma_transaction_is_all_or_nothing(
        transaction,
        before.connection,
        after.connection,
        writes,
        r,
    );
    if r is Ok {
        lemma_every_action_is_kept(
            transaction.opened,
            transaction.closed,
            actions,
            now,
            between,
            answers,
        );
    }
}

proof fn lemma_every_action_is_kept<D: Database>(
    before: Connection<D>,
    after: Connection<D>,
    actions: Seq<RecoveryAction>,
    now: UtcTimestamp,
    between: Seq<Connection<D>>,
    answers: Seq<ActionAnswers<D>>,
)
    requires
        all_applied(before, after, actions, now, between, answers, Ok(())),
    ensures
        every_action_kept(action_statements(answers), actions),
{
    let writes = action_statements(answers);
    assert forall|i: int| 0 <= i < actions.len() implies action_kept(writes, #[trigger] actions[i]) by {
        lemma_action_raises_revision(between[i], between[i + 1], actions[i], now, answers[i]);
        let at = choose|at: int|
            0 <= at < answers[i].statements().len() && raises_revision(
                #[trigger] answers[i].statements()[at],
                actions[i],
            );
        lemma_statement_is_among(answers, i, at);
        let place = choose|place: int|
            0 <= place < writes.len() && #[trigger] writes[place] == answers[i].statements()[at];
        assert(raises_revision(writes[place], actions[i]));
    }
}

/// What is kept raised the revision of the job of an action.
pub open spec fn action_kept(statements: Seq<Statement>, action: RecoveryAction) -> bool {
    exists|place: int|
        0 <= place < statements.len() && raises_revision(#[trigger] statements[place], action)
}

/// What is kept raised the revision of the job of every action.
pub open spec fn every_action_kept(
    statements: Seq<Statement>,
    actions: Seq<RecoveryAction>,
) -> bool {
    forall|i: int| 0 <= i < actions.len() ==> action_kept(statements, #[trigger] actions[i])
}

/// What recovery leaves in the database: nothing new where it failed, and the effect of every
/// action where it succeeded.
pub open spec fn recovery_keeps<D: Database>(
    before: JobStore<D>,
    after: JobStore<D>,
    actions: Seq<RecoveryAction>,
    r: Result<(), StoreError>,
) -> bool {
    exists|statements: Seq<Statement>|
        {
            &&& #[trigger] after.connection.ran(before.connection, statements)
            &&& match r {
                Err(_) => kept(statements, None) == Seq::<Statement>::empty(),
                Ok(_) => every_action_kept(kept(statements, None), actions),
            }
        }
}

/// What the database answers while the jobs that are not done are read, and what was read.
pub struct NonterminalAnswers {
    pub found_runs: Result<Vec<RunRow>, DatabaseFailure>,
    pub runs: Result<Vec<Run>, StoreError>,
    pub found_jobs: Result<Vec<JobRow>, DatabaseFailure>,
    pub jobs: Result<Vec<Job>, StoreError>,
}

/// The result is what reading the jobs that are not done gives with the answers.
pub open spec fn nonterminal_outcome<D: Database>(
    store: JobStore<D>,
    answers: NonterminalAnswers,
    r: Result<Vec<RecoveryRecord>, StoreError>,
) -> bool {
    &&& ran_active_runs(store.connection.state(), 100_001, answers.found_runs)
    &&& loaded_runs(answers.found_runs, answers.runs)
    &&& match answers.runs {
        Err(error) => r == Err::<Vec<RecoveryRecord>, StoreError>(error),
        Ok(runs) => {
            &&& ran_unfinished_jobs(store.connection.state(), 100_001, answers.found_jobs)
            &&& loaded_jobs(answers.found_jobs, answers.jobs)
            &&& match answers.jobs {
                Err(error) => r == Err::<Vec<RecoveryRecord>, StoreError>(error),
                Ok(jobs) => join_outcome(runs@, jobs@, r),
            }
        },
    }
}

impl<D: Database> JobStore<D> {
    fn perform(&mut self, write: &RecoveryWrite) -> (r: Result<(), StoreError>)
        requires
            sound_write(*write),
        ensures
            exists|result: Result<usize, DatabaseFailure>|
                {
                    &&& #[trigger] performed(*write, result, r)
                    &&& final(self).connection.ran(
                        old(self).connection,
                        seq![write_statement(*write, result)],
                    )
                },
    {
        let result: Result<usize, DatabaseFailure> = match write {
            RecoveryWrite::FinishRun { run_id, token, columns } => self.connection.finish_run(
                run_id.as_str(),
                token,
                columns,
            ),
            RecoveryWrite::MoveJob {
                job_id,
                expected_revision,
                from,
                revision,
                to,
                updated_at_utc,
            } => self.connection.update_job_state(
                job_id.as_str(),
                *expected_revision,
                Some(from.as_str()),
                *revision,
                to,
                updated_at_utc.as_str(),
            ),
            RecoveryWrite::Record(row) => self.connection.insert_transition(row),
            RecoveryWrite::Postpone {
                job_id,
                expected_revision,
                revision,
                updated_at_utc,
                next_due_utc,
            } => self.connection.postpone_job(
                job_id.as_str(),
                *expected_revision,
                *revision,
                updated_at_utc.as_str(),
                next_due_utc.as_str(),
            ),
        };
        let ghost answer = result;
        let r: Result<(), StoreError> = write_outcome(write, result);
        assert(performed(*write, answer, r));
        r
    }

    fn stored_state(&self, action: &RecoveryAction) -> (r: Result<Option<String>, StoreError>)
        ensures
            exists|found: Result<Option<String>, DatabaseFailure>|
                {
                    &&& #[trigger] state_asked(self.connection, *action, found)
                    &&& lookup_of(r) == looked_up(*action, found)
                },
    {
        let (job_id, expected_revision): (JobId, Revision) = match action {
            RecoveryAction::Interrupt { job_id, expected_revision, .. } => {
                (*job_id, *expected_revision)
            },
            RecoveryAction::MarkMissed { job_id, expected_revision } => {
                (*job_id, *expected_revision)
            },
            RecoveryAction::AdvanceRecurring { .. } => {
                assert(state_asked(self.connection, *action, Ok(None)));
                return Ok(None);
            },
        };
        match revision_i64(expected_revision) {
            Ok(expected) => {
                let found: Result<Option<String>, DatabaseFailure> = self.connection.job_state_at(
                    job_id.to_string().as_str(),
                    expected,
                    false,
                );
                assert(state_asked(self.connection, *action, found));
                answered(found)
            },
            Err(error) => {
                assert(state_asked(self.connection, *action, Ok(None)));
                Err(error)
            },
        }
    }

    fn move_job_of(&mut self, action: &RecoveryAction, now: UtcTimestamp) -> (r: Result<
        (),
        StoreError,
    >)
        ensures
            exists|answers: MoveAnswers| #[trigger]
                job_moved(
                    old(self).connection,
                    final(self).connection,
                    *action,
                    now,
                    answers,
                    r,
                ),
    {
        let ghost start = self.connection;
        let ghost mut answers: MoveAnswers = arbitrary();
        let state: Result<Option<String>, StoreError> = self.stored_state(action);
        proof {
            answers.found = choose|found: Result<Option<String>, DatabaseFailure>|
                {
                    &&& #[trigger] state_asked(self.connection, *action, found)
                    &&& lookup_of(state) == looked_up(*action, found)
                };
        }
        let current: Option<String> = match state {
            Ok(current) => current,
            Err(error) => {
                proof {
                    answers.planned = Err(error@);
                }
                let r: Result<(), StoreError> = Err(error);
                assert(job_moved(start, self.connection, *action, now, answers, r));
                return r;
            },
        };
        let ghost stored = optional_text(current);
        let outcome: Result<Vec<RecoveryWrite>, StoreError> = recovery_writes(action, current, now);
        proof {
            answers.planned = writes_outcome(outcome);
        }
        let writes: Vec<RecoveryWrite> = match outcome {
            Ok(writes) => writes,
            Err(error) => {
                let r: Result<(), StoreError> = Err(error);
                assert(job_moved(start, self.connection, *action, now, answers, r));
                return r;
            },
        };
        let ghost found = answers.found;
        proof {
            lemma_recovery_writes_are_sound(*action, stored, now, writes@);
            lemma_ran_nothing(start);
        }
        let ghost mut results: Seq<Result<usize, DatabaseFailure>> = Seq::empty();
        assert(write_statements(writes@, results) =~= Seq::<Statement>::empty());
        let mut index: usize = 0;
        while index < writes.len()
            invariant
                index <= writes@.len(),
                results.len() == index,
                start == old(self).connection,
                state_asked(start, *action, found),
                looked_up(*action, found) == Ok::<Option<Seq<char>>, StoreFault>(stored),
                action_writes(*action, stored, now, Ok(writes@)),
                self.connection.ran(start, write_statements(writes@, results)),
                forall|i: int| 0 <= i < writes@.len() ==> sound_write(#[trigger] writes@[i]),
                forall|i: int|
                    0 <= i < index ==> performed(#[trigger] writes@[i], results[i], Ok(())),
            decreases writes@.len() - index,
        {
            let ghost middle = self.connection;
            let done: Result<(), StoreError> = self.perform(&writes[index]);
            proof {
                let write = writes@[index as int];
                let result = choose|result: Result<usize, DatabaseFailure>|
                    {
                        &&& #[trigger] performed(write, result, done)
                        &&& self.connection.ran(middle, seq![write_statement(write, result)])
                    };
                let one = write_statements(writes@, results);
                let two = seq![write_statement(write, result)];
                lemma_ran_both(start, middle, self.connection, one, two);
                results = results.push(result);
                assert(one + two =~= write_statements(writes@, results));
            }
            match done {
                Ok(unit) => {
                    assert(unit == ());
                },
                Err(error) => {
                    let r: Result<(), StoreError> = Err(error);
                    let ghost all = MoveAnswers { found, planned: Ok(writes@), results };
                    assert(all_performed(writes@, results, r));
                    assert(job_moved(start, self.connection, *action, now, all, r));
                    return r;
                },
            }
            index += 1;
        }
        let r: Result<(), StoreError> = Ok(());
        let ghost all = MoveAnswers { found, planned: Ok(writes@), results };
        assert(all_performed(writes@, results, r));
        assert(job_moved(start, self.connection, *action, now, all, r));
        r
    }

    fn apply_action(&mut self, action: &RecoveryAction, now: UtcTimestamp) -> (r: Result<
        (),
        StoreError,
    >)
        ensures
            exists|answers: ActionAnswers<D>| #[trigger]
                applied(
                    old(self).connection,
                    final(self).connection,
                    *action,
                    now,
                    answers,
                    r,
                ),
    {
        let ghost start = self.connection;
        let ghost mut answers: ActionAnswers<D> = arbitrary();
        match run_ending(action, now) {
            Some(write) => {
                proof {
                    lemma_run_ending_is_sound(*action, now, write);
                }
                let done: Result<(), StoreError> = self.perform(&write);
                proof {
                    let result = choose|result: Result<usize, DatabaseFailure>|
                        {
                            &&& #[trigger] performed(write, result, done)
                            &&& self.connection.ran(start, seq![write_statement(write, result)])
                        };
                    answers.ending = Some((write, result));
                    answers.ended = self.connection;
                }
                match done {
                    Ok(_) => {},
                    Err(error) => {
                        let r: Result<(), StoreError> = Err(error);
                        assert(applied(start, self.connection, *action, now, answers, r));
                        return r;
                    },
                }
            },
            None => {
                proof {
                    lemma_ran_nothing(start);
                    answers.ending = None;
                    answers.ended = start;
                }
            },
        }
        let r: Result<(), StoreError> = self.move_job_of(action, now);
        proof {
            answers.moved = choose|moved: MoveAnswers| #[trigger]
                job_moved(answers.ended, self.connection, *action, now, moved, r);
            assert(applied(start, self.connection, *action, now, answers, r));
        }
        r
    }

    fn apply_actions(&mut self, actions: &Vec<RecoveryAction>, now: UtcTimestamp) -> (r: Result<
        (),
        StoreError,
    >)
        ensures
            exists|between: Seq<Connection<D>>, answers: Seq<ActionAnswers<D>>| #[trigger]
                all_applied(
                    old(self).connection,
                    final(self).connection,
                    actions@,
                    now,
                    between,
                    answers,
                    r,
                ),
    {
        let ghost start = self.connection;
        let ghost mut between: Seq<Connection<D>> = seq![start];
        let ghost mut answers: Seq<ActionAnswers<D>> = Seq::empty();
        proof {
            lemma_ran_nothing(start);
        }
        let mut index: usize = 0;
        while index < actions.len()
            invariant
                index <= actions@.len(),
                start == old(self).connection,
                answers.len() == index,
                between.len() == index + 1,
                between[0] == start,
                between.last() == self.connection,
                self.connection.ran(start, action_statements(answers)),
                forall|i: int|
                    0 <= i < index ==> applied(
                        between[i],
                        between[i + 1],
                        #[trigger] actions@[i],
                        now,
                        answers[i],
                        Ok(()),
                    ),
            decreases actions@.len() - index,
        {
            let ghost middle = self.connection;
            let ghost earlier = between;
            let ghost before = answers;
            let done: Result<(), StoreError> = self.apply_action(&actions[index], now);
            proof {
                let action = actions@[index as int];
                let new = choose|new: ActionAnswers<D>| #[trigger]
                    applied(middle, self.connection, action, now, new, done);
                lemma_applied_runs_statements(middle, self.connection, action, now, new, done);
                lemma_ran_both(
                    start,
                    middle,
                    self.connection,
                    action_statements(before),
                    new.statements(),
                );
                answers = answers.push(new);
                between = between.push(self.connection);
                assert(answers.drop_last() =~= before);
                assert(forall|i: int| 0 <= i < earlier.len() ==> between[i] == earlier[i]);
                assert(forall|i: int| 0 <= i < before.len() ==> answers[i] == before[i]);
                assert(between[index as int] == middle);
            }
            match done {
                Ok(unit) => {
                    assert(unit == ());
                    assert(applied(
                        between[index as int],
                        between[index + 1],
                        actions@[index as int],
                        now,
                        answers[index as int],
                        Ok(()),
                    ));
                },
                Err(error) => {
                    let r: Result<(), StoreError> = Err(error);
                    assert(all_applied(
                        start,
                        self.connection,
                        actions@,
                        now,
                        between,
                        answers,
                        r,
                    ));
                    return r;
                },
            }
            index += 1;
        }
        let r: Result<(), StoreError> = Ok(());
        assert(all_applied(start, self.connection, actions@, now, between, answers, r));
        r
    }

    /// Makes the changes of recovery, all of them or none.
    pub fn apply_recovery(&mut self, actions: &Vec<RecoveryAction>, now: UtcTimestamp) -> (r: Result<
        (),
        StoreError,
    >)
        ensures
            recovery_applied(*old(self), *final(self), actions@, now, r),
            recovery_keeps(*old(self), *final(self), actions@, r),
    {
        let ghost start = *self;
        let ghost mut transaction: Transaction<D, ()> = arbitrary();
        let began: Result<(), DatabaseFailure> = self.connection.begin();
        proof {
            transaction.began = began;
            transaction.opened = self.connection;
        }
        match written(began) {
            Ok(_) => {},
            Err(error) => {
                let r: Result<(), StoreError> = Err(error);
                proof {
                    assert(recovery_outcome(
                        start,
                        *self,
                        actions@,
                        now,
                        transaction,
                        arbitrary(),
                        arbitrary(),
                        r,
                    ));
                    lemma_recovery_is_atomic(start, *self, actions@, now, r);
                }
                return r;
            },
        }
        let outcome: Result<(), StoreError> = self.apply_actions(actions, now);
        proof {
            transaction.closed = self.connection;
            transaction.outcome = outcome;
        }
        let r: Result<(), StoreError> = self.settle(outcome);
        proof {
            let (between, answers) = choose|
                between: Seq<Connection<D>>,
                answers: Seq<ActionAnswers<D>>,
            | #[trigger]
                all_applied(
                    transaction.opened,
                    transaction.closed,
                    actions@,
                    now,
                    between,
                    answers,
                    transaction.outcome,
                );
            transaction.committed = choose|committed: Result<(), DatabaseFailure>|
                {
                    &&& #[trigger] settled(transaction.outcome, committed, r)
                    &&& self.connection.ran(
                        transaction.closed,
                        settlement(transaction.outcome is Ok, committed),
                    )
                };
            assert(recovery_outcome(
                start,
                *self,
                actions@,
                now,
                transaction,
                between,
                answers,
                r,
            ));
            lemma_recovery_is_atomic(start, *self, actions@, now, r);
        }
        r
    }

    /// The jobs that are not done, each with its active run.
    pub fn load_nonterminal(&self) -> (r: Result<Vec<RecoveryRecord>, StoreError>)
        ensures
            exists|answers: NonterminalAnswers| #[trigger] nonterminal_outcome(*self, answers, r),
    {
        let ghost mut answers: NonterminalAnswers = arbitrary();
        let found_runs: Result<Vec<RunRow>, DatabaseFailure> = self.connection.active_runs(100_001);
        proof {
            answers.found_runs = found_runs;
            assert(ran_active_runs(self.connection.state(), 100_001, found_runs));
        }
        let runs: Result<Vec<Run>, StoreError> = read_runs(found_runs);
        proof {
            answers.runs = runs;
        }
        let runs: Vec<Run> = match runs {
            Ok(runs) => runs,
            Err(error) => {
                let r: Result<Vec<RecoveryRecord>, StoreError> = Err(error);
                assert(nonterminal_outcome(*self, answers, r));
                return r;
            },
        };
        let found_jobs: Result<Vec<JobRow>, DatabaseFailure> = self.connection.unfinished_jobs(
            100_001,
        );
        proof {
            answers.found_jobs = found_jobs;
            assert(ran_unfinished_jobs(self.connection.state(), 100_001, found_jobs));
        }
        let jobs: Result<Vec<Job>, StoreError> = read_jobs(found_jobs);
        proof {
            answers.jobs = jobs;
        }
        let jobs: Vec<Job> = match jobs {
            Ok(jobs) => jobs,
            Err(error) => {
                let r: Result<Vec<RecoveryRecord>, StoreError> = Err(error);
                assert(nonterminal_outcome(*self, answers, r));
                return r;
            },
        };
        let r: Result<Vec<RecoveryRecord>, StoreError> = join_records(runs, jobs);
        assert(nonterminal_outcome(*self, answers, r));
        r
    }
}

// ---------------------------------------------------------------------------------------------
// The recovery store
// ---------------------------------------------------------------------------------------------
/// The store as recovery uses it, with the policy for what is kept.
pub struct StartupStore<D> {
    pub store: JobStore<D>,
    pub retention_policy: RetentionPolicy,
}

impl<D: Database> StartupStore<D> {
    /// The store with its policy.
    pub fn new(store: JobStore<D>, retention_policy: RetentionPolicy) -> (r: StartupStore<D>)
        ensures
            r.store == store,
            r.retention_policy == retention_policy,
    {
        StartupStore { store, retention_policy }
    }
}

/// A store error as an error of recovery.
pub fn recovery_error(error: &StoreError) -> (r: RecoveryStoreError)
    ensures
        r.0@ == store_message(error@),
{
    RecoveryStoreError(error.to_string())
}

/// The result of the store, as recovery reports it.
pub open spec fn recovered<T>(
    stored: Result<T, StoreError>,
    r: Result<T, RecoveryStoreError>,
) -> bool {
    match stored {
        Ok(value) => r == Ok::<T, RecoveryStoreError>(value),
        Err(fault) => r matches Err(error) && error.0@ == store_message(fault@),
    }
}

impl<D: Database> RecoveryStore for StartupStore<D> {
    fn load_nonterminal(&self) -> (r: Result<Vec<RecoveryRecord>, RecoveryStoreError>)
        ensures
            exists|answers: NonterminalAnswers, stored: Result<Vec<RecoveryRecord>, StoreError>|
                #[trigger] nonterminal_outcome(self.store, answers, stored) && recovered(stored, r),
    {
        match self.store.load_nonterminal() {
            Ok(records) => Ok(records),
            Err(error) => Err(recovery_error(&error)),
        }
    }

    fn apply_recovery(&mut self, actions: &Vec<RecoveryAction>, now: UtcTimestamp) -> (r: Result<
        (),
        RecoveryStoreError,
    >)
        ensures
            final(self).retention_policy == old(self).retention_policy,
            exists|stored: Result<(), StoreError>|
                {
                    &&& #[trigger] recovery_applied(
                        old(self).store,
                        final(self).store,
                        actions@,
                        now,
                        stored,
                    )
                    &&& recovery_keeps(old(self).store, final(self).store, actions@, stored)
                    &&& recovered(stored, r)
                },
    {
        let ghost before = self.store;
        let stored: Result<(), StoreError> = self.store.apply_recovery(actions, now);
        assert(recovery_applied(before, self.store, actions@, now, stored));
        match stored {
            Ok(done) => Ok(done),
            Err(error) => Err(recovery_error(&error)),
        }
    }

    fn cleanup_recovery(&mut self, now: UtcTimestamp) -> (r: Result<(), RecoveryStoreError>)
        ensures
            final(self).retention_policy == old(self).retention_policy,
            exists|
                transaction: Transaction<D, RetentionReport>,
                answers: CleanupAnswers,
                stored: Result<RetentionReport, StoreError>,
            |
                {
                    &&& #[trigger] cleanup_outcome(
                        old(self).store,
                        final(self).store,
                        now,
                        old(self).retention_policy,
                        transaction,
                        answers,
                        stored,
                    )
                    &&& match stored {
                        Ok(_) => r is Ok,
                        Err(fault) => r matches Err(error) && error.0@ == store_message(fault@),
                    }
                },
    {
        let policy: RetentionPolicy = self.retention_policy;
        let ghost before = self.store;
        let stored: Result<RetentionReport, StoreError> = self.store.cleanup_retention(now, policy);
        proof {
            let (transaction, answers) = choose|
                transaction: Transaction<D, RetentionReport>,
                answers: CleanupAnswers,
            | #[trigger]
                cleanup_outcome(before, self.store, now, policy, transaction, answers, stored);
            assert(cleanup_outcome(
                before,
                self.store,
                now,
                policy,
                transaction,
                answers,
                stored,
            ));
        }
        match stored {
            Ok(_) => Ok(()),
            Err(error) => Err(recovery_error(&error)),
        }
    }
}

} // verus!
