//! Retention queries and orphan discovery.
use vstd::prelude::*;

use super::connection::{lemma_ran_both, lemma_ran_nothing, Connection, Statement};
use super::database::{
    map_write_error, one_row, write_fault, written, DatabaseFailure, StoreError, StoreFault,
};
use super::job_store::JobStore;
use super::tables::{is_time, Database};
use super::transaction::{
    kept, lemma_transaction_is_all_or_nothing, settled, settlement, Transaction,
};
use crate::domain::id::{id_text, RunId};
use crate::domain::primitives::{in_time_range, UtcTimestamp, NANOS_PER_SECOND};
use crate::domain::run::ClaimToken;
use crate::outside::timestamp_text;
use crate::path_text::{join_path, path_join};
use crate::text::{
    comes_before, lemma_text_before_irreflexive, lemma_text_before_total,
    lemma_text_before_transitive, text_before, text_eq, texts,
};

verus! {

broadcast use vstd::seq::group_seq_axioms;

/// The longest retention, in days.
pub const MAX_RETENTION_DAYS: u16 = 3650;

/// Why a retention task failed.
#[derive(Clone, Copy, Debug, PartialEq, Eq, Structural)]
pub enum RetentionError {
    InvalidDays,
    NonUtf8Artifact,
}

/// The message of a retention error.
pub open spec fn retention_message(error: RetentionError) -> Seq<char> {
    match error {
        RetentionError::InvalidDays => "retention days must be between 1 and 3650"@,
        RetentionError::NonUtf8Artifact => "artifact directory contains a non-UTF-8 name"@,
    }
}

impl RetentionError {
    /// The error as a message.
    pub fn to_string(&self) -> (text: String)
        ensures
            text@ == retention_message(*self),
    {
        match self {
            RetentionError::InvalidDays => "retention days must be between 1 and 3650".to_owned(),
            RetentionError::NonUtf8Artifact => {
                "artifact directory contains a non-UTF-8 name".to_owned()
            },
        }
    }
}

/// How long ended runs and jobs are kept, in days.
#[derive(Clone, Copy, Debug, PartialEq, Eq, Structural)]
pub struct RetentionPolicy {
    history_days: u16,
    terminal_job_days: u16,
}

/// The number of days is one that things may be kept for.
pub open spec fn valid_retention(days: u16) -> bool {
    1 <= days <= MAX_RETENTION_DAYS
}

impl RetentionPolicy {
    #[verifier::type_invariant]
    spec fn wf(self) -> bool {
        valid_retention(self.history_days) && valid_retention(self.terminal_job_days)
    }

    pub closed spec fn spec_history_days(self) -> u16 {
        self.history_days
    }

    pub closed spec fn spec_terminal_job_days(self) -> u16 {
        self.terminal_job_days
    }

    /// The policy with the given numbers of days.
    pub fn new(history_days: u16, terminal_job_days: u16) -> (r: Result<
        RetentionPolicy,
        RetentionError,
    >)
        ensures
            if valid_retention(history_days) && valid_retention(terminal_job_days) {
                r matches Ok(policy) && policy.spec_history_days() == history_days
                    && policy.spec_terminal_job_days() == terminal_job_days
            } else {
                r == Err::<RetentionPolicy, RetentionError>(RetentionError::InvalidDays)
            },
    {
        if history_days == 0 || history_days > MAX_RETENTION_DAYS || terminal_job_days == 0
            || terminal_job_days > MAX_RETENTION_DAYS {
            return Err(RetentionError::InvalidDays);
        }
        Ok(RetentionPolicy { history_days, terminal_job_days })
    }

    /// For how many days ended runs and transitions are kept.
    pub fn history_days(&self) -> (r: u16)
        ensures
            r == self.spec_history_days(),
    {
        self.history_days
    }

    /// For how many days jobs that are done are kept.
    pub fn terminal_job_days(&self) -> (r: u16)
        ensures
            r == self.spec_terminal_job_days(),
    {
        self.terminal_job_days
    }
}

/// What a cleanup deleted.
#[derive(Clone, Copy, Debug, Default, PartialEq, Eq)]
pub struct RetentionReport {
    pub runs: usize,
    pub jobs: usize,
    pub transitions: usize,
}

/// The instant so many days before another.
pub open spec fn days_before(now: int, days: u16) -> int {
    now - days * 86400 * NANOS_PER_SECOND
}

/// The time so many days before now, as it is stored.
pub fn cutoff(now: UtcTimestamp, days: u16) -> (r: Result<String, StoreError>)
    ensures
        if in_time_range(days_before(now@, days)) {
            r matches Ok(text) && text@ == timestamp_text(days_before(now@, days))
        } else {
            r matches Err(error) && error@ == StoreFault::Domain("retention cutoff overflow"@)
        },
{
    let seconds: i64 = 0 - (days as i64) * 86400;
    assert(seconds * NANOS_PER_SECOND == -(days * 86400 * NANOS_PER_SECOND)) by (nonlinear_arith)
        requires
            seconds == -(days * 86400),
    ;
    match now.plus_seconds(seconds) {
        Some(earlier) => Ok(earlier.to_string()),
        None => Err(StoreError::Domain("retention cutoff overflow".to_owned())),
    }
}

/// The outcome of recording what was truncated: no row means that the claim does not hold.
pub fn recorded_truncation(result: Result<usize, DatabaseFailure>) -> (r: Result<(), StoreError>)
    ensures
        one_row(result, StoreFault::InvalidClaim, r),
{
    match result {
        Ok(changed) => {
            if changed == 1 {
                Ok(())
            } else {
                Err(StoreError::InvalidClaim)
            }
        },
        Err(failure) => Err(map_write_error(failure)),
    }
}

/// Both times before which things are deleted can be represented.
pub open spec fn cutoffs_exist(now: UtcTimestamp, policy: RetentionPolicy) -> bool {
    in_time_range(days_before(now@, policy.spec_history_days())) && in_time_range(
        days_before(now@, policy.spec_terminal_job_days()),
    )
}

/// What the database answers to the deletions of a cleanup: how many rows each deleted.
pub struct CleanupAnswers {
    pub runs: Result<usize, DatabaseFailure>,
    pub transitions: Result<usize, DatabaseFailure>,
    pub jobs: Result<usize, DatabaseFailure>,
}

/// The statements of a cleanup, up to the first that fails.
pub open spec fn cleanup_statements(
    history_cutoff: Seq<char>,
    job_cutoff: Seq<char>,
    answers: CleanupAnswers,
) -> Seq<Statement> {
    let runs = Statement::DeleteOldRuns { before: history_cutoff, answer: answers.runs };
    let transitions = Statement::DeleteOldTransitions {
        before: history_cutoff,
        answer: answers.transitions,
    };
    let jobs = Statement::DeleteOldJobs { before: job_cutoff, answer: answers.jobs };
    if answers.runs is Err {
        seq![runs]
    } else if answers.transitions is Err {
        seq![runs, transitions]
    } else {
        seq![runs, transitions, jobs]
    }
}

/// The result is what the deletions give with the answers: what each deleted, or the failure of
/// the first that failed.
pub open spec fn deletes<D: Database>(
    before: Connection<D>,
    after: Connection<D>,
    history_cutoff: Seq<char>,
    job_cutoff: Seq<char>,
    answers: CleanupAnswers,
    r: Result<RetentionReport, StoreError>,
) -> bool {
    &&& after.ran(before, cleanup_statements(history_cutoff, job_cutoff, answers))
    &&& match (answers.runs, answers.transitions, answers.jobs) {
        (Ok(runs), Ok(transitions), Ok(jobs)) => r == Ok::<RetentionReport, StoreError>(
            RetentionReport { runs, jobs, transitions },
        ),
        (Err(failure), _, _) => r matches Err(error) && error@ == write_fault(failure),
        (_, Err(failure), _) => r matches Err(error) && error@ == write_fault(failure),
        (_, _, Err(failure)) => r matches Err(error) && error@ == write_fault(failure),
    }
}

/// The result is what a cleanup gives with the answers.
pub open spec fn cleanup_outcome<D: Database>(
    before: JobStore<D>,
    after: JobStore<D>,
    now: UtcTimestamp,
    policy: RetentionPolicy,
    transaction: Transaction<D, RetentionReport>,
    answers: CleanupAnswers,
    r: Result<RetentionReport, StoreError>,
) -> bool {
    if !cutoffs_exist(now, policy) {
        after == before && (r matches Err(error) && error@ == StoreFault::Domain(
            "retention cutoff overflow"@,
        ))
    } else {
        &&& transaction.carried_out(before.connection, after.connection, r)
        &&& transaction.began is Ok ==> deletes(
            transaction.opened,
            transaction.closed,
            timestamp_text(days_before(now@, policy.spec_history_days())),
            timestamp_text(days_before(now@, policy.spec_terminal_job_days())),
            answers,
            transaction.outcome,
        )
    }
}

/// A cleanup keeps all of its deletions where it succeeds, and nothing where it fails.
pub proof fn lemma_cleanup_is_all_or_nothing<D: Database>(
    before: JobStore<D>,
    after: JobStore<D>,
    now: UtcTimestamp,
    policy: RetentionPolicy,
    transaction: Transaction<D, RetentionReport>,
    answers: CleanupAnswers,
    r: Result<RetentionReport, StoreError>,
)
    requires
        cleanup_outcome(before, after, now, policy, transaction, answers, r),
    ensures
        exists|statements: Seq<Statement>|
            {
                &&& #[trigger] after.connection.ran(before.connection, statements)
                &&& kept(statements, None) == if r is Ok {
                    cleanup_statements(
                        timestamp_text(days_before(now@, policy.spec_history_days())),
                        timestamp_text(days_before(now@, policy.spec_terminal_job_days())),
                        answers,
                    )
                } else {
                    Seq::empty()
                }
            },
{
    if cutoffs_exist(now, policy) {
        lemma_transaction_is_all_or_nothing(
            transaction,
            before.connection,
            after.connection,
            cleanup_statements(
                timestamp_text(days_before(now@, policy.spec_history_days())),
                timestamp_text(days_before(now@, policy.spec_terminal_job_days())),
                answers,
            ),
            r,
        );
    } else {
        lemma_ran_nothing(before.connection);
        assert(kept(Seq::empty(), None) == Seq::<Statement>::empty());
    }
}

impl<D: Database> JobStore<D> {
    /// Records what was truncated of the output of a claimed run.
    pub fn record_log_truncation(
        &mut self,
        run_id: RunId,
        claim_token: ClaimToken,
        stdout_truncated: bool,
        stderr_truncated: bool,
    ) -> (r: Result<(), StoreError>)
        ensures
            exists|result: Result<usize, DatabaseFailure>|
                {
                    &&& #[trigger] one_row(result, StoreFault::InvalidClaim, r)
                    &&& final(self).connection.ran(
                        old(self).connection,
                        seq![(Statement::SetTruncation {
                            run_id: id_text(run_id@),
                            token: claim_token,
                            stdout_truncated,
                            stderr_truncated,
                            answer: result,
                        })],
                    )
                },
    {
        let result: Result<usize, DatabaseFailure> = self.connection.set_truncation(
            run_id.to_string().as_str(),
            &claim_token,
            stdout_truncated,
            stderr_truncated,
        );
        let ghost answer = result;
        let r: Result<(), StoreError> = recorded_truncation(result);
        assert(one_row(answer, StoreFault::InvalidClaim, r));
        r
    }

    /// Deletes what the policy keeps no longer, all of it or nothing.
    pub fn cleanup_retention(&mut self, now: UtcTimestamp, policy: RetentionPolicy) -> (r: Result<
        RetentionReport,
        StoreError,
    >)
        ensures
            exists|transaction: Transaction<D, RetentionReport>, answers: CleanupAnswers|
                #[trigger] cleanup_outcome(
                    *old(self),
                    *final(self),
                    now,
                    policy,
                    transaction,
                    answers,
                    r,
                ),
    {
        let ghost start = *self;
        let ghost mut transaction: Transaction<D, RetentionReport> = arbitrary();
        let history_cutoff: String = match cutoff(now, policy.history_days()) {
            Ok(text) => text,
            Err(error) => {
                let r: Result<RetentionReport, StoreError> = Err(error);
                assert(cleanup_outcome(start, *self, now, policy, transaction, arbitrary(), r));
                return r;
            },
        };
        let job_cutoff: String = match cutoff(now, policy.terminal_job_days()) {
            Ok(text) => text,
            Err(error) => {
                let r: Result<RetentionReport, StoreError> = Err(error);
                assert(cleanup_outcome(start, *self, now, policy, transaction, arbitrary(), r));
                return r;
            },
        };
        let began: Result<(), DatabaseFailure> = self.connection.begin();
        proof {
            transaction.began = began;
            transaction.opened = self.connection;
        }
        match written(began) {
            Ok(_) => {},
            Err(error) => {
                let r: Result<RetentionReport, StoreError> = Err(error);
                assert(cleanup_outcome(start, *self, now, policy, transaction, arbitrary(), r));
                return r;
            },
        }
        let outcome: Result<RetentionReport, StoreError> = self.delete_old(
            history_cutoff.as_str(),
            job_cutoff.as_str(),
        );
        proof {
            transaction.closed = self.connection;
            transaction.outcome = outcome;
        }
        let r: Result<RetentionReport, StoreError> = self.settle(outcome);
        proof {
            let answers = choose|answers: CleanupAnswers| #[trigger]
                deletes(
                    transaction.opened,
                    transaction.closed,
                    history_cutoff@,
                    job_cutoff@,
                    answers,
                    transaction.outcome,
                );
            transaction.committed = choose|committed: Result<(), DatabaseFailure>|
                {
                    &&& #[trigger] settled(transaction.outcome, committed, r)
                    &&& self.connection.ran(
                        transaction.closed,
                        settlement(transaction.outcome is Ok, committed),
                    )
                };
            assert(cleanup_outcome(start, *self, now, policy, transaction, answers, r));
        }
        r
    }

    fn delete_old(&mut self, history_cutoff: &str, job_cutoff: &str) -> (r: Result<
        RetentionReport,
        StoreError,
    >)
        requires
            is_time(history_cutoff@),
            is_time(job_cutoff@),
        ensures
            exists|answers: CleanupAnswers| #[trigger]
                deletes(
                    old(self).connection,
                    final(self).connection,
                    history_cutoff@,
                    job_cutoff@,
                    answers,
                    r,
                ),
    {
        let ghost start = self.connection;
        let ghost mut answers: CleanupAnswers = arbitrary();
        let ghost history_text = history_cutoff@;
        let ghost job_text = job_cutoff@;
        let deleted: Result<usize, DatabaseFailure> = self.connection.delete_old_runs(
            history_cutoff,
        );
        let ghost one = seq![Statement::DeleteOldRuns { before: history_text, answer: deleted }];
        proof {
            answers.runs = deleted;
        }
        let runs: usize = match written(deleted) {
            Ok(runs) => runs,
            Err(error) => {
                let r: Result<RetentionReport, StoreError> = Err(error);
                assert(deletes(start, self.connection, history_text, job_text, answers, r));
                return r;
            },
        };
        let ghost middle = self.connection;
        let deleted: Result<usize, DatabaseFailure> = self.connection.delete_old_transitions(
            history_cutoff,
        );
        let ghost two = seq![
            Statement::DeleteOldTransitions { before: history_text, answer: deleted },
        ];
        proof {
            answers.transitions = deleted;
            lemma_ran_both(start, middle, self.connection, one, two);
            assert(one + two =~= seq![one[0], two[0]]);
        }
        let transitions: usize = match written(deleted) {
            Ok(transitions) => transitions,
            Err(error) => {
                let r: Result<RetentionReport, StoreError> = Err(error);
                assert(deletes(start, self.connection, history_text, job_text, answers, r));
                return r;
            },
        };
        let ghost later = self.connection;
        let deleted: Result<usize, DatabaseFailure> = self.connection.delete_old_jobs(job_cutoff);
        proof {
            answers.jobs = deleted;
            let three = seq![Statement::DeleteOldJobs { before: job_text, answer: deleted }];
            lemma_ran_both(start, later, self.connection, one + two, three);
            assert(one + two + three =~= seq![one[0], two[0], three[0]]);
        }
        let r: Result<RetentionReport, StoreError> = match written(deleted) {
            Ok(jobs) => Ok(RetentionReport { runs, jobs, transitions }),
            Err(error) => Err(error),
        };
        assert(deletes(start, self.connection, history_text, job_text, answers, r));
        r
    }
}

// ---------------------------------------------------------------------------------------------
// Orphans
// ---------------------------------------------------------------------------------------------
/// The name is that of the directory of a known run.
pub open spec fn is_known(name: Seq<char>, known: Seq<RunId>) -> bool {
    exists|i: int| 0 <= i < known.len() && name == id_text(#[trigger] known[i]@)
}

/// The names that belong to no known run, in the order of the directory.
pub open spec fn orphan_names(entries: Seq<Option<String>>, known: Seq<RunId>) -> Seq<Seq<char>>
    decreases entries.len(),
{
    if entries.len() == 0 {
        Seq::empty()
    } else {
        let rest = orphan_names(entries.drop_last(), known);
        match entries.last() {
            Some(name) => if is_known(name@, known) {
                rest
            } else {
                rest.push(name@)
            },
            None => rest,
        }
    }
}

/// No text comes before an earlier one.
pub open spec fn in_order(list: Seq<Seq<char>>) -> bool {
    forall|i: int, j: int| 0 <= i < j < list.len() ==> !text_before(list[j], list[i])
}

fn name_is_known(name: &str, known: &Vec<String>) -> (r: bool)
    ensures
        r == exists|i: int| 0 <= i < known@.len() && name@ == (#[trigger] known@[i])@,
{
    let mut index: usize = 0;
    while index < known.len()
        invariant
            index <= known@.len(),
            forall|i: int| 0 <= i < index ==> name@ != (#[trigger] known@[i])@,
        decreases known@.len() - index,
    {
        if text_eq(name, known[index].as_str()) {
            return true;
        }
        index += 1;
    }
    false
}

/// Puts a name into an ordered list, after those that do not come after it.
fn insert_in_order(list: &mut Vec<String>, name: String)
    requires
        in_order(texts(old(list)@)),
    ensures
        in_order(texts(final(list)@)),
        texts(final(list)@).to_multiset() == texts(old(list)@).to_multiset().insert(name@),
{
    let ghost before = list@;
    let mut index: usize = list.len();
    while index > 0 && comes_before(name.as_str(), list[index - 1].as_str())
        invariant
            index <= list@.len(),
            list@ == before,
            forall|j: int| index <= j < list@.len() ==> text_before(name@, (#[trigger] list@[j])@),
        decreases index,
    {
        index -= 1;
    }
    let ghost at = index as int;
    list.insert(index, name);
    proof {
        let old_texts = texts(before);
        let new_texts = texts(list@);
        assert(new_texts =~= old_texts.insert(at, name@));
        new_texts.to_multiset_ensures();
        assert(new_texts.remove(at) =~= old_texts);
        assert(new_texts[at] == name@);
        assert(new_texts.contains(name@));
        assert(new_texts.to_multiset() =~= old_texts.to_multiset().insert(name@));
        assert forall|i: int, j: int| 0 <= i < j < new_texts.len() implies !text_before(
            new_texts[j],
            new_texts[i],
        ) by {
            if i < at && j < at {
                assert(new_texts[i] == old_texts[i] && new_texts[j] == old_texts[j]);
            } else if i > at {
                assert(new_texts[i] == old_texts[i - 1] && new_texts[j] == old_texts[j - 1]);
            } else if i < at && j > at {
                assert(new_texts[i] == old_texts[i] && new_texts[j] == old_texts[j - 1]);
            } else if i == at {
                assert(new_texts[j] == before[j - 1]@);
                if text_before(new_texts[j], name@) {
                    lemma_text_before_transitive(name@, new_texts[j], name@);
                    lemma_text_before_irreflexive(name@);
                }
            } else {
                assert(j == at && i < at);
                assert(new_texts[i] == old_texts[i]);
                assert(!text_before(name@, old_texts[at - 1]));
                if i < at - 1 && text_before(name@, old_texts[i]) {
                    assert(!text_before(old_texts[at - 1], old_texts[i]));
                    lemma_text_before_total(old_texts[at - 1], old_texts[i]);
                    if old_texts[i] != old_texts[at - 1] {
                        lemma_text_before_transitive(name@, old_texts[i], old_texts[at - 1]);
                    }
                }
            }
        }
    }
}

/// The paths of the artifacts that belong to no known run, in order, given the names of the
/// entries of the directory; a name that is no text has none.
pub fn discover_orphan_artifacts(
    runs_directory: &str,
    entries: Vec<Option<String>>,
    known_runs: &Vec<RunId>,
) -> (r: Result<Vec<String>, RetentionError>)
    ensures
        if exists|i: int| 0 <= i < entries@.len() && (#[trigger] entries@[i]) is None {
            r == Err::<Vec<String>, RetentionError>(RetentionError::NonUtf8Artifact)
        } else {
            r matches Ok(paths) && exists|names: Seq<Seq<char>>|
                {
                    &&& #[trigger] in_order(names)
                    &&& names.to_multiset() == orphan_names(
                        entries@,
                        known_runs@,
                    ).to_multiset()
                    &&& texts(paths@) == names.map_values(
                        |name: Seq<char>| path_join(runs_directory@, name),
                    )
                }
        },
{
    let mut known: Vec<String> = Vec::new();
    let mut index: usize = 0;
    while index < known_runs.len()
        invariant
            index <= known_runs@.len(),
            known@.len() == index,
            forall|i: int| 0 <= i < index ==> (#[trigger] known@[i])@ == id_text(known_runs@[i]@),
        decreases known_runs@.len() - index,
    {
        known.push(known_runs[index].to_string());
        index += 1;
    }
    let mut orphans: Vec<String> = Vec::new();
    let ghost all = entries@;
    assert(all.take(0) =~= Seq::<Option<String>>::empty());
    assert(texts(orphans@) =~= Seq::<Seq<char>>::empty());
    let ghost mut seen: int = 0;
    for entry in iter: entries
        invariant
            iter.seq() == all,
            seen == iter.index(),
            known@.len() == known_runs@.len(),
            forall|i: int|
                0 <= i < known@.len() ==> (#[trigger] known@[i])@ == id_text(known_runs@[i]@),
            forall|i: int| 0 <= i < seen ==> (#[trigger] all[i]) is Some,
            in_order(texts(orphans@)),
            texts(orphans@).to_multiset() == orphan_names(
                all.take(seen),
                known_runs@,
            ).to_multiset(),
    {
        proof {
            let next = all.take(seen + 1);
            assert(next.drop_last() =~= all.take(seen));
            assert(next.last() == all[seen]);
            assert(entry == all[seen]);
        }
        match entry {
            Some(name) => {
                proof {
                    if is_known(name@, known_runs@) {
                        let i = choose|i: int|
                            0 <= i < known_runs@.len() && name@ == id_text(
                                #[trigger] known_runs@[i]@,
                            );
                        assert(name@ == known@[i]@);
                    }
                    if exists|i: int| 0 <= i < known@.len() && name@ == (#[trigger] known@[i])@ {
                        let i = choose|i: int|
                            0 <= i < known@.len() && name@ == (#[trigger] known@[i])@;
                        assert(name@ == id_text(known_runs@[i]@));
                    }
                    orphan_names(all.take(seen), known_runs@).to_multiset_ensures();
                }
                if !name_is_known(name.as_str(), &known) {
                    insert_in_order(&mut orphans, name);
                }
            },
            None => {
                assert(all[seen] is None);
                return Err(RetentionError::NonUtf8Artifact);
            },
        }
        proof {
            seen = seen + 1;
        }
    }
    assert(all.take(all.len() as int) =~= all);
    let ghost names = texts(orphans@);
    let mut paths: Vec<String> = Vec::new();
    let mut position: usize = 0;
    while position < orphans.len()
        invariant
            position <= orphans@.len(),
            paths@.len() == position,
            forall|i: int|
                0 <= i < position ==> (#[trigger] paths@[i])@ == path_join(
                    runs_directory@,
                    orphans@[i]@,
                ),
        decreases orphans@.len() - position,
    {
        paths.push(join_path(runs_directory, orphans[position].as_str()));
        position += 1;
    }
    assert(in_order(names));
    assert(texts(paths@) =~= names.map_values(
        |name: Seq<char>| path_join(runs_directory@, name),
    ));
    Ok(paths)
}

} // verus!
