//! How long ended runs and jobs are kept, and what is swept up.
use crate::domain::id::{id_text, RunId};
use crate::domain::primitives::UtcTimestamp;
use crate::infrastructure::sqlite::connection::Statement;
use crate::infrastructure::sqlite::database::{StoreError, StoreFault};
use crate::infrastructure::sqlite::job_store::JobStore;
use crate::infrastructure::sqlite::retention::{
    cleanup_outcome, cutoff, discover_orphan_artifacts, in_order, is_known,
    lemma_cleanup_is_all_or_nothing, orphan_names, CleanupAnswers, RetentionError, RetentionPolicy,
    RetentionReport,
};
use crate::infrastructure::sqlite::tables::Database;
use crate::infrastructure::sqlite::transaction::{kept, Transaction};
use crate::outside::timestamp_text;
use crate::path_text::path_join;
use crate::text::texts;
use vstd::prelude::*;
use vstd::seq_lib::group_to_multiset_ensures;

verus! {

broadcast use vstd::seq::group_seq_axioms;

/// The instant so many times 24 hours before another.
pub open spec fn earlier(now: int, days: int) -> int {
    now - days * 86_400_000_000_000
}

/// The instant lies between the years -9999 and 9999.
pub open spec fn in_calendar(nanos: int) -> bool {
    -377_705_023_201_000_000_000 <= nanos <= 253_402_207_200_999_999_999
}

/// The cutoff for some days lies exactly so many times 24 hours before now; it fails only where there
/// is no such instant. What ended later is not older than the cutoff.
pub proof fn lemma_cutoff_is_whole_days_back(
    now: UtcTimestamp,
    days: u16,
    r: Result<String, StoreError>,
    ended: int,
)
    requires
        call_ensures(cutoff, (now, days), r),
    ensures
        match r {
            Ok(text) => text@ == timestamp_text(earlier(now@, days as int)),
            Err(error) => !in_calendar(earlier(now@, days as int)) && error@ == StoreFault::Domain(
                "retention cutoff overflow"@,
            ),
        },
        in_calendar(earlier(now@, days as int)) ==> r is Ok,
        now@ - ended < days * 86_400_000_000_000 ==> ended > earlier(now@, days as int),
{
}

/// A cleanup that succeeds deletes runs and transitions that are older than the days for history, and
/// jobs that are older than the days for ended jobs, and nothing else; it reports how many went.
pub proof fn lemma_cleanup_deletes_only_what_is_older<D: Database>(
    before: JobStore<D>,
    after: JobStore<D>,
    now: UtcTimestamp,
    policy: RetentionPolicy,
    transaction: Transaction<D, RetentionReport>,
    answers: CleanupAnswers,
    report: RetentionReport,
)
    requires
        cleanup_outcome(
            before,
            after,
            now,
            policy,
            transaction,
            answers,
            Ok::<RetentionReport, StoreError>(report),
        ),
    ensures
        exists|statements: Seq<Statement>|
            {
                &&& #[trigger] after.connection.ran(before.connection, statements)
                &&& kept(statements, None) == seq![
                    Statement::DeleteOldRuns {
                        before: timestamp_text(earlier(now@, policy.spec_history_days() as int)),
                        answer: Ok(report.runs),
                    },
                    Statement::DeleteOldTransitions {
                        before: timestamp_text(earlier(now@, policy.spec_history_days() as int)),
                        answer: Ok(report.transitions),
                    },
                    Statement::DeleteOldJobs {
                        before: timestamp_text(
                            earlier(now@, policy.spec_terminal_job_days() as int),
                        ),
                        answer: Ok(report.jobs),
                    },
                ]
            },
{
    lemma_cleanup_is_all_or_nothing(
        before,
        after,
        now,
        policy,
        transaction,
        answers,
        Ok::<RetentionReport, StoreError>(report),
    );
}

/// Things are kept for one day at least and for 3650 days at most.
pub proof fn lemma_retention_is_bounded(
    history_days: u16,
    terminal_job_days: u16,
    r: Result<RetentionPolicy, RetentionError>,
)
    requires
        call_ensures(RetentionPolicy::new, (history_days, terminal_job_days), r),
    ensures
        match r {
            Ok(policy) => {
                &&& 1 <= history_days <= 3650 && 1 <= terminal_job_days <= 3650
                &&& policy.spec_history_days() == history_days
                &&& policy.spec_terminal_job_days() == terminal_job_days
            },
            Err(_) => !(1 <= history_days <= 3650 && 1 <= terminal_job_days <= 3650),
        },
{
}

proof fn lemma_orphan_names(entries: Seq<Option<String>>, known: Seq<RunId>, name: Seq<char>)
    ensures
        orphan_names(entries, known).contains(name) <==> !is_known(name, known) && exists|i: int|
            0 <= i < entries.len() && (#[trigger] entries[i]) is Some && entries[i]->0@ == name,
    decreases entries.len(),
{
    if entries.len() > 0 {
        let fewer = entries.drop_last();
        let rest = orphan_names(fewer, known);
        let all = orphan_names(entries, known);
        let last = entries.last();
        assert(entries[entries.len() - 1] == last);
        lemma_orphan_names(fewer, known, name);
        if exists|i: int|
            0 <= i < fewer.len() && (#[trigger] fewer[i]) is Some && fewer[i]->0@ == name {
            let i = choose|i: int|
                0 <= i < fewer.len() && (#[trigger] fewer[i]) is Some && fewer[i]->0@ == name;
            assert(entries[i] == fewer[i]);
        }
        if exists|i: int|
            0 <= i < entries.len() && (#[trigger] entries[i]) is Some && entries[i]->0@ == name {
            let i = choose|i: int|
                0 <= i < entries.len() && (#[trigger] entries[i]) is Some && entries[i]->0@ == name;
            if i < fewer.len() {
                assert(fewer[i] == entries[i]);
            }
        }
        if last is Some && !is_known(last->0@, known) {
            assert(all == rest.push(last->0@));
            if rest.contains(name) {
                let k = choose|k: int| 0 <= k < rest.len() && rest[k] == name;
                assert(all[k] == name);
            }
            if last->0@ == name {
                assert(all[rest.len() as int] == name);
            }
            if all.contains(name) {
                let k = choose|k: int| 0 <= k < all.len() && all[k] == name;
                if k < rest.len() {
                    assert(rest[k] == name);
                }
            }
        }
    }
}

/// An artifact is swept up exactly where it belongs to no known run.
pub proof fn lemma_artifacts_of_known_runs_stay(
    runs_directory: &str,
    entries: Vec<Option<String>>,
    known_runs: &Vec<RunId>,
    paths: Vec<String>,
    path: Seq<char>,
)
    requires
        call_ensures(
            discover_orphan_artifacts,
            (runs_directory, entries, known_runs),
            Ok::<Vec<String>, RetentionError>(paths),
        ),
    ensures
        texts(paths@).contains(path) <==> exists|i: int|
            {
                &&& 0 <= i < entries@.len()
                &&& (#[trigger] entries@[i]) is Some
                &&& path == path_join(runs_directory@, entries@[i]->0@)
                &&& forall|k: int|
                    0 <= k < known_runs@.len() ==> entries@[i]->0@ != id_text(
                        #[trigger] known_runs@[k]@,
                    )
            },
{
    broadcast use group_to_multiset_ensures;

    let orphans = orphan_names(entries@, known_runs@);
    let names = choose|names: Seq<Seq<char>>|
        {
            &&& #[trigger] in_order(names)
            &&& names.to_multiset() == orphans.to_multiset()
            &&& texts(paths@) == names.map_values(
                |name: Seq<char>| path_join(runs_directory@, name),
            )
        };
    if texts(paths@).contains(path) {
        let k = choose|k: int| 0 <= k < texts(paths@).len() && texts(paths@)[k] == path;
        assert(path == path_join(runs_directory@, names[k]));
        assert(names.contains(names[k]));
        assert(orphans.to_multiset().count(names[k]) > 0);
        assert(orphans.contains(names[k]));
        lemma_orphan_names(entries@, known_runs@, names[k]);
    }
    if exists|i: int|
        {
            &&& 0 <= i < entries@.len()
            &&& (#[trigger] entries@[i]) is Some
            &&& path == path_join(runs_directory@, entries@[i]->0@)
            &&& forall|k: int|
                0 <= k < known_runs@.len() ==> entries@[i]->0@ != id_text(
                    #[trigger] known_runs@[k]@,
                )
        } {
        let i = choose|i: int|
            {
                &&& 0 <= i < entries@.len()
                &&& (#[trigger] entries@[i]) is Some
                &&& path == path_join(runs_directory@, entries@[i]->0@)
                &&& forall|k: int|
                    0 <= k < known_runs@.len() ==> entries@[i]->0@ != id_text(
                        #[trigger] known_runs@[k]@,
                    )
            };
        let name = entries@[i]->0@;
        lemma_orphan_names(entries@, known_runs@, name);
        assert(orphans.contains(name));
        assert(names.to_multiset().count(name) > 0);
        assert(names.contains(name));
        let k = choose|k: int| 0 <= k < names.len() && names[k] == name;
        assert(texts(paths@)[k] == path);
    }
}

} // verus!
