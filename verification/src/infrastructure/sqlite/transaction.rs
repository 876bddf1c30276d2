//! Transactions: statements that are kept together or not at all.
use vstd::prelude::*;

use super::connection::{Connection, Statement};
use super::database::{write_fault, DatabaseFailure, StoreError};
use super::tables::Database;

verus! {

/// The statements that end a transaction: what failed is undone, and so is what could not be made
/// permanent.
pub open spec fn settlement(
    succeeded: bool,
    committed: Result<(), DatabaseFailure>,
) -> Seq<Statement> {
    if !succeeded {
        seq![Statement::Rollback]
    } else if committed is Ok {
        seq![Statement::Commit(committed)]
    } else {
        seq![Statement::Commit(committed), Statement::Rollback]
    }
}

/// The result of a transaction with the outcome of its writes: what was written holds only where it
/// was made permanent.
pub open spec fn settled<T>(
    outcome: Result<T, StoreError>,
    committed: Result<(), DatabaseFailure>,
    r: Result<T, StoreError>,
) -> bool {
    match outcome {
        Err(error) => r == Err::<T, StoreError>(error),
        Ok(value) => match committed {
            Ok(_) => r == Ok::<T, StoreError>(value),
            Err(failure) => r matches Err(error) && error@ == write_fault(failure),
        },
    }
}

/// A transaction: how it began, the connection once it began and once its statements were run, what
/// came of them, and how it was made permanent.
pub struct Transaction<D, T> {
    pub began: Result<(), DatabaseFailure>,
    pub opened: Connection<D>,
    pub closed: Connection<D>,
    pub outcome: Result<T, StoreError>,
    pub committed: Result<(), DatabaseFailure>,
}

impl<D: Database, T> Transaction<D, T> {
    /// The transaction led from one connection to the other, with this result. Beginning it is the
    /// first statement that is run, and settling it the last.
    pub open spec fn carried_out(
        self,
        before: Connection<D>,
        after: Connection<D>,
        r: Result<T, StoreError>,
    ) -> bool {
        &&& self.opened.ran(before, seq![Statement::Begin(self.began)])
        &&& match self.began {
            Err(failure) => {
                &&& after == self.opened
                &&& r matches Err(error) && error@ == write_fault(failure)
            },
            Ok(_) => {
                &&& after.ran(self.closed, settlement(self.outcome is Ok, self.committed))
                &&& settled(self.outcome, self.committed, r)
            },
        }
    }
}

/// What a database keeps of statements, in their order: what is written in a transaction is kept
/// once that was made permanent, and what is written outside of one is kept at once. `pending` is
/// what an open transaction has written so far.
pub open spec fn kept(statements: Seq<Statement>, pending: Option<Seq<Statement>>) -> Seq<Statement>
    decreases statements.len(),
{
    if statements.len() == 0 {
        Seq::empty()
    } else {
        let rest = statements.skip(1);
        match statements[0] {
            Statement::Begin(Ok(_)) => kept(rest, Some(Seq::empty())),
            Statement::Begin(Err(_)) => kept(rest, pending),
            Statement::Commit(Ok(_)) => match pending {
                Some(written) => written + kept(rest, None),
                None => kept(rest, None),
            },
            Statement::Commit(Err(_)) => kept(rest, pending),
            Statement::Rollback => kept(rest, None),
            statement => match pending {
                Some(written) => kept(rest, Some(written.push(statement))),
                None => seq![statement] + kept(rest, None),
            },
        }
    }
}

/// None of the statements starts or ends a transaction.
pub open spec fn only_writes(statements: Seq<Statement>) -> bool {
    forall|i: int| 0 <= i < statements.len() ==> !(#[trigger] statements[i]).is_control()
}

proof fn lemma_kept_writes(writes: Seq<Statement>, ending: Seq<Statement>, written: Seq<Statement>)
    requires
        only_writes(writes),
    ensures
        kept(writes + ending, Some(written)) == kept(ending, Some(written + writes)),
    decreases writes.len(),
{
    if writes.len() == 0 {
        assert(writes + ending =~= ending);
        assert(written + writes =~= written);
    } else {
        let all = writes + ending;
        let rest = writes.skip(1);
        assert(!writes[0].is_control());
        assert(all[0] == writes[0]);
        assert(all.skip(1) =~= rest + ending);
        assert forall|i: int| 0 <= i < rest.len() implies !(#[trigger] rest[i]).is_control() by {
            assert(rest[i] == writes[i + 1]);
        }
        lemma_kept_writes(rest, ending, written.push(writes[0]));
        assert(written.push(writes[0]) + rest =~= written + writes);
    }
}

/// A transaction keeps all that it wrote, or nothing: all where it succeeded, nothing where it
/// failed.
pub proof fn lemma_transaction_is_all_or_nothing<D: Database, T>(
    transaction: Transaction<D, T>,
    before: Connection<D>,
    after: Connection<D>,
    writes: Seq<Statement>,
    r: Result<T, StoreError>,
)
    requires
        transaction.carried_out(before, after, r),
        transaction.began is Ok ==> transaction.closed.ran(transaction.opened, writes),
        only_writes(writes),
    ensures
        exists|statements: Seq<Statement>|
            {
                &&& #[trigger] after.ran(before, statements)
                &&& kept(statements, None) == if r is Ok {
                    writes
                } else {
                    Seq::empty()
                }
            },
{
    let first = seq![Statement::Begin(transaction.began)];
    reveal_with_fuel(kept, 3);
    if transaction.began is Err {
        assert(first.skip(1) =~= Seq::<Statement>::empty());
        assert(after.ran(before, first));
        assert(kept(first, None) =~= Seq::<Statement>::empty());
    } else {
        let ending = settlement(transaction.outcome is Ok, transaction.committed);
        super::connection::lemma_ran_both(
            before,
            transaction.opened,
            transaction.closed,
            first,
            writes,
        );
        super::connection::lemma_ran_both(
            before,
            transaction.closed,
            after,
            first + writes,
            ending,
        );
        let all = first + writes + ending;
        assert(all.skip(1) =~= writes + ending);
        lemma_kept_writes(writes, ending, Seq::empty());
        assert(Seq::<Statement>::empty() + writes =~= writes);
        assert(ending.skip(1).len() == ending.len() - 1);
        if ending.len() == 2 {
            assert(ending.skip(1)[0] == Statement::Rollback);
            assert(ending.skip(1).skip(1) =~= Seq::<Statement>::empty());
        } else {
            assert(ending.skip(1) =~= Seq::<Statement>::empty());
        }
        assert(kept(ending, Some(writes)) =~= if r is Ok {
            writes
        } else {
            Seq::empty()
        });
        assert(after.ran(before, all));
    }
}

} // verus!
