//! The books over many calls: what every depositor has staked, and what the
//! vault holds.
//!
//! Between calls the vault's amount is the sum of all stakes. A deposit adds
//! its amount to one record and to the vault, a withdrawal takes it from
//! both, and a call that fails changes neither.

use crate::codec::patched;
use crate::instructions::stake::{deposit, deposit_settled};
use crate::instructions::withdrew::{withdrawal, withdrawal_settled};
use crate::instructions::{record_of, vault_of, OWNER, RECORD, TRANSFER_ACCOUNTS, VAULT};
use crate::ledger::AccountView;
use crate::state::{
    lemma_liquidity_round_trip, lemma_users_bytes_round_trip, lemma_users_view_round_trip,
    Liquidity, UsersView,
};
use vstd::prelude::*;

verus! {

/// The records of all depositors and the vault's record, as they stand
/// between two calls.
pub struct Books {
    pub records: Seq<UsersView>,
    pub vault: Liquidity,
}

/// A call that moves tokens. `depositor` is the place of the depositor's
/// record in the books.
pub enum Call {
    Stake { depositor: int, owner: Seq<u8>, amount: u64 },
    Withdraw { depositor: int, amount: u64 },
}

/// The sum of what the records hold as staked.
pub open spec fn total_staked(records: Seq<UsersView>) -> int
    decreases records.len(),
{
    if records.len() == 0 {
        0
    } else {
        total_staked(records.drop_last()) + records.last().total_staked_ab
    }
}

impl Books {
    /// The vault holds exactly what the depositors have staked.
    pub open spec fn balanced(self) -> bool {
        self.vault.amount == total_staked(self.records)
    }

    /// The books after `call`. A deposit is booked in the depositor's record
    /// and in the vault, a withdrawal likewise; a call that a handler refuses,
    /// or that names no record, leaves the books as they are.
    pub open spec fn after(self, call: Call) -> Books {
        match call {
            Call::Stake { depositor, owner, amount } => {
                if 0 <= depositor < self.records.len() {
                    match (
                        self.records[depositor].staked(owner, amount),
                        self.vault.deposited(amount),
                    ) {
                        (Some(record), Some(vault)) => Books {
                            records: self.records.update(depositor, record),
                            vault,
                        },
                        _ => self,
                    }
                } else {
                    self
                }
            },
            Call::Withdraw { depositor, amount } => {
                if 0 <= depositor < self.records.len() {
                    match (
                        self.records[depositor].withdrawn(amount),
                        self.vault.withdrawn(amount),
                    ) {
                        (Some(record), Some(vault)) => Books {
                            records: self.records.update(depositor, record),
                            vault,
                        },
                        _ => self,
                    }
                } else {
                    self
                }
            },
        }
    }

    /// The books after all of `calls`, in their order.
    pub open spec fn after_all(self, calls: Seq<Call>) -> Books
        decreases calls.len(),
    {
        if calls.len() == 0 {
            self
        } else {
            self.after_all(calls.drop_last()).after(calls.last())
        }
    }
}

/// Replacing one record changes the sum by the difference of the two stakes.
pub proof fn lemma_total_after_update(records: Seq<UsersView>, place: int, record: UsersView)
    requires
        0 <= place < records.len(),
    ensures
        total_staked(records.update(place, record)) == total_staked(records)
            - records[place].total_staked_ab + record.total_staked_ab,
    decreases records.len(),
{
    let updated = records.update(place, record);
    if place == records.len() - 1 {
        assert(updated.drop_last() =~= records.drop_last());
    } else {
        lemma_total_after_update(records.drop_last(), place, record);
        assert(updated.drop_last() =~= records.drop_last().update(place, record));
    }
}

/// Records that hold nothing sum to nothing: books in which nobody has
/// staked and the vault is empty are balanced.
pub proof fn lemma_fresh_books_are_balanced(books: Books)
    requires
        books.vault.amount == 0,
        forall|i: int| 0 <= i < books.records.len() ==> books.records[i].total_staked_ab == 0,
    ensures
        books.balanced(),
    decreases books.records.len(),
{
    if books.records.len() > 0 {
        lemma_fresh_books_are_balanced(
            Books { records: books.records.drop_last(), vault: books.vault },
        );
    }
}

/// One call keeps balanced books balanced.
pub proof fn lemma_call_keeps_balance(books: Books, call: Call)
    requires
        books.balanced(),
    ensures
        books.after(call).balanced(),
{
    match call {
        Call::Stake { depositor, owner, amount } => {
            if 0 <= depositor < books.records.len() {
                match (books.records[depositor].staked(owner, amount), books.vault.deposited(amount)) {
                    (Some(record), Some(_)) => {
                        lemma_total_after_update(books.records, depositor, record);
                    },
                    _ => {},
                }
            }
        },
        Call::Withdraw { depositor, amount } => {
            if 0 <= depositor < books.records.len() {
                match (books.records[depositor].withdrawn(amount), books.vault.withdrawn(amount)) {
                    (Some(record), Some(_)) => {
                        lemma_total_after_update(books.records, depositor, record);
                    },
                    _ => {},
                }
            }
        },
    }
}

/// Whatever deposits and withdrawals are made against one vault, in whatever
/// order, the vault's amount is the sum of all stakes after each of them.
pub proof fn lemma_vault_matches_stakes(books: Books, calls: Seq<Call>)
    requires
        books.balanced(),
    ensures
        books.after_all(calls).balanced(),
        forall|n: int| 0 <= n <= calls.len() ==> #[trigger] books.after_all(calls.take(n)).balanced(),
    decreases calls.len(),
{
    if calls.len() > 0 {
        lemma_vault_matches_stakes(books, calls.drop_last());
        lemma_call_keeps_balance(books.after_all(calls.drop_last()), calls.last());
    }
    assert forall|n: int| 0 <= n <= calls.len() implies #[trigger] books.after_all(
        calls.take(n),
    ).balanced() by {
        if n == calls.len() {
            assert(calls.take(n) =~= calls);
        } else {
            assert(calls.take(n) =~= calls.drop_last().take(n));
        }
    }
}

/// A deposit that a handler books is the deposit of the books: the record
/// and the vault that it writes are those that `Books::after` holds, and
/// they are what is read from the accounts afterwards.
pub proof fn lemma_deposit_is_booked(accounts: Seq<AccountView>, amount: u64)
    requires
        accounts.len() >= TRANSFER_ACCOUNTS,
        accounts[OWNER as int].key.len() == 32,
        deposit(accounts, amount) is Ok,
    ensures
        ({
            let record = record_of(accounts[RECORD as int].data).unwrap();
            let vault = vault_of(accounts[VAULT as int].data).unwrap();
            let owner = accounts[OWNER as int].key;
            let after = deposit_settled(accounts, amount).1;
            let books = Books { records: seq![record], vault };
            let booked = books.after(Call::Stake { depositor: 0, owner, amount });
            &&& record_of(after[RECORD as int].data) == Some(booked.records[0])
            &&& vault_of(after[VAULT as int].data) == Some(booked.vault)
        }),
{
    let (record, vault) = deposit(accounts, amount).unwrap();
    lemma_written_records_read_back(accounts, record, vault);
}

/// A withdrawal that a handler books is the withdrawal of the books.
pub proof fn lemma_withdrawal_is_booked(accounts: Seq<AccountView>, amount: u64)
    requires
        accounts.len() >= TRANSFER_ACCOUNTS,
        withdrawal(accounts, amount) is Ok,
    ensures
        ({
            let record = record_of(accounts[RECORD as int].data).unwrap();
            let vault = vault_of(accounts[VAULT as int].data).unwrap();
            let after = withdrawal_settled(accounts, amount).1;
            let books = Books { records: seq![record], vault };
            let booked = books.after(Call::Withdraw { depositor: 0, amount });
            &&& record_of(after[RECORD as int].data) == Some(booked.records[0])
            &&& vault_of(after[VAULT as int].data) == Some(booked.vault)
        }),
{
    let (record, vault) = withdrawal(accounts, amount).unwrap();
    lemma_users_bytes_round_trip(accounts[RECORD as int].data.subrange(0, 89));
    lemma_written_records_read_back(accounts, record, vault);
}

/// Records written at the start of the two accounts are read from them
/// again.
proof fn lemma_written_records_read_back(
    accounts: Seq<AccountView>,
    record: UsersView,
    vault: Liquidity,
)
    requires
        accounts.len() >= TRANSFER_ACCOUNTS,
        accounts[RECORD as int].data.len() >= 89,
        accounts[VAULT as int].data.len() >= 8,
        record.wf(),
    ensures
        record_of(patched(accounts[RECORD as int].data, 0, record.encoded())) == Some(record),
        vault_of(patched(accounts[VAULT as int].data, 0, vault.encoded())) == Some(vault),
{
    lemma_users_view_round_trip(record);
    lemma_liquidity_round_trip(vault, Seq::empty());
    let written = patched(accounts[RECORD as int].data, 0, record.encoded());
    assert(written.subrange(0, 89) =~= record.encoded());
    let held = patched(accounts[VAULT as int].data, 0, vault.encoded());
    assert(held.subrange(0, 8) =~= vault.encoded());
}

} // verus!
