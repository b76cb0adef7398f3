//! The three calls that the program takes, each as a step function.
//!
//! A call's accounts come in a fixed order. A stake and a withdrawal take the
//! same eleven; an initialization takes three of its own.

pub mod initialize;
pub mod stake;
pub mod withdrew;

use crate::codec::{copy_range, patch, patched};
use crate::ledger::{Account, AccountView};
use crate::state::{Liquidity, OwnableAccount, OwnableAccountView, Users, UsersView};
use vstd::prelude::*;

verus! {

/// The token type. A withdrawal does not read it.
pub const MINT: usize = 0;

/// The depositor's account, which holds the stake record.
pub const RECORD: usize = 1;

/// The vault's account.
pub const VAULT: usize = 2;

/// The token account that the tokens leave.
pub const SOURCE: usize = 3;

/// The token account that the tokens reach.
pub const DESTINATION: usize = 4;

/// The depositor.
pub const OWNER: usize = 5;

/// The recipient. A withdrawal does not read it.
pub const RECIPIENT: usize = 6;

/// The account that pays for allocations.
pub const PAYER: usize = 7;

/// The system program.
pub const SYSTEM_PROGRAM: usize = 8;

/// The token program.
pub const TOKEN_PROGRAM: usize = 9;

/// The associated-token-account program.
pub const ASSOCIATED_TOKEN_PROGRAM: usize = 10;

/// The number of accounts that a stake or a withdrawal takes.
pub const TRANSFER_ACCOUNTS: usize = 11;

/// The bytes that a deposit asks for when it allocates a depositor's account:
/// room for the stake record.
pub const RECORD_SPACE: u64 = 89;

/// The bytes of the vault's account: room for the vault's record.
pub const VAULT_SPACE: u64 = 8;

/// Where the registration flag starts in a depositor's account: behind the
/// stake record.
pub const FLAG_OFFSET: usize = 89;

/// The stake record in an account's bytes: it fills the first 89 of them.
pub open spec fn record_of(data: Seq<u8>) -> Option<UsersView> {
    if data.len() >= Users::SIZE {
        UsersView::decoded(data.subrange(0, Users::SIZE as int))
    } else {
        None
    }
}

/// The vault's record in an account's bytes: it fills the first 8 of them.
pub open spec fn vault_of(data: Seq<u8>) -> Option<Liquidity> {
    if data.len() >= Liquidity::SIZE {
        Liquidity::decoded(data.subrange(0, Liquidity::SIZE as int))
    } else {
        None
    }
}

/// The registration flag in an account's bytes. 50 bytes are set aside for
/// it behind the stake record, and it fills the first 33 of them.
pub open spec fn flag_of(data: Seq<u8>) -> Option<OwnableAccountView> {
    if data.len() >= FLAG_OFFSET + OwnableAccount::SIZE {
        OwnableAccountView::decoded(
            data.subrange(FLAG_OFFSET as int, FLAG_OFFSET + OwnableAccount::PACKED_LEN),
        )
    } else {
        None
    }
}

/// The accounts with other bytes in the account at `position`.
pub open spec fn with_data_at(accounts: Seq<AccountView>, position: int, data: Seq<u8>) -> Seq<
    AccountView,
> {
    accounts.update(position, accounts[position].with_data(data))
}

/// Reads the stake record from an account.
pub fn read_record(account: &Account) -> (out: Option<Users>)
    ensures
        match out {
            Some(record) => record_of(account@.data) == Some(record@),
            None => record_of(account@.data) is None,
        },
{
    if account.data.len() < Users::SIZE {
        return None;
    }
    Users::try_from_slice(copy_range(account.data.as_slice(), 0, Users::SIZE).as_slice())
}

/// Reads the vault's record from an account.
pub fn read_vault(account: &Account) -> (out: Option<Liquidity>)
    ensures
        out == vault_of(account@.data),
{
    if account.data.len() < Liquidity::SIZE {
        return None;
    }
    Liquidity::try_from_slice(copy_range(account.data.as_slice(), 0, Liquidity::SIZE).as_slice())
}

/// Reads the registration flag from an account.
pub fn read_flag(account: &Account) -> (out: Option<OwnableAccount>)
    ensures
        match out {
            Some(flag) => flag_of(account@.data) == Some(flag@),
            None => flag_of(account@.data) is None,
        },
{
    if account.data.len() < FLAG_OFFSET + OwnableAccount::SIZE {
        return None;
    }
    OwnableAccount::try_from_slice(
        copy_range(
            account.data.as_slice(),
            FLAG_OFFSET,
            FLAG_OFFSET + OwnableAccount::PACKED_LEN,
        ).as_slice(),
    )
}

/// Writes `bytes` at `offset` into the account at `position`. Nothing else
/// changes: not the account's other bytes, and no other account.
pub(crate) fn write_at(accounts: &mut Vec<Account>, position: usize, offset: usize, bytes: &Vec<u8>)
    requires
        position < old(accounts)@.len(),
        offset + bytes@.len() <= old(accounts)@[position as int].data@.len(),
    ensures
        final(accounts)@.len() == old(accounts)@.len(),
        final(accounts)@[position as int].data@.len() == old(accounts)@[position as int].data@.len(),
        final(accounts).deep_view() == with_data_at(
            old(accounts).deep_view(),
            position as int,
            patched(old(accounts)@[position as int].data@, offset as int, bytes@),
        ),
{
    let data = patch(accounts[position].data.as_slice(), offset, bytes.as_slice());
    let account = accounts[position].with_data(data);
    accounts[position] = account;
    assert(accounts.deep_view() =~= with_data_at(
        old(accounts).deep_view(),
        position as int,
        patched(old(accounts)@[position as int].data@, offset as int, bytes@),
    ));
}

} // verus!
