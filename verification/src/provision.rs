//! The provisioner: it sees to it that a derived account is allocated before
//! the account is used.
//!
//! An account that holds no value is cold. For a cold account the provisioner
//! asks the host for the rent of the size it needs, and then asks the system
//! program to allocate the account: with exactly that size, funded by the
//! payer, owned by this program, and signed for with the account's seeds and
//! nonce. For any other account it asks nothing.

use crate::address::{DerivedAddress, DerivedAddressView, Identity};
use crate::ledger::{Account, AccountView, Invocation, InvocationView, Request, Stage, Step, StepView};
use crate::programs::{create_account, create_account_instruction};
use vstd::prelude::*;

verus! {

/// What the provisioner asks first for `account`: the rent of `space` bytes
/// where the account is cold, nothing where it is not.
pub open spec fn rent_request(account: AccountView, space: u64, stage: Stage) -> Option<StepView> {
    if account.is_cold() {
        Some(StepView::rent(stage, space))
    } else {
        None
    }
}

/// The allocation of `target`: `space` bytes, funded with `lamports` by
/// `payer`, owned by `program_id`, signed for by `authority`.
pub open spec fn allocation(
    payer: Seq<u8>,
    target: Seq<u8>,
    lamports: u64,
    space: u64,
    program_id: Seq<u8>,
    authority: DerivedAddressView,
    accounts: Seq<usize>,
) -> InvocationView {
    InvocationView {
        instruction: create_account_instruction(payer, target, lamports, space, program_id),
        accounts,
        signer_seeds: authority.signer_seeds(),
    }
}

/// The account after the provisioner has seen to it and the ledger has done
/// what was asked: allocated where it was cold, untouched where it was not.
pub open spec fn provisioned(account: AccountView, lamports: u64, space: nat, owner: Seq<u8>) -> AccountView {
    if account.is_cold() {
        account.allocated(lamports, space, owner)
    } else {
        account
    }
}

/// Asks for the rent of `space` bytes where `account` is cold.
pub fn request_rent(account: &Account, space: u64, stage: Stage) -> (out: Option<Step>)
    ensures
        match out {
            Some(step) => rent_request(account@, space, stage) == Some(step@),
            None => rent_request(account@, space, stage) is None,
        },
{
    if account.is_cold() {
        Some(Step::Pending { stage, request: Request::Rent { space } })
    } else {
        None
    }
}

/// Builds the allocation of `target`.
pub fn allocate(
    payer: &Identity,
    target: &Identity,
    lamports: u64,
    space: u64,
    program_id: &Identity,
    authority: &DerivedAddress,
    accounts: Vec<usize>,
) -> (out: Invocation)
    ensures
        out@ == allocation(payer@, target@, lamports, space, program_id@, authority@, accounts@),
{
    Invocation {
        instruction: create_account(payer, target, lamports, space, program_id),
        accounts,
        signer_seeds: authority.signer_seeds(),
    }
}

/// Provisioning twice is provisioning once: on an account that has been
/// provisioned and funded the provisioner asks nothing, and the account stays
/// as the first time left it.
pub proof fn lemma_provisioning_is_idempotent(
    account: AccountView,
    lamports: u64,
    space: nat,
    owner: Seq<u8>,
    stage: Stage,
)
    requires
        lamports > 0,
    ensures
        rent_request(provisioned(account, lamports, space, owner), space as u64, stage) is None,
        provisioned(provisioned(account, lamports, space, owner), lamports, space, owner)
            == provisioned(account, lamports, space, owner),
{
}

} // verus!
