//! Registering a depositor.
//!
//! The initiator must have signed, and the account must be the one derived
//! for the initiator. It holds the stake record and, behind it, the
//! registration flag. Registration allocates the account where it is cold,
//! and then marks it: the record's counter moves on, the referral fields and
//! the flag name the initiator. An account whose flag is set is refused, and
//! the check is made before anything is written, so a second registration of
//! the same account fails and changes nothing.

use crate::address::{derived_view, DerivedAddress, DerivedAddressView, Identity};
use crate::codec::patched;
use crate::error::{EscrowError, Failure};
use crate::instructions::{flag_of, read_flag, read_record, record_of, with_data_at, write_at, FLAG_OFFSET};
use crate::ledger::{Account, AccountView, InvocationView, Reply, Request, Stage, Step, StepView};
use crate::provision::{allocate, allocation, rent_request, request_rent};
use crate::state::{OwnableAccount, OwnableAccountView, Users};
use vstd::prelude::*;

verus! {

/// The identity that registers; it must have signed.
pub const INITIATOR: usize = 0;

/// The depositor's account.
pub const TARGET: usize = 1;

/// The system program, which allocates.
pub const ALLOCATOR: usize = 2;

/// The number of accounts that an initialization takes.
pub const INITIALIZE_ACCOUNTS: usize = 3;

/// The bytes of a depositor's account with room for the stake record and
/// for the registration flag.
pub const REGISTRATION_SPACE: u64 = 139;

/// The step once the account exists: an account that is registered is
/// refused; any other is marked for the initiator.
pub open spec fn registration(accounts: Seq<AccountView>) -> (StepView, Seq<AccountView>) {
    let data = accounts[TARGET as int].data;
    let initiator = accounts[INITIATOR as int].key;
    match (record_of(data), flag_of(data)) {
        (Some(record), Some(flag)) => if flag.is_initialize {
            (StepView::fail(Failure::Escrow(EscrowError::AccountAlreadyInitialized)), accounts)
        } else {
            (
                StepView::Done(Ok(())),
                with_data_at(
                    accounts,
                    TARGET as int,
                    patched(
                        patched(data, 0, record.registered(initiator).encoded()),
                        FLAG_OFFSET as int,
                        OwnableAccountView::claimed(initiator).encoded(),
                    ),
                ),
            )
        },
        _ => (StepView::fail(Failure::InvalidAccountData), accounts),
    }
}

/// The allocation of the depositor's account, paid by the initiator.
pub open spec fn registration_allocation(
    program_id: Seq<u8>,
    accounts: Seq<AccountView>,
    lamports: u64,
    authority: DerivedAddressView,
) -> InvocationView {
    allocation(
        accounts[INITIATOR as int].key,
        accounts[TARGET as int].key,
        lamports,
        REGISTRATION_SPACE,
        program_id,
        authority,
        seq![TARGET, INITIATOR, ALLOCATOR],
    )
}

/// The step that follows the host's answer at `stage`.
pub open spec fn registration_resumed(
    program_id: Seq<u8>,
    accounts: Seq<AccountView>,
    stage: Stage,
    reply: Reply,
    authority: DerivedAddressView,
) -> (StepView, Seq<AccountView>) {
    match (stage, reply) {
        (Stage::Start, _) => match rent_request(
            accounts[TARGET as int],
            REGISTRATION_SPACE,
            Stage::RecordRent,
        ) {
            Some(step) => (step, accounts),
            None => registration(accounts),
        },
        (_, Reply::Failed(code)) => (StepView::fail(Failure::Outside(code)), accounts),
        (Stage::RecordRent, Reply::Rent(lamports)) => (
            StepView::invoke(
                Stage::RecordAccount,
                registration_allocation(program_id, accounts, lamports, authority),
            ),
            accounts,
        ),
        (Stage::RecordAccount, Reply::Completed) => registration(accounts),
        _ => (StepView::fail(Failure::UnexpectedReply), accounts),
    }
}

/// One step of an initialization: the step to answer with, and the accounts
/// as the step leaves them.
pub open spec fn spec_initialize_step(
    program_id: Seq<u8>,
    accounts: Seq<AccountView>,
    stage: Stage,
    reply: Reply,
    authority: Option<DerivedAddressView>,
) -> (StepView, Seq<AccountView>) {
    if accounts.len() < INITIALIZE_ACCOUNTS {
        (StepView::fail(Failure::NotEnoughAccountKeys), accounts)
    } else if !accounts[INITIATOR as int].is_signer {
        (StepView::fail(Failure::Escrow(EscrowError::MissingSignature)), accounts)
    } else {
        match authority {
            None => (StepView::fail(Failure::NoProgramAddress), accounts),
            Some(authority) => if accounts[TARGET as int].key == authority.address {
                registration_resumed(program_id, accounts, stage, reply, authority)
            } else {
                (StepView::fail(Failure::Escrow(EscrowError::OfferKeyMismatch)), accounts)
            },
        }
    }
}

/// The derived address that an initialization signs for: that of the
/// initiator's account.
pub open spec fn spec_initialize_authority(program_id: Seq<u8>, accounts: Seq<AccountView>) -> Option<
    DerivedAddressView,
> {
    if accounts.len() < INITIALIZE_ACCOUNTS {
        None
    } else {
        Users::spec_authority(program_id, accounts[INITIATOR as int].key)
    }
}

/// Marks the depositor's account for the initiator, unless it is marked.
fn register(accounts: &mut Vec<Account>) -> (out: Step)
    requires
        old(accounts)@.len() >= INITIALIZE_ACCOUNTS,
    ensures
        (out@, final(accounts).deep_view()) == registration(old(accounts).deep_view()),
{
    let flag = match read_flag(&accounts[TARGET]) {
        Some(flag) => flag,
        None => return Step::Done(Err(Failure::InvalidAccountData)),
    };
    let mut record = match read_record(&accounts[TARGET]) {
        Some(record) => record,
        None => return Step::Done(Err(Failure::InvalidAccountData)),
    };
    if flag.is_initialize {
        return Step::Done(Err(Failure::Escrow(EscrowError::AccountAlreadyInitialized)));
    }
    let initiator = accounts[INITIATOR].key;
    record.register(&initiator);
    let claimed = OwnableAccount::claim(&initiator);
    proof {
        crate::state::lemma_users_round_trip(record);
        crate::state::lemma_ownable_round_trip(claimed);
    }
    write_at(accounts, TARGET, 0, &record.to_bytes());
    write_at(accounts, TARGET, FLAG_OFFSET, &claimed.to_bytes());
    assert(accounts.deep_view() =~= registration(old(accounts).deep_view()).1);
    Step::Done(Ok(()))
}

/// One step of an initialization, with the derived address handed in.
///
/// The initiator must have signed, and the account must stand at the address
/// derived for the initiator, else the step fails with `OfferKeyMismatch`.
/// Called at `Stage::Start` the step asks for the rent of the depositor's account where the account is cold, and
/// registers at once where it is not. Called at `Stage::RecordRent` with the
/// rent it asks for the allocation; called at `Stage::RecordAccount` with
/// `Reply::Completed` it registers. An account that is registered already
/// fails with `AccountAlreadyInitialized`. The accounts change only where
/// the call ends in success.
pub fn initialize_step(
    program_id: &Identity,
    accounts: &mut Vec<Account>,
    stage: Stage,
    reply: Reply,
    authority: Option<DerivedAddress>,
) -> (out: Step)
    ensures
        (out@, final(accounts).deep_view()) == spec_initialize_step(
            program_id@,
            old(accounts).deep_view(),
            stage,
            reply,
            derived_view(authority),
        ),
{
    if accounts.len() < INITIALIZE_ACCOUNTS {
        return Step::Done(Err(Failure::NotEnoughAccountKeys));
    }
    if !accounts[INITIATOR].is_signer {
        return Step::Done(Err(Failure::Escrow(EscrowError::MissingSignature)));
    }
    let authority = match authority {
        Some(authority) => authority,
        None => return Step::Done(Err(Failure::NoProgramAddress)),
    };
    if !accounts[TARGET].key.same(&authority.address) {
        return Step::Done(Err(Failure::Escrow(EscrowError::OfferKeyMismatch)));
    }
    match stage {
        Stage::Start => match request_rent(&accounts[TARGET], REGISTRATION_SPACE, Stage::RecordRent) {
            Some(step) => step,
            None => register(accounts),
        },
        _ => match reply {
            Reply::Failed(code) => Step::Done(Err(Failure::Outside(code))),
            Reply::Rent(lamports) => match stage {
                Stage::RecordRent => {
                    let mut handed: Vec<usize> = Vec::new();
                    handed.push(TARGET);
                    handed.push(INITIATOR);
                    handed.push(ALLOCATOR);
                    assert(handed@ =~= seq![TARGET, INITIATOR, ALLOCATOR]);
                    Step::Pending {
                        stage: Stage::RecordAccount,
                        request: Request::Invoke(
                            allocate(
                                &accounts[INITIATOR].key,
                                &accounts[TARGET].key,
                                lamports,
                                REGISTRATION_SPACE,
                                program_id,
                                &authority,
                                handed,
                            ),
                        ),
                    }
                },
                _ => Step::Done(Err(Failure::UnexpectedReply)),
            },
            Reply::Completed => match stage {
                Stage::RecordAccount => register(accounts),
                _ => Step::Done(Err(Failure::UnexpectedReply)),
            },
        },
    }
}

/// One step of an initialization.
///
/// Derives the address of the initiator's account under `program_id` and
/// takes the step that `initialize_step` describes.
pub fn initialize(program_id: &Identity, accounts: &mut Vec<Account>, stage: Stage, reply: Reply) -> (out:
    Step)
    ensures
        (out@, final(accounts).deep_view()) == spec_initialize_step(
            program_id@,
            old(accounts).deep_view(),
            stage,
            reply,
            spec_initialize_authority(program_id@, old(accounts).deep_view()),
        ),
{
    let authority = if accounts.len() < INITIALIZE_ACCOUNTS {
        None
    } else {
        Users::authority(program_id, &accounts[INITIATOR].key)
    };
    initialize_step(program_id, accounts, stage, reply, authority)
}

/// Once an account has been registered, registering it again fails with
/// `AccountAlreadyInitialized` and changes nothing.
pub proof fn lemma_registration_happens_once(accounts: Seq<AccountView>)
    requires
        accounts.len() >= INITIALIZE_ACCOUNTS,
        accounts[INITIATOR as int].key.len() == 32,
        registration(accounts).0 == StepView::Done(Ok(())),
    ensures
        registration(registration(accounts).1) == (
            StepView::fail(Failure::Escrow(EscrowError::AccountAlreadyInitialized)),
            registration(accounts).1,
        ),
{
    let data = accounts[TARGET as int].data;
    let initiator = accounts[INITIATOR as int].key;
    let record = record_of(data).unwrap();
    let claimed = OwnableAccountView::claimed(initiator);
    crate::state::lemma_users_bytes_round_trip(data.subrange(0, 89));
    crate::state::lemma_users_view_round_trip(record.registered(initiator));
    crate::state::lemma_ownable_view_round_trip(claimed);
    let once = patched(data, 0, record.registered(initiator).encoded());
    let twice = patched(once, FLAG_OFFSET as int, claimed.encoded());
    assert(twice.subrange(89, 122) =~= claimed.encoded());
    assert(twice.subrange(0, 89) =~= record.registered(initiator).encoded());
    assert(registration(accounts).1[TARGET as int].data == twice);
}

/// A step of an initialization changes the accounts only where it ends the
/// call in success.
pub proof fn lemma_registration_writes_on_success_only(
    program_id: Seq<u8>,
    accounts: Seq<AccountView>,
    stage: Stage,
    reply: Reply,
    authority: Option<DerivedAddressView>,
)
    ensures
        spec_initialize_step(program_id, accounts, stage, reply, authority).0 != StepView::Done(
            Ok(()),
        ) ==> spec_initialize_step(program_id, accounts, stage, reply, authority).1 == accounts,
{
}

} // verus!
