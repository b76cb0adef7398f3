//! Withdrawing from the vault.
//!
//! The depositor must have signed, and the two record accounts must be the
//! ones derived for the depositor and for the vault. A withdrawal is checked
//! against the depositor's stake and then against the vault; only then is the
//! transfer asked for, from the vault's token account to the depositor's,
//! signed for by the vault's derived address. The two records are debited
//! once the transfer has run. A call that fails leaves both as they were.
//!
//! An amount of zero is taken like any other: the transfer of nothing is
//! asked for, and the records are written as they were.

use crate::address::{DerivedAddress, DerivedAddressView, Identity};
use crate::error::{EscrowError, Failure};
use crate::instructions::{
    read_record, read_vault, record_of, vault_of, with_data_at, write_at, DESTINATION, OWNER,
    PAYER, RECORD, SOURCE, TOKEN_PROGRAM, TRANSFER_ACCOUNTS, VAULT,
};
use crate::codec::patched;
use crate::ledger::{
    Account, AccountView, Invocation, InvocationView, Reply, Request, Stage, Step, StepView,
};
use crate::programs::{token_program_id, transfer, transfer_instruction};
use crate::state::{Liquidity, Users, UsersView, WithdrawAmount};
use vstd::prelude::*;

verus! {

/// What a withdrawal needs of derived addresses.
#[derive(Debug)]
pub struct WithdrawAuthorities {
    /// The address of the depositor's account.
    pub record: DerivedAddress,
    /// The address of the vault's account.
    pub vault: DerivedAddress,
}

/// `WithdrawAuthorities` as plain values.
pub struct WithdrawAuthoritiesView {
    pub record: DerivedAddressView,
    pub vault: DerivedAddressView,
}

impl View for WithdrawAuthorities {
    type V = WithdrawAuthoritiesView;

    open spec fn view(&self) -> WithdrawAuthoritiesView {
        WithdrawAuthoritiesView { record: self.record@, vault: self.vault@ }
    }
}

/// The view of optional authorities.
pub open spec fn authorities_view(authorities: Option<WithdrawAuthorities>) -> Option<
    WithdrawAuthoritiesView,
> {
    match authorities {
        Some(a) => Some(a@),
        None => None,
    }
}

/// The authorities of a withdrawal under `program_id`: the depositor's
/// account is derived from the owner. There are none where one of the two
/// addresses cannot be derived, or where accounts are missing.
pub open spec fn spec_withdraw_authorities(program_id: Seq<u8>, accounts: Seq<AccountView>) -> Option<
    WithdrawAuthoritiesView,
> {
    if accounts.len() < TRANSFER_ACCOUNTS {
        None
    } else {
        match (
            Users::spec_authority(program_id, accounts[OWNER as int].key),
            Liquidity::spec_authority(program_id),
        ) {
            (Some(record), Some(vault)) => Some(WithdrawAuthoritiesView { record, vault }),
            _ => None,
        }
    }
}

/// The two records as a withdrawal of `amount` leaves them, or the reason
/// for which it is refused. The stake is checked first.
pub open spec fn withdrawal(accounts: Seq<AccountView>, amount: u64) -> Result<
    (UsersView, Liquidity),
    Failure,
> {
    match record_of(accounts[RECORD as int].data) {
        None => Err(Failure::InvalidAccountData),
        Some(record) => match record.withdrawn(amount) {
            None => Err(Failure::Escrow(EscrowError::InsufficientUserStake)),
            Some(record_after) => match vault_of(accounts[VAULT as int].data) {
                None => Err(Failure::InvalidAccountData),
                Some(vault) => match vault.withdrawn(amount) {
                    None => Err(Failure::Escrow(EscrowError::InsufficientVaultLiquidity)),
                    Some(vault_after) => Ok((record_after, vault_after)),
                },
            },
        },
    }
}

/// The transfer that a withdrawal asks for: `amount` from the vault's token
/// account to the depositor's, on the authority of the vault, with the vault
/// and the payer named as signers.
pub open spec fn withdrawal_transfer(
    accounts: Seq<AccountView>,
    amount: u64,
    authority: DerivedAddressView,
) -> InvocationView {
    InvocationView {
        instruction: transfer_instruction(
            accounts[TOKEN_PROGRAM as int].key,
            accounts[SOURCE as int].key,
            accounts[DESTINATION as int].key,
            accounts[VAULT as int].key,
            seq![accounts[VAULT as int].key, accounts[PAYER as int].key],
            amount,
        ),
        accounts: seq![SOURCE, DESTINATION, VAULT, PAYER, TOKEN_PROGRAM],
        signer_seeds: authority.signer_seeds(),
    }
}

/// The first step of a withdrawal: the checks, then the request to transfer.
pub open spec fn withdrawal_begun(
    accounts: Seq<AccountView>,
    amount: u64,
    vault: DerivedAddressView,
) -> StepView {
    match withdrawal(accounts, amount) {
        Err(failure) => StepView::fail(failure),
        Ok(_) => if accounts[TOKEN_PROGRAM as int].key == token_program_id() {
            StepView::invoke(Stage::Transfer, withdrawal_transfer(accounts, amount, vault))
        } else {
            StepView::fail(Failure::IncorrectProgramId)
        },
    }
}

/// The last step of a withdrawal, after the transfer has run: both records
/// are debited, or neither is.
pub open spec fn withdrawal_settled(accounts: Seq<AccountView>, amount: u64) -> (
    StepView,
    Seq<AccountView>,
) {
    match withdrawal(accounts, amount) {
        Err(failure) => (StepView::fail(failure), accounts),
        Ok((record, vault)) => (
            StepView::Done(Ok(())),
            with_data_at(
                with_data_at(
                    accounts,
                    RECORD as int,
                    patched(accounts[RECORD as int].data, 0, record.encoded()),
                ),
                VAULT as int,
                patched(accounts[VAULT as int].data, 0, vault.encoded()),
            ),
        ),
    }
}

/// The two record accounts are the ones derived for the depositor and for
/// the vault.
pub open spec fn records_are_derived(
    accounts: Seq<AccountView>,
    authorities: WithdrawAuthoritiesView,
) -> bool {
    accounts[RECORD as int].key == authorities.record.address && accounts[VAULT as int].key
        == authorities.vault.address
}

/// The step that follows the host's answer at `stage`.
pub open spec fn withdrawal_resumed(
    accounts: Seq<AccountView>,
    amount: u64,
    stage: Stage,
    reply: Reply,
    authorities: WithdrawAuthoritiesView,
) -> (StepView, Seq<AccountView>) {
    match stage {
        Stage::Start => (withdrawal_begun(accounts, amount, authorities.vault), accounts),
        Stage::Transfer => match reply {
            Reply::Completed => withdrawal_settled(accounts, amount),
            Reply::Failed(code) => (StepView::fail(Failure::Outside(code)), accounts),
            Reply::Rent(_) => (StepView::fail(Failure::UnexpectedReply), accounts),
        },
        _ => (StepView::fail(Failure::UnexpectedReply), accounts),
    }
}

/// One step of a withdrawal: the step to answer with, and the accounts as
/// the step leaves them.
pub open spec fn spec_withdraw_step(
    accounts: Seq<AccountView>,
    amount: u64,
    stage: Stage,
    reply: Reply,
    authorities: Option<WithdrawAuthoritiesView>,
) -> (StepView, Seq<AccountView>) {
    if accounts.len() < TRANSFER_ACCOUNTS {
        (StepView::fail(Failure::NotEnoughAccountKeys), accounts)
    } else if !accounts[OWNER as int].is_signer {
        (StepView::fail(Failure::Escrow(EscrowError::MissingSignature)), accounts)
    } else {
        match authorities {
            None => (StepView::fail(Failure::NoProgramAddress), accounts),
            Some(authorities) => if records_are_derived(accounts, authorities) {
                withdrawal_resumed(accounts, amount, stage, reply, authorities)
            } else {
                (StepView::fail(Failure::Escrow(EscrowError::OfferKeyMismatch)), accounts)
            },
        }
    }
}

/// Checks a withdrawal of `amount` and computes the two records after it.
fn check_withdrawal(accounts: &Vec<Account>, amount: u64) -> (out: Result<
    (Users, Liquidity),
    Failure,
>)
    requires
        accounts@.len() >= TRANSFER_ACCOUNTS,
    ensures
        match out {
            Ok((record, vault)) => withdrawal(accounts.deep_view(), amount) == Ok::<
                (UsersView, Liquidity),
                Failure,
            >((record@, vault)),
            Err(failure) => withdrawal(accounts.deep_view(), amount) == Err::<
                (UsersView, Liquidity),
                Failure,
            >(failure),
        },
{
    let mut record = match read_record(&accounts[RECORD]) {
        Some(record) => record,
        None => return Err(Failure::InvalidAccountData),
    };
    match record.withdraw(amount) {
        Ok(()) => {},
        Err(e) => return Err(Failure::Escrow(e)),
    }
    let mut vault = match read_vault(&accounts[VAULT]) {
        Some(vault) => vault,
        None => return Err(Failure::InvalidAccountData),
    };
    match vault.withdraw(amount) {
        Ok(()) => {},
        Err(e) => return Err(Failure::Escrow(e)),
    }
    Ok((record, vault))
}

/// One step of a withdrawal, with the derived addresses handed in.
///
/// The depositor must have signed, and the accounts of the record and of the
/// vault must stand at their derived addresses, else the step fails with
/// `OfferKeyMismatch`. Called at `Stage::Start` the step checks the
/// withdrawal: more than the depositor's stake fails with
/// `InsufficientUserStake`, else more than the vault holds fails with
/// `InsufficientVaultLiquidity`; a withdrawal that passes asks for the
/// transfer. Called at `Stage::Transfer` with `Reply::Completed` it checks
/// once more, on the accounts as they then stand, and debits both records;
/// with `Reply::Failed` it passes the failure on. The accounts change only
/// where the call ends in success.
pub fn withdraw_step(
    accounts: &mut Vec<Account>,
    data: WithdrawAmount,
    stage: Stage,
    reply: Reply,
    authorities: Option<WithdrawAuthorities>,
) -> (out: Step)
    ensures
        (out@, final(accounts).deep_view()) == spec_withdraw_step(
            old(accounts).deep_view(),
            data.amount,
            stage,
            reply,
            authorities_view(authorities),
        ),
{
    if accounts.len() < TRANSFER_ACCOUNTS {
        return Step::Done(Err(Failure::NotEnoughAccountKeys));
    }
    if !accounts[OWNER].is_signer {
        return Step::Done(Err(Failure::Escrow(EscrowError::MissingSignature)));
    }
    let authorities = match authorities {
        Some(authorities) => authorities,
        None => return Step::Done(Err(Failure::NoProgramAddress)),
    };
    if !accounts[RECORD].key.same(&authorities.record.address) || !accounts[VAULT].key.same(
        &authorities.vault.address,
    ) {
        return Step::Done(Err(Failure::Escrow(EscrowError::OfferKeyMismatch)));
    }
    match stage {
        Stage::Start => {
            match check_withdrawal(accounts, data.amount) {
                Err(failure) => return Step::Done(Err(failure)),
                Ok(_) => {},
            }
            let mut signers: Vec<Identity> = Vec::new();
            signers.push(accounts[VAULT].key);
            signers.push(accounts[PAYER].key);
            assert(signers.deep_view() =~= seq![
                accounts@[VAULT as int].key@,
                accounts@[PAYER as int].key@,
            ]);
            let instruction = match transfer(
                &accounts[TOKEN_PROGRAM].key,
                &accounts[SOURCE].key,
                &accounts[DESTINATION].key,
                &accounts[VAULT].key,
                &signers,
                data.amount,
            ) {
                Ok(instruction) => instruction,
                Err(_) => return Step::Done(Err(Failure::IncorrectProgramId)),
            };
            let mut handed: Vec<usize> = Vec::new();
            handed.push(SOURCE);
            handed.push(DESTINATION);
            handed.push(VAULT);
            handed.push(PAYER);
            handed.push(TOKEN_PROGRAM);
            assert(handed@ =~= seq![SOURCE, DESTINATION, VAULT, PAYER, TOKEN_PROGRAM]);
            Step::Pending {
                stage: Stage::Transfer,
                request: Request::Invoke(
                    Invocation {
                        instruction,
                        accounts: handed,
                        signer_seeds: authorities.vault.signer_seeds(),
                    },
                ),
            }
        },
        Stage::Transfer => match reply {
            Reply::Completed => {
                let (record, vault) = match check_withdrawal(accounts, data.amount) {
                    Ok(after) => after,
                    Err(failure) => return Step::Done(Err(failure)),
                };
                proof {
                    crate::state::lemma_users_round_trip(record);
                    crate::state::lemma_liquidity_round_trip(vault, Seq::empty());
                }
                write_at(accounts, RECORD, 0, &record.to_bytes());
                assert(accounts.deep_view()[VAULT as int] == old(accounts).deep_view()[VAULT as int]);
                write_at(accounts, VAULT, 0, &vault.to_bytes());
                Step::Done(Ok(()))
            },
            Reply::Failed(code) => Step::Done(Err(Failure::Outside(code))),
            Reply::Rent(_) => Step::Done(Err(Failure::UnexpectedReply)),
        },
        _ => Step::Done(Err(Failure::UnexpectedReply)),
    }
}

/// Derives what a withdrawal needs under `program_id`.
pub fn withdraw_authorities(program_id: &Identity, accounts: &Vec<Account>) -> (out: Option<
    WithdrawAuthorities,
>)
    ensures
        authorities_view(out) == spec_withdraw_authorities(program_id@, accounts.deep_view()),
{
    if accounts.len() < TRANSFER_ACCOUNTS {
        return None;
    }
    let record = Users::authority(program_id, &accounts[OWNER].key);
    let vault = Liquidity::authority(program_id);
    match (record, vault) {
        (Some(record), Some(vault)) => Some(WithdrawAuthorities { record, vault }),
        _ => None,
    }
}

/// One step of a withdrawal.
///
/// Derives the addresses under `program_id` and takes the step that
/// `withdraw_step` describes.
pub fn withdrew_user(
    program_id: &Identity,
    accounts: &mut Vec<Account>,
    data: WithdrawAmount,
    stage: Stage,
    reply: Reply,
) -> (out: Step)
    ensures
        (out@, final(accounts).deep_view()) == spec_withdraw_step(
            old(accounts).deep_view(),
            data.amount,
            stage,
            reply,
            spec_withdraw_authorities(program_id@, old(accounts).deep_view()),
        ),
{
    let authorities = withdraw_authorities(program_id, accounts);
    withdraw_step(accounts, data, stage, reply, authorities)
}

/// A call is well formed where it hands in all its accounts, the depositor
/// has signed, and the two record accounts stand at their derived addresses.
pub open spec fn well_formed(accounts: Seq<AccountView>, authorities: WithdrawAuthoritiesView) -> bool {
    &&& accounts.len() >= TRANSFER_ACCOUNTS
    &&& accounts[OWNER as int].is_signer
    &&& records_are_derived(accounts, authorities)
}

/// A withdrawal of more than the depositor's stake fails with
/// `InsufficientUserStake`, whatever the vault holds; and it changes no
/// account, however the call is made.
pub proof fn lemma_withdrawal_beyond_stake_fails(
    accounts: Seq<AccountView>,
    amount: u64,
    stage: Stage,
    reply: Reply,
    authorities: Option<WithdrawAuthoritiesView>,
)
    requires
        accounts.len() >= TRANSFER_ACCOUNTS,
        record_of(accounts[RECORD as int].data) is Some,
        amount > record_of(accounts[RECORD as int].data).unwrap().total_staked_ab,
    ensures
        spec_withdraw_step(accounts, amount, stage, reply, authorities).1 == accounts,
        spec_withdraw_step(accounts, amount, stage, reply, authorities).0 is Done,
        spec_withdraw_step(accounts, amount, stage, reply, authorities).0 != StepView::Done(Ok(())),
        authorities is Some && well_formed(accounts, authorities.unwrap()) ==> {
            &&& spec_withdraw_step(accounts, amount, Stage::Start, reply, authorities).0
                == StepView::fail(Failure::Escrow(EscrowError::InsufficientUserStake))
            &&& spec_withdraw_step(accounts, amount, Stage::Transfer, Reply::Completed, authorities).0
                == StepView::fail(Failure::Escrow(EscrowError::InsufficientUserStake))
        },
{
}

/// A withdrawal within the depositor's stake but of more than the vault
/// holds fails with `InsufficientVaultLiquidity`; and it changes no account,
/// however the call is made.
pub proof fn lemma_withdrawal_beyond_vault_fails(
    accounts: Seq<AccountView>,
    amount: u64,
    stage: Stage,
    reply: Reply,
    authorities: Option<WithdrawAuthoritiesView>,
)
    requires
        accounts.len() >= TRANSFER_ACCOUNTS,
        record_of(accounts[RECORD as int].data) is Some,
        amount <= record_of(accounts[RECORD as int].data).unwrap().total_staked_ab,
        vault_of(accounts[VAULT as int].data) is Some,
        amount > vault_of(accounts[VAULT as int].data).unwrap().amount,
    ensures
        spec_withdraw_step(accounts, amount, stage, reply, authorities).1 == accounts,
        spec_withdraw_step(accounts, amount, stage, reply, authorities).0 is Done,
        spec_withdraw_step(accounts, amount, stage, reply, authorities).0 != StepView::Done(Ok(())),
        authorities is Some && well_formed(accounts, authorities.unwrap()) ==> {
            &&& spec_withdraw_step(accounts, amount, Stage::Start, reply, authorities).0
                == StepView::fail(Failure::Escrow(EscrowError::InsufficientVaultLiquidity))
            &&& spec_withdraw_step(accounts, amount, Stage::Transfer, Reply::Completed, authorities).0
                == StepView::fail(Failure::Escrow(EscrowError::InsufficientVaultLiquidity))
        },
{
}

/// A withdrawal whose transfer failed ends with the transfer's failure and
/// changes no account.
pub proof fn lemma_failed_transfer_leaves_records(
    accounts: Seq<AccountView>,
    amount: u64,
    code: u64,
    authorities: Option<WithdrawAuthoritiesView>,
)
    ensures
        spec_withdraw_step(accounts, amount, Stage::Transfer, Reply::Failed(code), authorities).1
            == accounts,
        authorities is Some && well_formed(accounts, authorities.unwrap()) ==> spec_withdraw_step(
            accounts,
            amount,
            Stage::Transfer,
            Reply::Failed(code),
            authorities,
        ).0 == StepView::fail(Failure::Outside(code)),
{
}

/// A step of a withdrawal changes the accounts only where it ends the call
/// in success.
pub proof fn lemma_withdrawal_writes_on_success_only(
    accounts: Seq<AccountView>,
    amount: u64,
    stage: Stage,
    reply: Reply,
    authorities: Option<WithdrawAuthoritiesView>,
)
    ensures
        spec_withdraw_step(accounts, amount, stage, reply, authorities).0 != StepView::Done(Ok(()))
            ==> spec_withdraw_step(accounts, amount, stage, reply, authorities).1 == accounts,
{
}

/// The transfer is asked for only after both checks have passed, and asking
/// for it changes no account.
pub proof fn lemma_transfer_follows_the_checks(
    accounts: Seq<AccountView>,
    amount: u64,
    reply: Reply,
    authorities: Option<WithdrawAuthoritiesView>,
)
    requires
        spec_withdraw_step(accounts, amount, Stage::Start, reply, authorities).0 is Pending,
    ensures
        withdrawal(accounts, amount) is Ok,
        authorities is Some,
        spec_withdraw_step(accounts, amount, Stage::Start, reply, authorities) == (
            StepView::invoke(
                Stage::Transfer,
                withdrawal_transfer(accounts, amount, authorities.unwrap().vault),
            ),
            accounts,
        ),
{
}

} // verus!
