//! Depositing into the vault.
//!
//! The depositor must have signed, and the two record accounts must be the
//! ones derived for the depositor and for the vault. A deposit first sees to
//! it that the depositor's account, the vault's account and the vault's
//! token account exist. It then checks that the
//! token account handed in is the vault's canonical one, and asks for the
//! transfer from the depositor's token account to it, on the depositor's
//! authority. The two records are credited once the transfer has run. A call
//! that fails leaves both as they were.
//!
//! An amount of zero is taken like any other: the transfer of nothing is
//! asked for, and the record's counter and referral fields are written. An
//! amount that would lift the record or the vault past what 64 bits hold is
//! refused, and nothing is booked.

use crate::address::{DerivedAddress, DerivedAddressView, Identity};
use crate::codec::patched;
use crate::error::{EscrowError, Failure};
use crate::instructions::{
    read_record, read_vault, record_of, vault_of, with_data_at, write_at,
    ASSOCIATED_TOKEN_PROGRAM, DESTINATION, MINT, OWNER, PAYER, RECIPIENT, RECORD, RECORD_SPACE,
    SOURCE, SYSTEM_PROGRAM, TOKEN_PROGRAM, TRANSFER_ACCOUNTS, VAULT, VAULT_SPACE,
};
use crate::ledger::{
    Account, AccountView, Instruction, InstructionView, Invocation, InvocationView, Reply,
    Request, Stage, Step, StepView,
};
use crate::programs::{
    associated_token_address, create_associated_token_account, create_token_account_instruction,
    spec_associated_token_address, token_program_id, transfer, transfer_instruction,
};
use crate::provision::{allocate, allocation, rent_request, request_rent};
use crate::state::{Amount, Liquidity, Users, UsersView};
use vstd::prelude::*;

verus! {

/// What a deposit needs of derived addresses.
#[derive(Debug)]
pub struct StakeAuthorities {
    /// The address of the depositor's account.
    pub record: DerivedAddress,
    /// The address of the vault's account.
    pub vault: DerivedAddress,
    /// The address of the vault's canonical token account.
    pub token_account: DerivedAddress,
    /// The instruction that creates that token account.
    pub create_token_account: Instruction,
}

/// `StakeAuthorities` as plain values.
pub struct StakeAuthoritiesView {
    pub record: DerivedAddressView,
    pub vault: DerivedAddressView,
    pub token_account: DerivedAddressView,
    pub create_token_account: InstructionView,
}

impl View for StakeAuthorities {
    type V = StakeAuthoritiesView;

    open spec fn view(&self) -> StakeAuthoritiesView {
        StakeAuthoritiesView {
            record: self.record@,
            vault: self.vault@,
            token_account: self.token_account@,
            create_token_account: self.create_token_account@,
        }
    }
}

/// The view of optional authorities.
pub open spec fn authorities_view(authorities: Option<StakeAuthorities>) -> Option<
    StakeAuthoritiesView,
> {
    match authorities {
        Some(a) => Some(a@),
        None => None,
    }
}

/// The authorities of a deposit under `program_id`: the depositor's account
/// is derived from the owner, the token account from the vault, the token
/// program and the token type. There are none where one of the three
/// addresses cannot be derived, or where accounts are missing.
pub open spec fn spec_stake_authorities(program_id: Seq<u8>, accounts: Seq<AccountView>) -> Option<
    StakeAuthoritiesView,
> {
    if accounts.len() < TRANSFER_ACCOUNTS {
        None
    } else {
        match (
            Users::spec_authority(program_id, accounts[OWNER as int].key),
            Liquidity::spec_authority(program_id),
            spec_associated_token_address(
                accounts[VAULT as int].key,
                accounts[MINT as int].key,
                accounts[TOKEN_PROGRAM as int].key,
            ),
        ) {
            (Some(record), Some(vault), Some(token_account)) => Some(
                StakeAuthoritiesView {
                    record,
                    vault,
                    token_account,
                    create_token_account: create_token_account_instruction(
                        accounts[PAYER as int].key,
                        token_account.address,
                        accounts[VAULT as int].key,
                        accounts[MINT as int].key,
                        accounts[TOKEN_PROGRAM as int].key,
                    ),
                },
            ),
            _ => None,
        }
    }
}

/// The two records as a deposit of `amount` leaves them, or the reason for
/// which it cannot be booked.
pub open spec fn deposit(accounts: Seq<AccountView>, amount: u64) -> Result<
    (UsersView, Liquidity),
    Failure,
> {
    match record_of(accounts[RECORD as int].data) {
        None => Err(Failure::InvalidAccountData),
        Some(record) => match record.staked(accounts[OWNER as int].key, amount) {
            None => Err(Failure::ArithmeticOverflow),
            Some(record_after) => match vault_of(accounts[VAULT as int].data) {
                None => Err(Failure::InvalidAccountData),
                Some(vault) => match vault.deposited(amount) {
                    None => Err(Failure::ArithmeticOverflow),
                    Some(vault_after) => Ok((record_after, vault_after)),
                },
            },
        },
    }
}

/// The last step of a deposit, after the transfer has run: both records are
/// credited, or neither is.
pub open spec fn deposit_settled(accounts: Seq<AccountView>, amount: u64) -> (
    StepView,
    Seq<AccountView>,
) {
    match deposit(accounts, amount) {
        Err(failure) => (StepView::fail(failure), accounts),
        Ok((record, vault)) => (
            StepView::Done(Ok(())),
            with_data_at(
                with_data_at(
                    accounts,
                    RECORD as int,
                    patched(accounts[RECORD as int].data, 0, record.encoded()),
                ),
                VAULT as int,
                patched(accounts[VAULT as int].data, 0, vault.encoded()),
            ),
        ),
    }
}

/// The transfer that a deposit asks for: `amount` from the depositor's token
/// account to the vault's, on the authority of the depositor, who is named
/// as the signer.
pub open spec fn deposit_transfer(accounts: Seq<AccountView>, amount: u64) -> InvocationView {
    InvocationView {
        instruction: transfer_instruction(
            accounts[TOKEN_PROGRAM as int].key,
            accounts[SOURCE as int].key,
            accounts[DESTINATION as int].key,
            accounts[OWNER as int].key,
            seq![accounts[OWNER as int].key],
            amount,
        ),
        accounts: seq![MINT, SOURCE, DESTINATION, OWNER, RECIPIENT, TOKEN_PROGRAM],
        signer_seeds: Seq::empty(),
    }
}

/// The creation of the vault's token account, signed for by the vault.
pub open spec fn token_account_creation(authorities: StakeAuthoritiesView) -> InvocationView {
    InvocationView {
        instruction: authorities.create_token_account,
        accounts: seq![
            PAYER,
            DESTINATION,
            VAULT,
            MINT,
            SYSTEM_PROGRAM,
            TOKEN_PROGRAM,
            ASSOCIATED_TOKEN_PROGRAM,
        ],
        signer_seeds: authorities.vault.signer_seeds(),
    }
}

/// The step once all three accounts exist: the token account handed in must
/// be the canonical one, and the token program the token program; then the
/// transfer is asked for.
pub open spec fn deposit_from_transfer(
    accounts: Seq<AccountView>,
    amount: u64,
    authorities: StakeAuthoritiesView,
) -> StepView {
    if accounts[DESTINATION as int].key != authorities.token_account.address {
        StepView::fail(Failure::Escrow(EscrowError::TokenAccountMismatch))
    } else if accounts[TOKEN_PROGRAM as int].key != token_program_id() {
        StepView::fail(Failure::IncorrectProgramId)
    } else {
        StepView::invoke(Stage::Transfer, deposit_transfer(accounts, amount))
    }
}

/// The step once the two record accounts exist: a cold token account is
/// created first.
pub open spec fn deposit_from_token_account(
    accounts: Seq<AccountView>,
    amount: u64,
    authorities: StakeAuthoritiesView,
) -> StepView {
    if accounts[DESTINATION as int].is_cold() {
        StepView::invoke(Stage::TokenAccount, token_account_creation(authorities))
    } else {
        deposit_from_transfer(accounts, amount, authorities)
    }
}

/// The step once the depositor's account exists: a cold vault is
/// provisioned first.
pub open spec fn deposit_from_vault(
    accounts: Seq<AccountView>,
    amount: u64,
    authorities: StakeAuthoritiesView,
) -> StepView {
    match rent_request(accounts[VAULT as int], VAULT_SPACE, Stage::VaultRent) {
        Some(step) => step,
        None => deposit_from_token_account(accounts, amount, authorities),
    }
}

/// The first step of a deposit: a cold depositor's account is provisioned
/// first.
pub open spec fn deposit_from_record(
    accounts: Seq<AccountView>,
    amount: u64,
    authorities: StakeAuthoritiesView,
) -> StepView {
    match rent_request(accounts[RECORD as int], RECORD_SPACE, Stage::RecordRent) {
        Some(step) => step,
        None => deposit_from_vault(accounts, amount, authorities),
    }
}

/// The allocation of the depositor's account with room for the stake record.
pub open spec fn record_allocation(
    program_id: Seq<u8>,
    accounts: Seq<AccountView>,
    lamports: u64,
    authorities: StakeAuthoritiesView,
) -> InvocationView {
    allocation(
        accounts[PAYER as int].key,
        accounts[RECORD as int].key,
        lamports,
        RECORD_SPACE,
        program_id,
        authorities.record,
        seq![RECORD, PAYER, SYSTEM_PROGRAM],
    )
}

/// The allocation of the vault's account with room for its record.
pub open spec fn vault_allocation(
    program_id: Seq<u8>,
    accounts: Seq<AccountView>,
    lamports: u64,
    authorities: StakeAuthoritiesView,
) -> InvocationView {
    allocation(
        accounts[PAYER as int].key,
        accounts[VAULT as int].key,
        lamports,
        VAULT_SPACE,
        program_id,
        authorities.vault,
        seq![VAULT, PAYER, SYSTEM_PROGRAM],
    )
}

/// The step that follows the host's answer at `stage`.
pub open spec fn deposit_resumed(
    program_id: Seq<u8>,
    accounts: Seq<AccountView>,
    amount: u64,
    stage: Stage,
    reply: Reply,
    authorities: StakeAuthoritiesView,
) -> (StepView, Seq<AccountView>) {
    match (stage, reply) {
        (Stage::Start, _) => (deposit_from_record(accounts, amount, authorities), accounts),
        (_, Reply::Failed(code)) => (StepView::fail(Failure::Outside(code)), accounts),
        (Stage::RecordRent, Reply::Rent(lamports)) => (
            StepView::invoke(
                Stage::RecordAccount,
                record_allocation(program_id, accounts, lamports, authorities),
            ),
            accounts,
        ),
        (Stage::RecordAccount, Reply::Completed) => (
            deposit_from_vault(accounts, amount, authorities),
            accounts,
        ),
        (Stage::VaultRent, Reply::Rent(lamports)) => (
            StepView::invoke(
                Stage::VaultAccount,
                vault_allocation(program_id, accounts, lamports, authorities),
            ),
            accounts,
        ),
        (Stage::VaultAccount, Reply::Completed) => (
            deposit_from_token_account(accounts, amount, authorities),
            accounts,
        ),
        (Stage::TokenAccount, Reply::Completed) => (
            deposit_from_transfer(accounts, amount, authorities),
            accounts,
        ),
        (Stage::Transfer, Reply::Completed) => deposit_settled(accounts, amount),
        _ => (StepView::fail(Failure::UnexpectedReply), accounts),
    }
}

/// The two record accounts are the ones derived for the depositor and for
/// the vault.
pub open spec fn records_are_derived(
    accounts: Seq<AccountView>,
    authorities: StakeAuthoritiesView,
) -> bool {
    accounts[RECORD as int].key == authorities.record.address && accounts[VAULT as int].key
        == authorities.vault.address
}

/// One step of a deposit: the step to answer with, and the accounts as the
/// step leaves them.
pub open spec fn spec_stake_step(
    program_id: Seq<u8>,
    accounts: Seq<AccountView>,
    amount: u64,
    stage: Stage,
    reply: Reply,
    authorities: Option<StakeAuthoritiesView>,
) -> (StepView, Seq<AccountView>) {
    if accounts.len() < TRANSFER_ACCOUNTS {
        (StepView::fail(Failure::NotEnoughAccountKeys), accounts)
    } else if !accounts[OWNER as int].is_signer {
        (StepView::fail(Failure::Escrow(EscrowError::MissingSignature)), accounts)
    } else {
        match authorities {
            None => (StepView::fail(Failure::NoProgramAddress), accounts),
            Some(authorities) => if records_are_derived(accounts, authorities) {
                deposit_resumed(program_id, accounts, amount, stage, reply, authorities)
            } else {
                (StepView::fail(Failure::Escrow(EscrowError::OfferKeyMismatch)), accounts)
            },
        }
    }
}

/// Computes the two records after a deposit of `amount`.
fn check_deposit(accounts: &Vec<Account>, amount: u64) -> (out: Result<(Users, Liquidity), Failure>)
    requires
        accounts@.len() >= TRANSFER_ACCOUNTS,
    ensures
        match out {
            Ok((record, vault)) => deposit(accounts.deep_view(), amount) == Ok::<
                (UsersView, Liquidity),
                Failure,
            >((record@, vault)),
            Err(failure) => deposit(accounts.deep_view(), amount) == Err::<
                (UsersView, Liquidity),
                Failure,
            >(failure),
        },
{
    let mut record = match read_record(&accounts[RECORD]) {
        Some(record) => record,
        None => return Err(Failure::InvalidAccountData),
    };
    match record.stake(&accounts[OWNER].key, amount) {
        Ok(()) => {},
        Err(failure) => return Err(failure),
    }
    let mut vault = match read_vault(&accounts[VAULT]) {
        Some(vault) => vault,
        None => return Err(Failure::InvalidAccountData),
    };
    match vault.deposit(amount) {
        Ok(()) => {},
        Err(failure) => return Err(failure),
    }
    Ok((record, vault))
}

/// Books a deposit of `amount` in both records.
fn settle_deposit(accounts: &mut Vec<Account>, amount: u64) -> (out: Step)
    requires
        old(accounts)@.len() >= TRANSFER_ACCOUNTS,
    ensures
        (out@, final(accounts).deep_view()) == deposit_settled(old(accounts).deep_view(), amount),
{
    let (record, vault) = match check_deposit(accounts, amount) {
        Ok(after) => after,
        Err(failure) => return Step::Done(Err(failure)),
    };
    proof {
        crate::state::lemma_users_round_trip(record);
        crate::state::lemma_liquidity_round_trip(vault, Seq::empty());
    }
    write_at(accounts, RECORD, 0, &record.to_bytes());
    assert(accounts.deep_view()[VAULT as int] == old(accounts).deep_view()[VAULT as int]);
    write_at(accounts, VAULT, 0, &vault.to_bytes());
    Step::Done(Ok(()))
}

/// Checks the token account and the token program, and asks for the transfer.
fn from_transfer(accounts: &Vec<Account>, amount: u64, authorities: &StakeAuthorities) -> (out: Step)
    requires
        accounts@.len() >= TRANSFER_ACCOUNTS,
    ensures
        out@ == deposit_from_transfer(accounts.deep_view(), amount, authorities@),
{
    if !accounts[DESTINATION].key.same(&authorities.token_account.address) {
        return Step::Done(Err(Failure::Escrow(EscrowError::TokenAccountMismatch)));
    }
    let mut signers: Vec<Identity> = Vec::new();
    signers.push(accounts[OWNER].key);
    assert(signers.deep_view() =~= seq![accounts@[OWNER as int].key@]);
    let instruction = match transfer(
        &accounts[TOKEN_PROGRAM].key,
        &accounts[SOURCE].key,
        &accounts[DESTINATION].key,
        &accounts[OWNER].key,
        &signers,
        amount,
    ) {
        Ok(instruction) => instruction,
        Err(_) => return Step::Done(Err(Failure::IncorrectProgramId)),
    };
    let mut handed: Vec<usize> = Vec::new();
    handed.push(MINT);
    handed.push(SOURCE);
    handed.push(DESTINATION);
    handed.push(OWNER);
    handed.push(RECIPIENT);
    handed.push(TOKEN_PROGRAM);
    assert(handed@ =~= seq![MINT, SOURCE, DESTINATION, OWNER, RECIPIENT, TOKEN_PROGRAM]);
    let signer_seeds: Vec<Vec<u8>> = Vec::new();
    assert(signer_seeds.deep_view() =~= Seq::<Seq<u8>>::empty());
    Step::Pending {
        stage: Stage::Transfer,
        request: Request::Invoke(Invocation { instruction, accounts: handed, signer_seeds }),
    }
}

/// Asks for the vault's token account where it is cold, else goes on.
fn from_token_account(accounts: &Vec<Account>, amount: u64, authorities: StakeAuthorities) -> (out:
    Step)
    requires
        accounts@.len() >= TRANSFER_ACCOUNTS,
    ensures
        out@ == deposit_from_token_account(accounts.deep_view(), amount, authorities@),
{
    if !accounts[DESTINATION].is_cold() {
        return from_transfer(accounts, amount, &authorities);
    }
    let mut handed: Vec<usize> = Vec::new();
    handed.push(PAYER);
    handed.push(DESTINATION);
    handed.push(VAULT);
    handed.push(MINT);
    handed.push(SYSTEM_PROGRAM);
    handed.push(TOKEN_PROGRAM);
    handed.push(ASSOCIATED_TOKEN_PROGRAM);
    assert(handed@ =~= seq![
        PAYER,
        DESTINATION,
        VAULT,
        MINT,
        SYSTEM_PROGRAM,
        TOKEN_PROGRAM,
        ASSOCIATED_TOKEN_PROGRAM,
    ]);
    let signer_seeds = authorities.vault.signer_seeds();
    Step::Pending {
        stage: Stage::TokenAccount,
        request: Request::Invoke(
            Invocation {
                instruction: authorities.create_token_account,
                accounts: handed,
                signer_seeds,
            },
        ),
    }
}

/// Asks for the vault's rent where the vault is cold, else goes on.
fn from_vault(accounts: &Vec<Account>, amount: u64, authorities: StakeAuthorities) -> (out: Step)
    requires
        accounts@.len() >= TRANSFER_ACCOUNTS,
    ensures
        out@ == deposit_from_vault(accounts.deep_view(), amount, authorities@),
{
    match request_rent(&accounts[VAULT], VAULT_SPACE, Stage::VaultRent) {
        Some(step) => step,
        None => from_token_account(accounts, amount, authorities),
    }
}

/// Asks for the rent of the depositor's account where it is cold, else goes on.
fn from_record(accounts: &Vec<Account>, amount: u64, authorities: StakeAuthorities) -> (out: Step)
    requires
        accounts@.len() >= TRANSFER_ACCOUNTS,
    ensures
        out@ == deposit_from_record(accounts.deep_view(), amount, authorities@),
{
    match request_rent(&accounts[RECORD], RECORD_SPACE, Stage::RecordRent) {
        Some(step) => step,
        None => from_vault(accounts, amount, authorities),
    }
}

/// The positions handed on with an allocation: the account, the payer and
/// the system program.
fn allocation_accounts(target: usize) -> (out: Vec<usize>)
    ensures
        out@ == seq![target, PAYER, SYSTEM_PROGRAM],
{
    let mut handed: Vec<usize> = Vec::new();
    handed.push(target);
    handed.push(PAYER);
    handed.push(SYSTEM_PROGRAM);
    assert(handed@ =~= seq![target, PAYER, SYSTEM_PROGRAM]);
    handed
}

/// One step of a deposit, with the derived addresses handed in.
///
/// The depositor must have signed, and the accounts of the record and of the
/// vault must stand at their derived addresses, else the step fails with
/// `OfferKeyMismatch`. Called at `Stage::Start` the step asks for the first
/// thing that is missing: the depositor's account, the vault's
/// account, the vault's token account, each only where it is cold, and at
/// last the transfer. Called again with the host's answer it asks for the
/// next. A token account that is not the vault's canonical one fails with
/// `TokenAccountMismatch` before any transfer is asked for. Called at
/// `Stage::Transfer` with `Reply::Completed` it credits both records. The
/// accounts change only where the call ends in success.
pub fn stake_step(
    program_id: &Identity,
    accounts: &mut Vec<Account>,
    data: Amount,
    stage: Stage,
    reply: Reply,
    authorities: Option<StakeAuthorities>,
) -> (out: Step)
    ensures
        (out@, final(accounts).deep_view()) == spec_stake_step(
            program_id@,
            old(accounts).deep_view(),
            data.amount,
            stage,
            reply,
            authorities_view(authorities),
        ),
{
    if accounts.len() < TRANSFER_ACCOUNTS {
        return Step::Done(Err(Failure::NotEnoughAccountKeys));
    }
    if !accounts[OWNER].is_signer {
        return Step::Done(Err(Failure::Escrow(EscrowError::MissingSignature)));
    }
    let authorities = match authorities {
        Some(authorities) => authorities,
        None => return Step::Done(Err(Failure::NoProgramAddress)),
    };
    if !accounts[RECORD].key.same(&authorities.record.address) || !accounts[VAULT].key.same(
        &authorities.vault.address,
    ) {
        return Step::Done(Err(Failure::Escrow(EscrowError::OfferKeyMismatch)));
    }
    match stage {
        Stage::Start => from_record(accounts, data.amount, authorities),
        _ => match reply {
            Reply::Failed(code) => Step::Done(Err(Failure::Outside(code))),
            Reply::Rent(lamports) => match stage {
                Stage::RecordRent => Step::Pending {
                    stage: Stage::RecordAccount,
                    request: Request::Invoke(
                        allocate(
                            &accounts[PAYER].key,
                            &accounts[RECORD].key,
                            lamports,
                            RECORD_SPACE,
                            program_id,
                            &authorities.record,
                            allocation_accounts(RECORD),
                        ),
                    ),
                },
                Stage::VaultRent => Step::Pending {
                    stage: Stage::VaultAccount,
                    request: Request::Invoke(
                        allocate(
                            &accounts[PAYER].key,
                            &accounts[VAULT].key,
                            lamports,
                            VAULT_SPACE,
                            program_id,
                            &authorities.vault,
                            allocation_accounts(VAULT),
                        ),
                    ),
                },
                _ => Step::Done(Err(Failure::UnexpectedReply)),
            },
            Reply::Completed => match stage {
                Stage::RecordAccount => from_vault(accounts, data.amount, authorities),
                Stage::VaultAccount => from_token_account(accounts, data.amount, authorities),
                Stage::TokenAccount => from_transfer(accounts, data.amount, &authorities),
                Stage::Transfer => settle_deposit(accounts, data.amount),
                _ => Step::Done(Err(Failure::UnexpectedReply)),
            },
        },
    }
}

/// Derives what a deposit needs under `program_id`.
pub fn stake_authorities(program_id: &Identity, accounts: &Vec<Account>) -> (out: Option<
    StakeAuthorities,
>)
    ensures
        authorities_view(out) == spec_stake_authorities(program_id@, accounts.deep_view()),
{
    if accounts.len() < TRANSFER_ACCOUNTS {
        return None;
    }
    let record = Users::authority(program_id, &accounts[OWNER].key);
    let vault = Liquidity::authority(program_id);
    let token_account = associated_token_address(
        &accounts[VAULT].key,
        &accounts[MINT].key,
        &accounts[TOKEN_PROGRAM].key,
    );
    match (record, vault, token_account) {
        (Some(record), Some(vault), Some(token_account)) => {
            let create_token_account = create_associated_token_account(
                &accounts[PAYER].key,
                &accounts[VAULT].key,
                &accounts[MINT].key,
                &accounts[TOKEN_PROGRAM].key,
            );
            Some(StakeAuthorities { record, vault, token_account, create_token_account })
        },
        _ => None,
    }
}

/// One step of a deposit.
///
/// Derives the addresses under `program_id` and takes the step that
/// `stake_step` describes.
pub fn stake_user(
    program_id: &Identity,
    accounts: &mut Vec<Account>,
    data: Amount,
    stage: Stage,
    reply: Reply,
) -> (out: Step)
    ensures
        (out@, final(accounts).deep_view()) == spec_stake_step(
            program_id@,
            old(accounts).deep_view(),
            data.amount,
            stage,
            reply,
            spec_stake_authorities(program_id@, old(accounts).deep_view()),
        ),
{
    let authorities = stake_authorities(program_id, accounts);
    stake_step(program_id, accounts, data, stage, reply, authorities)
}

/// A step of a deposit changes the accounts only where it ends the call in
/// success.
pub proof fn lemma_deposit_writes_on_success_only(
    program_id: Seq<u8>,
    accounts: Seq<AccountView>,
    amount: u64,
    stage: Stage,
    reply: Reply,
    authorities: Option<StakeAuthoritiesView>,
)
    ensures
        spec_stake_step(program_id, accounts, amount, stage, reply, authorities).0
            != StepView::Done(Ok(())) ==> spec_stake_step(
            program_id,
            accounts,
            amount,
            stage,
            reply,
            authorities,
        ).1 == accounts,
{
}

/// A deposit whose transfer failed ends with the transfer's failure.
pub proof fn lemma_failed_transfer_fails_the_deposit(
    program_id: Seq<u8>,
    accounts: Seq<AccountView>,
    amount: u64,
    code: u64,
    authorities: StakeAuthoritiesView,
)
    requires
        accounts.len() >= TRANSFER_ACCOUNTS,
        accounts[OWNER as int].is_signer,
        records_are_derived(accounts, authorities),
    ensures
        spec_stake_step(
            program_id,
            accounts,
            amount,
            Stage::Transfer,
            Reply::Failed(code),
            Some(authorities),
        ) == (StepView::fail(Failure::Outside(code)), accounts),
{
}

} // verus!
