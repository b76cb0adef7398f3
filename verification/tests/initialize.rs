use stake_vault::address::Identity;
use stake_vault::error::{EscrowError, Failure};
use stake_vault::instructions::initialize::{initialize, initialize_step};
use stake_vault::ledger::{Account, AccountMeta, Reply, Request, Stage, Step};
use stake_vault::state::{OwnableAccount, Users};

fn id(byte: u8) -> Identity {
    Identity::new([byte; 32])
}

fn program() -> Identity {
    id(42)
}

fn target() -> Identity {
    Users::authority(&program(), &id(5)).unwrap().address
}

fn fresh() -> Vec<Account> {
    vec![
        Account { key: id(5), owner: id(0), lamports: 10, data: vec![], is_signer: true },
        Account { key: target(), owner: id(0), lamports: 0, data: vec![], is_signer: false },
        Account { key: id(0), owner: id(0), lamports: 1, data: vec![], is_signer: false },
    ]
}

fn allocated() -> Vec<Account> {
    let mut accounts = fresh();
    accounts[1] = accounts[1].allocated(3_000, 139, &program());
    accounts
}

#[test]
fn initialization_of_a_cold_account_asks_for_its_rent() {
    let mut accounts = fresh();
    let step = initialize(&program(), &mut accounts, Stage::Start, Reply::Completed);
    assert_eq!(
        step,
        Step::Pending { stage: Stage::RecordRent, request: Request::Rent { space: 139 } }
    );
    assert_eq!(accounts, fresh());
}

#[test]
fn initialization_asks_for_room_for_record_and_flag() {
    let mut accounts = fresh();
    let step = initialize(&program(), &mut accounts, Stage::RecordRent, Reply::Rent(3_000));
    let invocation = match step {
        Step::Pending { stage: Stage::RecordAccount, request: Request::Invoke(invocation) } => {
            invocation
        }
        other => panic!("unexpected step {:?}", other),
    };
    assert_eq!(invocation.instruction.program_id, id(0));
    assert_eq!(
        invocation.instruction.accounts,
        vec![
            AccountMeta { pubkey: id(5), is_signer: true, is_writable: true },
            AccountMeta { pubkey: target(), is_signer: true, is_writable: true },
        ]
    );
    assert_eq!(&invocation.instruction.data[4..12], &3_000u64.to_le_bytes());
    assert_eq!(&invocation.instruction.data[12..20], &139u64.to_le_bytes());
    assert_eq!(&invocation.instruction.data[20..], &[42; 32]);
    assert_eq!(invocation.accounts, vec![1, 0, 2]);
    let authority = Users::authority(&program(), &id(5)).unwrap();
    assert_eq!(
        invocation.signer_seeds,
        vec![b"user_authority".to_vec(), vec![5; 32], vec![authority.nonce]]
    );
    assert_eq!(accounts, fresh());
}

#[test]
fn initialization_marks_the_account_for_the_initiator() {
    let mut accounts = allocated();
    let step = initialize(&program(), &mut accounts, Stage::RecordAccount, Reply::Completed);
    assert_eq!(step, Step::Done(Ok(())));
    let data = &accounts[1].data;
    assert_eq!(data.len(), 139);
    let record = Users::try_from_slice(&data[..89]).unwrap();
    assert_eq!(
        record,
        Users {
            id: 1,
            referral_code: id(5),
            referrer: id(5),
            total_staked_ab: 0,
            totalbalance_ab: 0,
            balance_ab: 0,
        }
    );
    let flag = OwnableAccount::try_from_slice(&data[89..122]).unwrap();
    assert_eq!(flag, OwnableAccount { is_initialize: true, owner_account: id(5) });
    assert_eq!(&data[122..], &[0; 17]);
    assert_eq!(accounts[0], fresh()[0]);
    assert_eq!(accounts[2], fresh()[2]);
}

#[test]
fn initialization_of_an_allocated_account_registers_at_once() {
    let mut accounts = allocated();
    let step = initialize(&program(), &mut accounts, Stage::Start, Reply::Completed);
    assert_eq!(step, Step::Done(Ok(())));
    assert!(OwnableAccount::try_from_slice(&accounts[1].data[89..122]).unwrap().is_initialize);
}

#[test]
fn second_initialization_is_refused_and_changes_nothing() {
    let mut accounts = allocated();
    assert_eq!(
        initialize(&program(), &mut accounts, Stage::Start, Reply::Completed),
        Step::Done(Ok(()))
    );
    let registered = accounts[1].data.clone();
    let again = initialize(&program(), &mut accounts, Stage::Start, Reply::Completed);
    assert_eq!(
        again,
        Step::Done(Err(Failure::Escrow(EscrowError::AccountAlreadyInitialized)))
    );
    assert_eq!(accounts[1].data, registered);
    assert_eq!(Users::try_from_slice(&registered[..89]).unwrap().id, 1);
}

#[test]
fn initialization_keeps_the_padding_behind_the_flag() {
    let mut accounts = allocated();
    for byte in accounts[1].data[122..].iter_mut() {
        *byte = 0xEE;
    }
    assert_eq!(
        initialize(&program(), &mut accounts, Stage::Start, Reply::Completed),
        Step::Done(Ok(()))
    );
    assert_eq!(&accounts[1].data[122..], &[0xEE; 17]);
}

#[test]
fn initialization_without_signature_is_refused() {
    let mut accounts = allocated();
    accounts[0].is_signer = false;
    let before = accounts[1].data.clone();
    let step = initialize(&program(), &mut accounts, Stage::Start, Reply::Completed);
    assert_eq!(step, Step::Done(Err(Failure::Escrow(EscrowError::MissingSignature))));
    assert_eq!(accounts[1].data, before);
}

#[test]
fn initialization_takes_three_accounts() {
    let mut accounts = allocated();
    accounts.pop();
    let step = initialize(&program(), &mut accounts, Stage::Start, Reply::Completed);
    assert_eq!(step, Step::Done(Err(Failure::NotEnoughAccountKeys)));
}

#[test]
fn initialization_of_an_account_too_short_is_refused() {
    let mut accounts = fresh();
    accounts[1] = accounts[1].allocated(3_000, 89, &program());
    let step = initialize(&program(), &mut accounts, Stage::Start, Reply::Completed);
    assert_eq!(step, Step::Done(Err(Failure::InvalidAccountData)));
    assert_eq!(accounts[1].data, vec![0; 89]);
}

#[test]
fn initialization_of_an_account_with_a_broken_flag_is_refused() {
    let mut accounts = allocated();
    accounts[1].data[89] = 2;
    let before = accounts[1].data.clone();
    let step = initialize(&program(), &mut accounts, Stage::Start, Reply::Completed);
    assert_eq!(step, Step::Done(Err(Failure::InvalidAccountData)));
    assert_eq!(accounts[1].data, before);
}

#[test]
fn failed_allocation_is_passed_on() {
    let mut accounts = fresh();
    let step = initialize(&program(), &mut accounts, Stage::RecordAccount, Reply::Failed(77));
    assert_eq!(step, Step::Done(Err(Failure::Outside(77))));
    let step = initialize(&program(), &mut accounts, Stage::RecordRent, Reply::Failed(78));
    assert_eq!(step, Step::Done(Err(Failure::Outside(78))));
    assert_eq!(accounts, fresh());
}

#[test]
fn reply_that_was_not_asked_for_is_refused() {
    let mut accounts = allocated();
    let before = allocated();
    for (stage, reply) in [
        (Stage::RecordRent, Reply::Completed),
        (Stage::RecordAccount, Reply::Rent(1)),
        (Stage::VaultRent, Reply::Rent(1)),
        (Stage::Transfer, Reply::Completed),
    ] {
        let step = initialize(&program(), &mut accounts, stage, reply);
        assert_eq!(step, Step::Done(Err(Failure::UnexpectedReply)));
    }
    assert_eq!(accounts, before);
}

#[test]
fn initialization_without_an_address_to_sign_for_fails() {
    let mut accounts = allocated();
    let step = initialize_step(&program(), &mut accounts, Stage::Start, Reply::Completed, None);
    assert_eq!(step, Step::Done(Err(Failure::NoProgramAddress)));
    assert_eq!(accounts, allocated());
}

#[test]
fn initialization_of_an_account_that_is_not_the_initiators_is_refused() {
    let mut accounts = allocated();
    accounts[1].key = id(11);
    let before = accounts[1].data.clone();
    let step = initialize(&program(), &mut accounts, Stage::Start, Reply::Completed);
    assert_eq!(step, Step::Done(Err(Failure::Escrow(EscrowError::OfferKeyMismatch))));
    assert_eq!(accounts[1].data, before);
    let mut accounts = fresh();
    accounts[0].key = id(6);
    let step = initialize(&program(), &mut accounts, Stage::Start, Reply::Completed);
    assert_eq!(step, Step::Done(Err(Failure::Escrow(EscrowError::OfferKeyMismatch))));
}
