use solana_program::pubkey::Pubkey;
use stake_vault::address::Identity;
use stake_vault::error::{EscrowError, Failure};
use stake_vault::instructions::stake::{stake_authorities, stake_step, stake_user};
use stake_vault::ledger::{Account, AccountMeta, Invocation, Reply, Request, Stage, Step};
use stake_vault::programs::associated_token_address;
use stake_vault::state::{Amount, Liquidity, Users};

fn id(byte: u8) -> Identity {
    Identity::new([byte; 32])
}

fn program() -> Identity {
    id(42)
}

fn token_program() -> Identity {
    Identity::new(spl_token::id().to_bytes())
}

fn record_key(owner: u8) -> Identity {
    Users::authority(&program(), &id(owner)).unwrap().address
}

fn vault_key() -> Identity {
    Liquidity::authority(&program()).unwrap().address
}

fn vault_tokens(token_program: &Identity) -> Identity {
    associated_token_address(&vault_key(), &id(10), token_program).unwrap().address
}

fn account(key: Identity, lamports: u64) -> Account {
    Account { key, owner: id(0), lamports, data: vec![], is_signer: false }
}

/// The accounts of a deposit by the owner `owner`; the record account, the
/// vault and the vault's token account are cold.
fn cold_ledger(owner: u8) -> Vec<Account> {
    let mut accounts = vec![
        account(id(10), 1),
        account(record_key(owner), 0),
        account(vault_key(), 0),
        account(id(13), 1),
        account(vault_tokens(&token_program()), 0),
        account(id(owner), 1),
        account(id(16), 1),
        account(id(17), 1),
        account(id(0), 1),
        account(token_program(), 1),
        account(Identity::new(spl_associated_token_account::id().to_bytes()), 1),
    ];
    accounts[5].is_signer = true;
    accounts
}

fn warm_ledger(staked: u64, vault: u64) -> Vec<Account> {
    let mut accounts = cold_ledger(5);
    accounts[1] = accounts[1].allocated(1_000, 89, &program());
    accounts[1].data = Users {
        id: 3,
        referral_code: id(1),
        referrer: id(2),
        total_staked_ab: staked,
        totalbalance_ab: 8,
        balance_ab: 9,
    }
    .to_bytes();
    accounts[2] = accounts[2].allocated(1_000, 8, &program());
    accounts[2].data = Liquidity { amount: vault }.to_bytes();
    accounts[4] = accounts[4].allocated(1_000, 165, &token_program());
    accounts
}

/// Does what the ledger does on a request.
fn perform(accounts: &mut Vec<Account>, stage: Stage, invocation: &Invocation) {
    let data = &invocation.instruction.data;
    match stage {
        Stage::RecordAccount | Stage::VaultAccount => {
            let lamports = u64::from_le_bytes(data[4..12].try_into().unwrap());
            let space = u64::from_le_bytes(data[12..20].try_into().unwrap()) as usize;
            let owner = Identity::from_slice(&data[20..52]).unwrap();
            let target = invocation.accounts[0];
            assert_eq!(invocation.instruction.accounts[1].pubkey, accounts[target].key);
            accounts[target] = accounts[target].allocated(lamports, space, &owner);
        }
        Stage::TokenAccount => {
            let target = invocation.accounts[1];
            accounts[target] = accounts[target].allocated(1, 165, &token_program());
        }
        _ => {}
    }
}

/// Runs a deposit to its end and returns the requests that were made.
fn run(accounts: &mut Vec<Account>, amount: u64) -> (Result<(), Failure>, Vec<(Stage, Request)>) {
    let mut asked = Vec::new();
    let mut stage = Stage::Start;
    let mut reply = Reply::Completed;
    loop {
        match stake_user(&program(), accounts, Amount { amount }, stage, reply) {
            Step::Done(result) => return (result, asked),
            Step::Pending { stage: next, request } => {
                stage = next;
                reply = match &request {
                    Request::Rent { space } => Reply::Rent(1_000 + space),
                    Request::Invoke(invocation) => {
                        perform(accounts, next, invocation);
                        Reply::Completed
                    }
                };
                asked.push((next, request));
            }
        }
    }
}

fn staked(accounts: &Vec<Account>) -> u64 {
    Users::try_from_slice(&accounts[1].data[..89]).unwrap().total_staked_ab
}

fn in_vault(accounts: &Vec<Account>) -> u64 {
    Liquidity::try_from_slice(&accounts[2].data[..8]).unwrap().amount
}

#[test]
fn fresh_depositor_stakes_a_hundred() {
    let mut accounts = cold_ledger(5);
    let (result, asked) = run(&mut accounts, 100);
    assert_eq!(result, Ok(()));
    assert_eq!(staked(&accounts), 100);
    assert_eq!(in_vault(&accounts), 100);
    let record = Users::try_from_slice(&accounts[1].data).unwrap();
    assert_eq!(record.id, 1);
    assert_eq!(record.referral_code, id(5));
    assert_eq!(record.referrer, id(5));
    let stages: Vec<Stage> = asked.iter().map(|(stage, _)| *stage).collect();
    assert_eq!(
        stages,
        vec![
            Stage::RecordRent,
            Stage::RecordAccount,
            Stage::VaultRent,
            Stage::VaultAccount,
            Stage::TokenAccount,
            Stage::Transfer,
        ]
    );
    assert_eq!(asked[0].1, Request::Rent { space: 89 });
    assert_eq!(asked[2].1, Request::Rent { space: 8 });
    assert_eq!(accounts[1].lamports, 1_089);
    assert_eq!(accounts[2].lamports, 1_008);
    assert_eq!(accounts[1].owner, program());
}

#[test]
fn two_depositors_share_one_vault() {
    let mut first = cold_ledger(5);
    assert_eq!(run(&mut first, 100).0, Ok(()));
    let mut second = cold_ledger(6);
    second[2] = Account { is_signer: false, ..account(vault_key(), first[2].lamports) };
    second[2].data = first[2].data.clone();
    second[2].owner = first[2].owner;
    second[4] = first[4].allocated(1, 165, &token_program());
    let (result, asked) = run(&mut second, 50);
    assert_eq!(result, Ok(()));
    assert_eq!(in_vault(&second), 150);
    assert_eq!(staked(&first), 100);
    assert_eq!(staked(&second), 50);
    let stages: Vec<Stage> = asked.iter().map(|(stage, _)| *stage).collect();
    assert_eq!(stages, vec![Stage::RecordRent, Stage::RecordAccount, Stage::Transfer]);
}

#[test]
fn deposit_into_warm_accounts_asks_for_the_transfer_only() {
    let mut accounts = warm_ledger(10, 30);
    let step = stake_user(&program(), &mut accounts, Amount { amount: 5 }, Stage::Start, Reply::Completed);
    let invocation = match step {
        Step::Pending { stage: Stage::Transfer, request: Request::Invoke(invocation) } => invocation,
        other => panic!("unexpected step {:?}", other),
    };
    assert_eq!(invocation.instruction.program_id, token_program());
    assert_eq!(invocation.instruction.data, vec![3, 5, 0, 0, 0, 0, 0, 0, 0]);
    assert_eq!(
        invocation.instruction.accounts,
        vec![
            AccountMeta { pubkey: id(13), is_signer: false, is_writable: true },
            AccountMeta { pubkey: accounts[4].key, is_signer: false, is_writable: true },
            AccountMeta { pubkey: id(5), is_signer: false, is_writable: false },
            AccountMeta { pubkey: id(5), is_signer: true, is_writable: false },
        ]
    );
    assert_eq!(invocation.accounts, vec![0, 3, 4, 5, 6, 9]);
    assert!(invocation.signer_seeds.is_empty());
    assert_eq!(staked(&accounts), 10);
    assert_eq!(in_vault(&accounts), 30);
}

#[test]
fn deposit_is_booked_after_the_transfer() {
    let mut accounts = warm_ledger(10, 30);
    let step =
        stake_user(&program(), &mut accounts, Amount { amount: 5 }, Stage::Transfer, Reply::Completed);
    assert_eq!(step, Step::Done(Ok(())));
    let record = Users::try_from_slice(&accounts[1].data).unwrap();
    assert_eq!(
        record,
        Users {
            id: 4,
            referral_code: id(5),
            referrer: id(5),
            total_staked_ab: 15,
            totalbalance_ab: 8,
            balance_ab: 9,
        }
    );
    assert_eq!(in_vault(&accounts), 35);
}

#[test]
fn failed_transfer_books_nothing() {
    let mut accounts = warm_ledger(10, 30);
    let step =
        stake_user(&program(), &mut accounts, Amount { amount: 5 }, Stage::Transfer, Reply::Failed(9));
    assert_eq!(step, Step::Done(Err(Failure::Outside(9))));
    assert_eq!(accounts, warm_ledger(10, 30));
}

#[test]
fn token_account_creation_is_the_crates_instruction() {
    let mut accounts = warm_ledger(10, 30);
    accounts[4].lamports = 0;
    let step = stake_user(&program(), &mut accounts, Amount { amount: 5 }, Stage::Start, Reply::Completed);
    let invocation = match step {
        Step::Pending { stage: Stage::TokenAccount, request: Request::Invoke(invocation) } => {
            invocation
        }
        other => panic!("unexpected step {:?}", other),
    };
    let expected = spl_associated_token_account::instruction::create_associated_token_account(
        &Pubkey::new_from_array([17; 32]),
        &Pubkey::new_from_array(vault_key().bytes),
        &Pubkey::new_from_array([10; 32]),
        &spl_token::id(),
    );
    assert_eq!(invocation.instruction.program_id.bytes, expected.program_id.to_bytes());
    assert_eq!(invocation.instruction.data, expected.data);
    assert_eq!(invocation.instruction.data, vec![0]);
    assert_eq!(
        invocation.instruction.accounts,
        vec![
            AccountMeta { pubkey: id(17), is_signer: true, is_writable: true },
            AccountMeta { pubkey: vault_tokens(&token_program()), is_signer: false, is_writable: true },
            AccountMeta { pubkey: vault_key(), is_signer: false, is_writable: false },
            AccountMeta { pubkey: id(10), is_signer: false, is_writable: false },
            AccountMeta { pubkey: id(0), is_signer: false, is_writable: false },
            AccountMeta { pubkey: token_program(), is_signer: false, is_writable: false },
        ]
    );
    assert_eq!(invocation.accounts, vec![7, 4, 2, 0, 8, 9, 10]);
    let vault = Liquidity::authority(&program()).unwrap();
    assert_eq!(invocation.signer_seeds, vault.signer_seeds());
}

#[test]
fn token_account_that_is_not_canonical_is_refused() {
    let mut accounts = warm_ledger(10, 30);
    accounts[4].key = id(14);
    let mut before = warm_ledger(10, 30);
    before[4].key = id(14);
    let step = stake_user(&program(), &mut accounts, Amount { amount: 5 }, Stage::Start, Reply::Completed);
    assert_eq!(step, Step::Done(Err(Failure::Escrow(EscrowError::TokenAccountMismatch))));
    assert_eq!(accounts, before);
}

#[test]
fn deposit_without_signature_is_refused() {
    let mut accounts = cold_ledger(5);
    accounts[5].is_signer = false;
    let (result, asked) = run(&mut accounts, 100);
    assert_eq!(result, Err(Failure::Escrow(EscrowError::MissingSignature)));
    assert!(asked.is_empty());
    let mut unsigned = cold_ledger(5);
    unsigned[5].is_signer = false;
    assert_eq!(accounts, unsigned);
}

#[test]
fn deposit_takes_eleven_accounts() {
    let mut accounts = warm_ledger(10, 30);
    accounts.pop();
    let (result, asked) = run(&mut accounts, 100);
    assert_eq!(result, Err(Failure::NotEnoughAccountKeys));
    assert!(asked.is_empty());
}

#[test]
fn deposit_through_another_token_program_is_refused() {
    let other = id(77);
    let mut accounts = warm_ledger(10, 30);
    accounts[9].key = other;
    accounts[4].key = vault_tokens(&other);
    let (result, asked) = run(&mut accounts, 5);
    assert_eq!(result, Err(Failure::IncorrectProgramId));
    assert!(asked.is_empty());
    assert_eq!(staked(&accounts), 10);
    assert_eq!(in_vault(&accounts), 30);
}

#[test]
fn deposit_that_would_not_fit_is_refused_and_books_nothing() {
    let mut accounts = warm_ledger(u64::MAX - 4, u64::MAX - 4);
    let (result, _) = run(&mut accounts, 5);
    assert_eq!(result, Err(Failure::ArithmeticOverflow));
    assert_eq!(staked(&accounts), u64::MAX - 4);
    assert_eq!(in_vault(&accounts), u64::MAX - 4);
    let mut accounts = warm_ledger(0, u64::MAX);
    let (result, _) = run(&mut accounts, 1);
    assert_eq!(result, Err(Failure::ArithmeticOverflow));
    assert_eq!(staked(&accounts), 0);
    assert_eq!(Users::try_from_slice(&accounts[1].data).unwrap().id, 3);
    let mut accounts = warm_ledger(u64::MAX - 5, u64::MAX - 5);
    assert_eq!(run(&mut accounts, 5).0, Ok(()));
    assert_eq!(staked(&accounts), u64::MAX);
}

#[test]
fn deposit_of_nothing_is_booked_like_any_other() {
    let mut accounts = warm_ledger(10, 30);
    let (result, asked) = run(&mut accounts, 0);
    assert_eq!(result, Ok(()));
    assert_eq!(asked.len(), 1);
    assert_eq!(staked(&accounts), 10);
    assert_eq!(in_vault(&accounts), 30);
    assert_eq!(Users::try_from_slice(&accounts[1].data).unwrap().id, 4);
}

#[test]
fn counter_starts_again_after_255() {
    let mut accounts = warm_ledger(10, 30);
    accounts[1].data[0] = 255;
    assert_eq!(run(&mut accounts, 1).0, Ok(()));
    assert_eq!(Users::try_from_slice(&accounts[1].data).unwrap().id, 0);
}

#[test]
fn deposit_into_a_record_too_short_is_refused() {
    let mut accounts = warm_ledger(10, 30);
    accounts[1].data.truncate(88);
    let (result, _) = run(&mut accounts, 5);
    assert_eq!(result, Err(Failure::InvalidAccountData));
    assert_eq!(in_vault(&accounts), 30);
    let mut accounts = warm_ledger(10, 30);
    accounts[2].data.truncate(7);
    let (result, _) = run(&mut accounts, 5);
    assert_eq!(result, Err(Failure::InvalidAccountData));
    assert_eq!(staked(&accounts), 10);
}

#[test]
fn deposit_into_a_registered_account_keeps_the_flag() {
    let mut accounts = warm_ledger(10, 30);
    accounts[1].data.extend_from_slice(&[7; 50]);
    assert_eq!(run(&mut accounts, 5).0, Ok(()));
    assert_eq!(accounts[1].data.len(), 139);
    assert_eq!(&accounts[1].data[89..], &[7; 50]);
    assert_eq!(staked(&accounts), 15);
}

#[test]
fn deposit_without_addresses_fails() {
    let mut accounts = warm_ledger(10, 30);
    let step =
        stake_step(&program(), &mut accounts, Amount { amount: 5 }, Stage::Start, Reply::Completed, None);
    assert_eq!(step, Step::Done(Err(Failure::NoProgramAddress)));
    assert!(stake_authorities(&program(), &accounts).is_some());
    accounts.truncate(10);
    assert!(stake_authorities(&program(), &accounts).is_none());
}

#[test]
fn deposit_refuses_a_reply_that_was_not_asked_for() {
    let mut accounts = warm_ledger(10, 30);
    for (stage, reply) in [
        (Stage::RecordRent, Reply::Completed),
        (Stage::VaultRent, Reply::Completed),
        (Stage::RecordAccount, Reply::Rent(1)),
        (Stage::Transfer, Reply::Rent(1)),
    ] {
        let step = stake_user(&program(), &mut accounts, Amount { amount: 5 }, stage, reply);
        assert_eq!(step, Step::Done(Err(Failure::UnexpectedReply)));
    }
    assert_eq!(accounts, warm_ledger(10, 30));
}

#[test]
fn deposit_into_a_record_that_is_not_the_signers_is_refused() {
    let mut accounts = warm_ledger(10, 30);
    accounts[1].key = record_key(6);
    let (result, asked) = run(&mut accounts, 5);
    assert_eq!(result, Err(Failure::Escrow(EscrowError::OfferKeyMismatch)));
    assert!(asked.is_empty());
    assert_eq!(staked(&accounts), 10);
    let mut accounts = cold_ledger(5);
    accounts[1].key = id(11);
    let (result, asked) = run(&mut accounts, 5);
    assert_eq!(result, Err(Failure::Escrow(EscrowError::OfferKeyMismatch)));
    assert!(asked.is_empty());
}

#[test]
fn deposit_into_a_vault_that_is_not_the_vault_is_refused() {
    let mut accounts = warm_ledger(10, 30);
    accounts[2].key = id(12);
    let (result, asked) = run(&mut accounts, 5);
    assert_eq!(result, Err(Failure::Escrow(EscrowError::OfferKeyMismatch)));
    assert!(asked.is_empty());
    assert_eq!(in_vault(&accounts), 30);
}
