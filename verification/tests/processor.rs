use stake_vault::address::Identity;
use stake_vault::error::{EscrowError, Failure};
use stake_vault::ledger::{Account, Invocation, Reply, Request, Stage, Step};
use stake_vault::processor::{process_instruction, MyInstruction};
use stake_vault::programs::associated_token_address;
use stake_vault::state::{Amount, Liquidity, OwnableAccount, Users, WithdrawAmount};

fn id(byte: u8) -> Identity {
    Identity::new([byte; 32])
}

fn program() -> Identity {
    id(42)
}

fn token_program() -> Identity {
    Identity::new(spl_token::id().to_bytes())
}

fn account(key: Identity, lamports: u64) -> Account {
    Account { key, owner: id(0), lamports, data: vec![], is_signer: false }
}

/// An in-memory ledger: the accounts of two depositors, one vault, and the
/// transfers that were carried out.
struct Ledger {
    records: Vec<Account>,
    vault: Account,
    vault_tokens: Account,
    transfers: Vec<(Identity, Identity, u64)>,
}

fn record_key(depositor: usize) -> Identity {
    Users::authority(&program(), &owner(depositor)).unwrap().address
}

fn ledger() -> Ledger {
    let vault = Liquidity::authority(&program()).unwrap().address;
    let vault_tokens = associated_token_address(&vault, &id(10), &token_program()).unwrap();
    Ledger {
        records: vec![account(record_key(0), 0), account(record_key(1), 0)],
        vault: account(vault, 0),
        vault_tokens: account(vault_tokens.address, 0),
        transfers: vec![],
    }
}

fn owner(depositor: usize) -> Identity {
    id(201 + depositor as u8)
}

fn wallet(depositor: usize) -> Identity {
    id(221 + depositor as u8)
}

/// The accounts of a call by `depositor`; `deposit` says which way the
/// tokens go.
fn accounts_of(ledger: &Ledger, depositor: usize, deposit: bool) -> Vec<Account> {
    let record = &ledger.records[depositor];
    let tokens = account(wallet(depositor), 1);
    let vault_tokens = ledger.vault_tokens.with_data(vec![]);
    let (source, destination) = if deposit { (tokens, vault_tokens) } else { (vault_tokens, tokens) };
    let mut signer = account(owner(depositor), 1);
    signer.is_signer = true;
    vec![
        account(id(10), 1),
        record.with_data(record.data.clone()),
        ledger.vault.with_data(ledger.vault.data.clone()),
        source,
        destination,
        signer,
        account(id(16), 1),
        account(id(17), 1),
        account(id(0), 1),
        account(token_program(), 1),
        account(Identity::new(spl_associated_token_account::id().to_bytes()), 1),
    ]
}

fn perform(accounts: &mut Vec<Account>, stage: Stage, invocation: &Invocation) {
    let data = &invocation.instruction.data;
    match stage {
        Stage::RecordAccount | Stage::VaultAccount => {
            let lamports = u64::from_le_bytes(data[4..12].try_into().unwrap());
            let space = u64::from_le_bytes(data[12..20].try_into().unwrap()) as usize;
            let owner = Identity::from_slice(&data[20..52]).unwrap();
            let target = invocation.accounts[0];
            accounts[target] = accounts[target].allocated(lamports, space, &owner);
        }
        Stage::TokenAccount => {
            let target = invocation.accounts[1];
            accounts[target] = accounts[target].allocated(1, 165, &token_program());
        }
        _ => {}
    }
}

/// Carries one call through and keeps what it wrote only where it succeeded,
/// as a ledger does.
fn call(ledger: &mut Ledger, depositor: usize, instruction: MyInstruction) -> Result<(), Failure> {
    let deposit = matches!(instruction, MyInstruction::Stake(_));
    let mut accounts = accounts_of(ledger, depositor, deposit);
    let bytes = instruction.to_bytes();
    let mut transfers = vec![];
    let mut stage = Stage::Start;
    let mut reply = Reply::Completed;
    let result = loop {
        match process_instruction(&program(), &mut accounts, &bytes, stage, reply) {
            Step::Done(result) => break result,
            Step::Pending { stage: next, request } => {
                stage = next;
                reply = match &request {
                    Request::Rent { space } => Reply::Rent(1_000 + space),
                    Request::Invoke(invocation) => {
                        perform(&mut accounts, next, invocation);
                        if next == Stage::Transfer {
                            let metas = &invocation.instruction.accounts;
                            let amount = u64::from_le_bytes(
                                invocation.instruction.data[1..9].try_into().unwrap(),
                            );
                            transfers.push((metas[0].pubkey, metas[1].pubkey, amount));
                        }
                        Reply::Completed
                    }
                };
            }
        }
    };
    if result.is_ok() {
        ledger.transfers.extend(transfers);
        ledger.records[depositor] = accounts[1].with_data(accounts[1].data.clone());
        ledger.vault = accounts[2].with_data(accounts[2].data.clone());
        let tokens = if deposit { 4 } else { 3 };
        ledger.vault_tokens = accounts[tokens].with_data(vec![]);
    }
    result
}

fn staked(ledger: &Ledger, depositor: usize) -> u64 {
    let data = &ledger.records[depositor].data;
    if data.is_empty() {
        return 0;
    }
    Users::try_from_slice(&data[..89]).unwrap().total_staked_ab
}

fn in_vault(ledger: &Ledger) -> u64 {
    if ledger.vault.data.is_empty() {
        return 0;
    }
    Liquidity::try_from_slice(&ledger.vault.data).unwrap().amount
}

fn stake(amount: u64) -> MyInstruction {
    MyInstruction::Stake(Amount { amount })
}

fn withdraw(amount: u64) -> MyInstruction {
    MyInstruction::Withdraw(WithdrawAmount { amount })
}

#[test]
fn first_stake_credits_record_and_vault() {
    let mut ledger = ledger();
    assert_eq!(call(&mut ledger, 0, stake(100)), Ok(()));
    assert_eq!(staked(&ledger, 0), 100);
    assert_eq!(in_vault(&ledger), 100);
    assert_eq!(ledger.transfers, vec![(wallet(0), ledger.vault_tokens.key, 100)]);
}

#[test]
fn stake_then_withdrawal_leaves_the_difference() {
    let mut ledger = ledger();
    assert_eq!(call(&mut ledger, 0, stake(100)), Ok(()));
    assert_eq!(call(&mut ledger, 0, withdraw(40)), Ok(()));
    assert_eq!(staked(&ledger, 0), 60);
    assert_eq!(in_vault(&ledger), 60);
    assert_eq!(ledger.transfers.len(), 2);
    assert_eq!(ledger.transfers[1], (ledger.vault_tokens.key, wallet(0), 40));
}

#[test]
fn stake_then_withdrawal_of_too_much_changes_nothing() {
    let mut ledger = ledger();
    assert_eq!(call(&mut ledger, 0, stake(100)), Ok(()));
    assert_eq!(
        call(&mut ledger, 0, withdraw(150)),
        Err(Failure::Escrow(EscrowError::InsufficientUserStake))
    );
    assert_eq!(staked(&ledger, 0), 100);
    assert_eq!(in_vault(&ledger), 100);
    assert_eq!(ledger.transfers.len(), 1);
}

#[test]
fn two_depositors_stake_into_the_same_vault() {
    let mut ledger = ledger();
    assert_eq!(call(&mut ledger, 0, stake(100)), Ok(()));
    assert_eq!(call(&mut ledger, 1, stake(50)), Ok(()));
    assert_eq!(in_vault(&ledger), 150);
    assert_eq!(staked(&ledger, 0), 100);
    assert_eq!(staked(&ledger, 1), 50);
}

#[test]
fn vault_holds_the_sum_of_all_stakes_after_every_call() {
    let mut ledger = ledger();
    let calls = [
        (0, stake(100)),
        (1, stake(50)),
        (0, withdraw(40)),
        (1, withdraw(51)),
        (1, stake(0)),
        (0, withdraw(60)),
        (0, withdraw(1)),
        (1, stake(7)),
        (1, withdraw(57)),
    ];
    let expected = [100, 150, 110, 110, 110, 50, 50, 57, 0];
    for ((depositor, instruction), total) in calls.into_iter().zip(expected) {
        let _ = call(&mut ledger, depositor, instruction);
        assert_eq!(in_vault(&ledger), staked(&ledger, 0) + staked(&ledger, 1));
        assert_eq!(in_vault(&ledger), total);
    }
}

#[test]
fn withdrawal_within_the_stake_but_beyond_the_vault_is_refused() {
    let mut ledger = ledger();
    assert_eq!(call(&mut ledger, 0, stake(100)), Ok(()));
    ledger.vault.data = Liquidity { amount: 30 }.to_bytes();
    assert_eq!(
        call(&mut ledger, 0, withdraw(31)),
        Err(Failure::Escrow(EscrowError::InsufficientVaultLiquidity))
    );
    assert_eq!(staked(&ledger, 0), 100);
    assert_eq!(in_vault(&ledger), 30);
}

#[test]
fn bytes_that_are_no_instruction_fail_before_any_handler_runs() {
    let mut none: Vec<Account> = vec![];
    for bytes in [&[][..], &[3][..], &[0, 0][..], &[1, 1][..], &[2, 0, 0, 0, 0, 0, 0, 0, 0, 0][..]] {
        let step = process_instruction(&program(), &mut none, bytes, Stage::Start, Reply::Completed);
        assert_eq!(step, Step::Done(Err(Failure::InvalidInstructionData)));
    }
    let step = process_instruction(&program(), &mut none, &[0], Stage::Start, Reply::Completed);
    assert_eq!(step, Step::Done(Err(Failure::NotEnoughAccountKeys)));
}

#[test]
fn discriminant_chooses_the_handler() {
    let target = Users::authority(&program(), &id(5)).unwrap().address;
    let mut three = vec![account(id(5), 1), account(target, 0), account(id(0), 1)];
    three[0].is_signer = true;
    let step = process_instruction(&program(), &mut three, &[0], Stage::Start, Reply::Completed);
    assert_eq!(
        step,
        Step::Pending { stage: Stage::RecordRent, request: Request::Rent { space: 139 } }
    );
    let stake = stake(1).to_bytes();
    let step = process_instruction(&program(), &mut three, &stake, Stage::Start, Reply::Completed);
    assert_eq!(step, Step::Done(Err(Failure::NotEnoughAccountKeys)));
    let ledger = ledger();
    let mut eleven = accounts_of(&ledger, 0, true);
    let step = process_instruction(&program(), &mut eleven, &stake, Stage::Start, Reply::Completed);
    assert_eq!(
        step,
        Step::Pending { stage: Stage::RecordRent, request: Request::Rent { space: 89 } }
    );
    let withdraw = withdraw(1).to_bytes();
    let step = process_instruction(&program(), &mut eleven, &withdraw, Stage::Start, Reply::Completed);
    assert_eq!(step, Step::Done(Err(Failure::InvalidAccountData)));
}

#[test]
fn registered_depositor_can_stake() {
    let mut accounts = vec![account(owner(0), 1), account(record_key(0), 0), account(id(0), 1)];
    accounts[0].is_signer = true;
    accounts[1] = accounts[1].allocated(1_000, 139, &program());
    let step = process_instruction(&program(), &mut accounts, &[0], Stage::Start, Reply::Completed);
    assert_eq!(step, Step::Done(Ok(())));
    let mut ledger = ledger();
    ledger.records[0] = accounts[1].with_data(accounts[1].data.clone());
    assert_eq!(call(&mut ledger, 0, stake(100)), Ok(()));
    assert_eq!(staked(&ledger, 0), 100);
    let data = &ledger.records[0].data;
    assert_eq!(Users::try_from_slice(&data[..89]).unwrap().id, 2);
    assert_eq!(
        OwnableAccount::try_from_slice(&data[89..122]),
        Some(OwnableAccount { is_initialize: true, owner_account: owner(0) })
    );
}
