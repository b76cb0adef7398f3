use solana_program::pubkey::Pubkey;
use stake_vault::address::{DerivedAddress, Identity};
use stake_vault::programs::{associated_token_address, associated_token_program};
use stake_vault::state::{Liquidity, Users};

#[test]
fn identity_is_read_from_32_bytes_only() {
    let bytes: Vec<u8> = (1..=32).collect();
    let id = Identity::from_slice(&bytes).unwrap();
    assert_eq!(id.bytes.to_vec(), bytes);
    assert_eq!(id.to_vec(), bytes);
    assert_eq!(Identity::from_slice(&bytes[..31]), None);
    assert_eq!(Identity::from_slice(&[0; 33]), None);
}

#[test]
fn identities_are_the_same_where_all_bytes_are() {
    let a = Identity::new([3; 32]);
    let mut other = [3u8; 32];
    assert!(a.same(&Identity::new(other)));
    other[31] = 4;
    assert!(!a.same(&Identity::new(other)));
    other[31] = 3;
    other[0] = 0;
    assert!(!a.same(&Identity::new(other)));
}

#[test]
fn depositor_address_is_the_ledgers_derived_address() {
    let program = Pubkey::new_from_array([42; 32]);
    let owner = Pubkey::new_from_array([5; 32]);
    let (address, nonce) = Pubkey::find_program_address(&[b"user_authority", owner.as_ref()], &program);
    let derived =
        Users::authority(&Identity::new(program.to_bytes()), &Identity::new(owner.to_bytes()))
            .unwrap();
    assert_eq!(derived.address.bytes, address.to_bytes());
    assert_eq!(derived.nonce, nonce);
    assert_eq!(derived.base.bytes, [42; 32]);
    assert_eq!(derived.seeds, vec![b"user_authority".to_vec(), vec![5; 32]]);
    assert_ne!(derived.address.bytes, [42; 32]);
}

#[test]
fn vault_address_is_the_ledgers_derived_address() {
    let program = Pubkey::new_from_array([42; 32]);
    let (address, nonce) =
        Pubkey::find_program_address(&[b"liquidity_authority_with_owner"], &program);
    let derived = Liquidity::authority(&Identity::new([42; 32])).unwrap();
    assert_eq!(derived.address.bytes, address.to_bytes());
    assert_eq!(derived.nonce, nonce);
    assert_eq!(derived.seeds, vec![b"liquidity_authority_with_owner".to_vec()]);
}

#[test]
fn seeds_are_part_of_the_interface() {
    assert_eq!(Users::SEED_PREFIX, "user_authority");
    assert_eq!(Liquidity::SECURE_SEED, "liquidity_authority_with_owner");
}

#[test]
fn derivation_is_deterministic() {
    let program = Identity::new([1; 32]);
    let owner = Identity::new([2; 32]);
    let first = Users::authority(&program, &owner).unwrap();
    let second = Users::authority(&program, &owner).unwrap();
    assert_eq!(first.address, second.address);
    assert_eq!(first.nonce, second.nonce);
    let other = Users::authority(&program, &Identity::new([3; 32])).unwrap();
    assert_ne!(first.address, other.address);
}

#[test]
fn signer_seeds_are_the_seeds_and_the_nonce() {
    let program = Pubkey::new_from_array([42; 32]);
    let derived = Liquidity::authority(&Identity::new([42; 32])).unwrap();
    let seeds = derived.signer_seeds();
    assert_eq!(
        seeds,
        vec![b"liquidity_authority_with_owner".to_vec(), vec![derived.nonce]]
    );
    let parts: Vec<&[u8]> = seeds.iter().map(|seed| seed.as_slice()).collect();
    let address = Pubkey::create_program_address(&parts, &program).unwrap();
    assert_eq!(address.to_bytes(), derived.address.bytes);
}

#[test]
fn derivation_fails_for_seeds_that_the_ledger_does_not_take() {
    let program = Identity::new([42; 32]);
    assert!(DerivedAddress::derive(vec![vec![0; 33]], &program).is_none());
    assert!(DerivedAddress::derive(vec![vec![1]; 16], &program).is_none());
    assert!(DerivedAddress::derive(vec![vec![1]; 15], &program).is_some());
    assert!(DerivedAddress::derive(vec![vec![0; 32]], &program).is_some());
}

#[test]
fn search_result_is_packed_with_its_seeds() {
    let program = Identity::new([42; 32]);
    let packed =
        DerivedAddress::from_found(vec![vec![1, 2]], &program, Some((Identity::new([8; 32]), 254)))
            .unwrap();
    assert_eq!(packed.address.bytes, [8; 32]);
    assert_eq!(packed.nonce, 254);
    assert_eq!(packed.seeds, vec![vec![1, 2]]);
    assert_eq!(packed.base, program);
    assert!(DerivedAddress::from_found(vec![vec![1, 2]], &program, None).is_none());
}

#[test]
fn associated_token_program_is_the_crates_program() {
    assert_eq!(associated_token_program().bytes, spl_associated_token_account::id().to_bytes());
}

#[test]
fn canonical_token_account_is_the_associated_token_address() {
    let wallet = Pubkey::new_from_array([12; 32]);
    let mint = Pubkey::new_from_array([10; 32]);
    let expected = spl_associated_token_account::get_associated_token_address(&wallet, &mint);
    let derived = associated_token_address(
        &Identity::new(wallet.to_bytes()),
        &Identity::new(mint.to_bytes()),
        &Identity::new(spl_token::id().to_bytes()),
    )
    .unwrap();
    assert_eq!(derived.address.bytes, expected.to_bytes());
}
