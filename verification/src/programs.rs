//! The instructions that the program hands to the system program, the token
//! program and the associated-token-account program.
//!
//! Each instruction is built by the crate that belongs to its program. What
//! a builder returns is stated here as a spec function, and believed: the
//! builders are not verified.

use crate::address::{derived_view, program_address, spec_derive, DerivedAddress, DerivedAddressView, Identity};
use crate::codec::{u64_bytes, zeros};
use crate::ledger::{AccountMeta, Instruction, InstructionView, MetaView};
use solana_program::pubkey::Pubkey;
use vstd::prelude::*;

verus! {

/// The error type of the ledger's programs.
#[verifier::external_type_specification]
#[verifier::external_body]
pub struct ExProgramError(solana_program::program_error::ProgramError);

/// The address of the system program: 32 zero bytes.
pub open spec fn system_program_id() -> Seq<u8> {
    zeros(32)
}

/// The address of the token program.
pub open spec fn token_program_id() -> Seq<u8> {
    seq![
        6u8, 221, 246, 225, 215, 101, 161, 147, 217, 203, 225, 70, 206, 235, 121, 172,
        28, 180, 133, 237, 95, 91, 55, 145, 58, 140, 245, 133, 126, 255, 0, 169,
    ]
}

/// The address of the associated-token-account program.
pub open spec fn associated_token_program_id() -> Seq<u8> {
    seq![
        140u8, 151, 37, 143, 78, 36, 137, 241, 187, 61, 16, 41, 20, 142, 13, 131,
        11, 90, 19, 153, 218, 255, 16, 132, 4, 142, 123, 216, 219, 233, 248, 89,
    ]
}

/// An account that an instruction writes to.
pub open spec fn writable(pubkey: Seq<u8>, is_signer: bool) -> MetaView {
    MetaView { pubkey, is_signer, is_writable: true }
}

/// An account that an instruction only reads.
pub open spec fn readonly(pubkey: Seq<u8>, is_signer: bool) -> MetaView {
    MetaView { pubkey, is_signer, is_writable: false }
}

/// The system program's instruction that allocates the account `to` with
/// `space` bytes, funds it with `lamports` from `from` and hands it to
/// `owner`. Both accounts sign. The data are the number 0 in four bytes,
/// the two integers, and the owner.
pub open spec fn create_account_instruction(
    from: Seq<u8>,
    to: Seq<u8>,
    lamports: u64,
    space: u64,
    owner: Seq<u8>,
) -> InstructionView {
    InstructionView {
        program_id: system_program_id(),
        accounts: seq![writable(from, true), writable(to, true)],
        data: seq![0u8, 0u8, 0u8, 0u8] + u64_bytes(lamports) + u64_bytes(space) + owner,
    }
}

/// The token program's instruction that moves `amount` from `source` to
/// `destination`. The authority signs itself where no signers are named;
/// else the signers follow it and sign. The data are the byte 3 and the
/// amount.
pub open spec fn transfer_instruction(
    token_program: Seq<u8>,
    source: Seq<u8>,
    destination: Seq<u8>,
    authority: Seq<u8>,
    signers: Seq<Seq<u8>>,
    amount: u64,
) -> InstructionView {
    InstructionView {
        program_id: token_program,
        accounts: seq![
            writable(source, false),
            writable(destination, false),
            readonly(authority, signers.len() == 0),
        ] + signers.map_values(|signer: Seq<u8>| readonly(signer, true)),
        data: seq![3u8] + u64_bytes(amount),
    }
}

/// The seeds from which the token account of `wallet` for `mint` is derived.
pub open spec fn associated_seeds(wallet: Seq<u8>, token_program: Seq<u8>, mint: Seq<u8>) -> Seq<
    Seq<u8>,
> {
    seq![wallet, token_program, mint]
}

/// The instruction that creates the token account `associated` of `wallet`
/// for `mint`, paid by `funding`, which signs. The data are the byte 0.
pub open spec fn create_token_account_instruction(
    funding: Seq<u8>,
    associated: Seq<u8>,
    wallet: Seq<u8>,
    mint: Seq<u8>,
    token_program: Seq<u8>,
) -> InstructionView {
    InstructionView {
        program_id: associated_token_program_id(),
        accounts: seq![
            writable(funding, true),
            writable(associated, false),
            readonly(wallet, false),
            readonly(mint, false),
            readonly(system_program_id(), false),
            readonly(token_program, false),
        ],
        data: seq![0u8],
    }
}

/// The derived address of the token account of `wallet` for `mint`.
pub open spec fn spec_associated_token_address(
    wallet: Seq<u8>,
    mint: Seq<u8>,
    token_program: Seq<u8>,
) -> Option<DerivedAddressView> {
    spec_derive(associated_seeds(wallet, token_program, mint), associated_token_program_id())
}

/// The address of the associated-token-account program.
pub fn associated_token_program() -> (id: Identity)
    ensures
        id@ == associated_token_program_id(),
{
    let id = Identity {
        bytes: [
            140u8, 151, 37, 143, 78, 36, 137, 241, 187, 61, 16, 41, 20, 142, 13, 131,
            11, 90, 19, 153, 218, 255, 16, 132, 4, 142, 123, 216, 219, 233, 248, 89,
        ],
    };
    assert(id@ =~= associated_token_program_id());
    id
}

/// Derives the address of the token account of `wallet` for `mint`: the one
/// canonical token account of that owner and token type.
pub fn associated_token_address(wallet: &Identity, mint: &Identity, token_program: &Identity) -> (out:
    Option<DerivedAddress>)
    ensures
        derived_view(out) == spec_associated_token_address(wallet@, mint@, token_program@),
{
    let mut seeds: Vec<Vec<u8>> = Vec::new();
    seeds.push(wallet.to_vec());
    seeds.push(token_program.to_vec());
    seeds.push(mint.to_vec());
    assert(seeds.deep_view() =~~= associated_seeds(wallet@, token_program@, mint@));
    DerivedAddress::derive(seeds, &associated_token_program())
}

/// Calls `solana_program::system_instruction::create_account`.
///
/// Nothing is proved of it. The contract claims that the instruction is for
/// the system program, names `from` and `to` as writable signers, and holds
/// as data the variant's number 0 in four bytes, then `lamports` and `space`
/// in eight little-endian bytes each, then the 32 bytes of `owner`.
#[verifier::external_body]
pub(crate) fn create_account(
    from: &Identity,
    to: &Identity,
    lamports: u64,
    space: u64,
    owner: &Identity,
) -> (ix: Instruction)
    ensures
        ix@ == create_account_instruction(from@, to@, lamports, space, owner@),
{
    let built = solana_program::system_instruction::create_account(
        &from.bytes.into(), &to.bytes.into(), lamports, space, &owner.bytes.into(),
    );
    Instruction {
        program_id: Identity { bytes: built.program_id.to_bytes() },
        accounts: built.accounts.iter().map(|m| AccountMeta {
            pubkey: Identity { bytes: m.pubkey.to_bytes() }, is_signer: m.is_signer, is_writable: m.is_writable,
        }).collect(),
        data: built.data,
    }
}

/// Calls `spl_token::instruction::transfer`.
///
/// Nothing is proved of it. The contract claims that it fails exactly where
/// `token_program` is not the token program's address, and that the
/// instruction it else returns is for that program, names the source and the
/// destination as writable, then the authority and the signers as read-only,
/// and holds as data the byte 3 and `amount` in eight little-endian bytes.
#[verifier::external_body]
pub(crate) fn transfer(
    token_program: &Identity,
    source: &Identity,
    destination: &Identity,
    authority: &Identity,
    signers: &Vec<Identity>,
    amount: u64,
) -> (built: Result<Instruction, solana_program::program_error::ProgramError>)
    ensures
        built is Ok <==> token_program@ == token_program_id(),
        built matches Ok(ix) ==> ix@ == transfer_instruction(
            token_program@,
            source@,
            destination@,
            authority@,
            signers.deep_view(),
            amount,
        ),
{
    let keys: Vec<Pubkey> = signers.iter().map(|s| s.bytes.into()).collect();
    let built = spl_token::instruction::transfer(
        &token_program.bytes.into(), &source.bytes.into(), &destination.bytes.into(),
        &authority.bytes.into(), &keys.iter().collect::<Vec<_>>(), amount,
    )?;
    Ok(Instruction {
        program_id: Identity { bytes: built.program_id.to_bytes() },
        accounts: built.accounts.iter().map(|m| AccountMeta {
            pubkey: Identity { bytes: m.pubkey.to_bytes() }, is_signer: m.is_signer, is_writable: m.is_writable,
        }).collect(),
        data: built.data,
    })
}

/// Calls `spl_associated_token_account::instruction::create_associated_token_account`.
///
/// It derives the token account's address itself and stops the program where
/// there is none, so it may only be called where there is one. Nothing is
/// proved of it. The contract claims that the instruction is for the
/// associated-token-account program, names the payer as writable signer, the
/// derived token account as writable, then the wallet, the mint, the system
/// program and the token program as read-only, and holds as data the byte 0.
#[verifier::external_body]
pub(crate) fn create_associated_token_account(
    funding: &Identity,
    wallet: &Identity,
    mint: &Identity,
    token_program: &Identity,
) -> (ix: Instruction)
    requires
        program_address(
            associated_seeds(wallet@, token_program@, mint@),
            associated_token_program_id(),
        ) is Some,
    ensures
        ix@ == create_token_account_instruction(
            funding@,
            program_address(
                associated_seeds(wallet@, token_program@, mint@),
                associated_token_program_id(),
            ).unwrap().0,
            wallet@,
            mint@,
            token_program@,
        ),
{
    let built = spl_associated_token_account::instruction::create_associated_token_account(
        &funding.bytes.into(), &wallet.bytes.into(), &mint.bytes.into(), &token_program.bytes.into(),
    );
    Instruction {
        program_id: Identity { bytes: built.program_id.to_bytes() },
        accounts: built.accounts.iter().map(|m| AccountMeta {
            pubkey: Identity { bytes: m.pubkey.to_bytes() }, is_signer: m.is_signer, is_writable: m.is_writable,
        }).collect(),
        data: built.data,
    }
}

} // verus!
