//! The reasons for which a call fails.

use vstd::prelude::*;

verus! {

/// The failures that this program itself raises.
#[derive(Clone, Copy, Debug, PartialEq, Eq, Structural)]
pub enum EscrowError {
    /// An account does not stand at the address derived for it.
    OfferKeyMismatch,
    /// A token account is not the canonical one of its owner and token type.
    TokenAccountMismatch,
    /// A withdrawal asks for more than the depositor's recorded stake.
    InsufficientUserStake,
    /// A withdrawal asks for more than the vault's recorded liquidity.
    InsufficientVaultLiquidity,
    /// A check of who owns an account failed. No call raises it; it keeps
    /// its place so that the others keep their numbers.
    UnauthorizedAccount,
    /// A required proof of control is absent.
    MissingSignature,
    /// The record to initialize has been initialized before.
    AccountAlreadyInitialized,
}

impl EscrowError {
    /// The number under which the ledger reports this failure: the variant's
    /// position in the list, from 0.
    pub open spec fn spec_code(self) -> u32 {
        match self {
            EscrowError::OfferKeyMismatch => 0,
            EscrowError::TokenAccountMismatch => 1,
            EscrowError::InsufficientUserStake => 2,
            EscrowError::InsufficientVaultLiquidity => 3,
            EscrowError::UnauthorizedAccount => 4,
            EscrowError::MissingSignature => 5,
            EscrowError::AccountAlreadyInitialized => 6,
        }
    }

    /// The number under which the ledger reports this failure.
    pub fn code(&self) -> (c: u32)
        ensures
            c == self.spec_code(),
    {
        match self {
            EscrowError::OfferKeyMismatch => 0,
            EscrowError::TokenAccountMismatch => 1,
            EscrowError::InsufficientUserStake => 2,
            EscrowError::InsufficientVaultLiquidity => 3,
            EscrowError::UnauthorizedAccount => 4,
            EscrowError::MissingSignature => 5,
            EscrowError::AccountAlreadyInitialized => 6,
        }
    }

    /// The text shown for this failure.
    pub open spec fn spec_message(self) -> Seq<char> {
        match self {
            EscrowError::OfferKeyMismatch => "Invalid Authority"@,
            EscrowError::TokenAccountMismatch => "Token account provided does not match expected"@,
            EscrowError::InsufficientUserStake => "Insufficient user stake"@,
            EscrowError::InsufficientVaultLiquidity => "Insufficient liquidity in vault"@,
            EscrowError::UnauthorizedAccount => "Unthorized Ownable account"@,
            EscrowError::MissingSignature => "Missing signtaure "@,
            EscrowError::AccountAlreadyInitialized => "Account already initialized"@,
        }
    }

    /// The text shown for this failure.
    pub fn message(&self) -> (text: String)
        ensures
            text@ == self.spec_message(),
    {
        let text: &str = match self {
            EscrowError::OfferKeyMismatch => "Invalid Authority",
            EscrowError::TokenAccountMismatch => "Token account provided does not match expected",
            EscrowError::InsufficientUserStake => "Insufficient user stake",
            EscrowError::InsufficientVaultLiquidity => "Insufficient liquidity in vault",
            EscrowError::UnauthorizedAccount => "Unthorized Ownable account",
            EscrowError::MissingSignature => "Missing signtaure ",
            EscrowError::AccountAlreadyInitialized => "Account already initialized",
        };
        text.to_owned()
    }
}

/// Every way in which a call can end without success.
#[derive(Clone, Copy, Debug, PartialEq, Eq, Structural)]
pub enum Failure {
    /// One of the program's own failures.
    Escrow(EscrowError),
    /// Fewer accounts were handed in than the call takes.
    NotEnoughAccountKeys,
    /// The instruction's bytes are no instruction.
    InvalidInstructionData,
    /// An account's bytes do not hold the record that is read from them.
    InvalidAccountData,
    /// The token program handed in is not the token program.
    IncorrectProgramId,
    /// No address can be derived for an authority.
    NoProgramAddress,
    /// A balance would pass the largest amount that a record can hold.
    ArithmeticOverflow,
    /// The host answered a request that the call did not make.
    UnexpectedReply,
    /// The ledger or the token service failed; its code is passed on as it is.
    Outside(u64),
}

} // verus!
