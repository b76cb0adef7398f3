//! The ledger as the program sees it, and the requests that it makes of it.
//!
//! The ledger stores the accounts, funds and allocates them, and runs the
//! other programs. None of that happens in this crate. A handler is handed the
//! accounts as plain values and answers with a `Step`: either a request that
//! the host is to carry out before it calls again, or the call's result.
//!
//! A handler writes to the accounts only in the step that ends a call in
//! success. What the host has carried out for a call that then fails, the
//! host must undo; a ledger does so by dropping the whole call. From the
//! first step of a call to its last the host must keep every other call away
//! from the call's accounts.

use crate::address::Identity;
use crate::codec::zeros;
use crate::error::Failure;
use vstd::prelude::*;

verus! {

/// One account as it stands when a handler is called.
#[derive(Debug, PartialEq, Eq)]
pub struct Account {
    pub key: Identity,
    /// The program that owns the account.
    pub owner: Identity,
    /// The value that the account holds. An account that holds none has not
    /// been allocated.
    pub lamports: u64,
    pub data: Vec<u8>,
    /// Whether the account's key has signed the call.
    pub is_signer: bool,
}

/// An account as plain values.
pub struct AccountView {
    pub key: Seq<u8>,
    pub owner: Seq<u8>,
    pub lamports: u64,
    pub data: Seq<u8>,
    pub is_signer: bool,
}

impl View for Account {
    type V = AccountView;

    open spec fn view(&self) -> AccountView {
        AccountView {
            key: self.key@,
            owner: self.owner@,
            lamports: self.lamports,
            data: self.data@,
            is_signer: self.is_signer,
        }
    }
}

impl DeepView for Account {
    type V = AccountView;

    open spec fn deep_view(&self) -> AccountView {
        self@
    }
}

impl AccountView {
    /// The account holds no value: it has yet to be allocated.
    pub open spec fn is_cold(self) -> bool {
        self.lamports == 0
    }

    /// The account with other bytes in it.
    pub open spec fn with_data(self, data: Seq<u8>) -> AccountView {
        AccountView { data, ..self }
    }

    /// The account as the ledger leaves it after allocating it: funded,
    /// `space` zero bytes long, and owned by `owner`.
    pub open spec fn allocated(self, lamports: u64, space: nat, owner: Seq<u8>) -> AccountView {
        AccountView { owner, lamports, data: zeros(space), ..self }
    }
}

impl Account {
    /// Whether the account holds no value.
    pub fn is_cold(&self) -> (cold: bool)
        ensures
            cold == self@.is_cold(),
    {
        self.lamports == 0
    }

    /// The account with other bytes in it.
    pub fn with_data(&self, data: Vec<u8>) -> (out: Account)
        ensures
            out@ == self@.with_data(data@),
    {
        Account {
            key: self.key,
            owner: self.owner,
            lamports: self.lamports,
            data,
            is_signer: self.is_signer,
        }
    }

    /// The account as the ledger leaves it after allocating it.
    pub fn allocated(&self, lamports: u64, space: usize, owner: &Identity) -> (out: Account)
        ensures
            out@ == self@.allocated(lamports, space as nat, owner@),
    {
        let mut data: Vec<u8> = Vec::new();
        let mut i: usize = 0;
        while i < space
            invariant
                i <= space,
                data@ == zeros(i as nat),
            decreases space - i,
        {
            data.push(0u8);
            assert(data@ =~= zeros((i + 1) as nat));
            i = i + 1;
        }
        Account { key: self.key, owner: *owner, lamports, data, is_signer: self.is_signer }
    }
}

/// How an instruction uses one account.
#[derive(Clone, Copy, Debug, PartialEq, Eq)]
pub struct AccountMeta {
    pub pubkey: Identity,
    pub is_signer: bool,
    pub is_writable: bool,
}

/// An `AccountMeta` as plain values.
pub struct MetaView {
    pub pubkey: Seq<u8>,
    pub is_signer: bool,
    pub is_writable: bool,
}

impl View for AccountMeta {
    type V = MetaView;

    open spec fn view(&self) -> MetaView {
        MetaView { pubkey: self.pubkey@, is_signer: self.is_signer, is_writable: self.is_writable }
    }
}

impl DeepView for AccountMeta {
    type V = MetaView;

    open spec fn deep_view(&self) -> MetaView {
        self@
    }
}

/// An instruction for another program.
#[derive(Debug, PartialEq, Eq)]
pub struct Instruction {
    pub program_id: Identity,
    pub accounts: Vec<AccountMeta>,
    pub data: Vec<u8>,
}

/// An instruction as plain values.
pub struct InstructionView {
    pub program_id: Seq<u8>,
    pub accounts: Seq<MetaView>,
    pub data: Seq<u8>,
}

impl View for Instruction {
    type V = InstructionView;

    open spec fn view(&self) -> InstructionView {
        InstructionView {
            program_id: self.program_id@,
            accounts: self.accounts.deep_view(),
            data: self.data@,
        }
    }
}

/// An instruction to run, the accounts to hand to the program that runs it,
/// and the seeds that sign for a derived address.
#[derive(Debug, PartialEq, Eq)]
pub struct Invocation {
    pub instruction: Instruction,
    /// The positions, among the call's accounts, of those to hand on.
    pub accounts: Vec<usize>,
    /// The seeds and nonce of the derived address that signs; empty where
    /// none does.
    pub signer_seeds: Vec<Vec<u8>>,
}

/// An invocation as plain values.
pub struct InvocationView {
    pub instruction: InstructionView,
    pub accounts: Seq<usize>,
    pub signer_seeds: Seq<Seq<u8>>,
}

impl View for Invocation {
    type V = InvocationView;

    open spec fn view(&self) -> InvocationView {
        InvocationView {
            instruction: self.instruction@,
            accounts: self.accounts@,
            signer_seeds: self.signer_seeds.deep_view(),
        }
    }
}

/// What a handler asks of its host.
#[derive(Debug, PartialEq, Eq)]
pub enum Request {
    /// The least value that keeps an account of `space` bytes alive.
    Rent { space: u64 },
    /// Run this instruction.
    Invoke(Invocation),
}

/// A request as plain values.
pub enum RequestView {
    Rent { space: u64 },
    Invoke(InvocationView),
}

impl View for Request {
    type V = RequestView;

    open spec fn view(&self) -> RequestView {
        match self {
            Request::Rent { space } => RequestView::Rent { space: *space },
            Request::Invoke(invocation) => RequestView::Invoke(invocation@),
        }
    }
}

/// Where a call stands: which request the host has been handed last.
#[derive(Clone, Copy, Debug, PartialEq, Eq, Structural)]
pub enum Stage {
    /// Nothing has been asked yet. The reply that comes with this stage is
    /// not read.
    Start,
    /// The rent of the depositor's account.
    RecordRent,
    /// The allocation of the depositor's account.
    RecordAccount,
    /// The rent of the vault's account.
    VaultRent,
    /// The allocation of the vault's account.
    VaultAccount,
    /// The creation of the vault's token account.
    TokenAccount,
    /// The transfer of the tokens.
    Transfer,
}

/// The host's answer to the last request.
#[derive(Clone, Copy, Debug, PartialEq, Eq, Structural)]
pub enum Reply {
    /// The rent that was asked for.
    Rent(u64),
    /// The instruction has run.
    Completed,
    /// The ledger or the program that was invoked failed with this code.
    Failed(u64),
}

/// A handler's answer: a request to carry out before the next call, with the
/// stage to hand back, or the result of the whole call.
#[derive(Debug, PartialEq, Eq)]
pub enum Step {
    Pending { stage: Stage, request: Request },
    Done(Result<(), Failure>),
}

/// A step as plain values.
pub enum StepView {
    Pending { stage: Stage, request: RequestView },
    Done(Result<(), Failure>),
}

impl View for Step {
    type V = StepView;

    open spec fn view(&self) -> StepView {
        match self {
            Step::Pending { stage, request } => StepView::Pending {
                stage: *stage,
                request: request@,
            },
            Step::Done(result) => StepView::Done(*result),
        }
    }
}

impl StepView {
    /// The step that ends a call with `failure`.
    pub open spec fn fail(failure: Failure) -> StepView {
        StepView::Done(Err(failure))
    }

    /// The step that asks for `invocation` and hands out `stage`.
    pub open spec fn invoke(stage: Stage, invocation: InvocationView) -> StepView {
        StepView::Pending { stage, request: RequestView::Invoke(invocation) }
    }

    /// The step that asks for the rent of `space` bytes and hands out `stage`.
    pub open spec fn rent(stage: Stage, space: u64) -> StepView {
        StepView::Pending { stage, request: RequestView::Rent { space } }
    }
}

} // verus!
