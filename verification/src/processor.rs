//! The instructions that the program takes, and their dispatch.
//!
//! An instruction is one byte that says which call is meant, followed by
//! what the call carries: 0 is an initialization and carries nothing, 1 is a
//! stake and 2 a withdrawal, each with its amount in eight little-endian
//! bytes. Anything else is no instruction.

use crate::address::Identity;
use crate::codec::{append, copy_range, lemma_u64_round_trip};
use crate::error::Failure;
use crate::instructions::initialize::{initialize, spec_initialize_authority, spec_initialize_step};
use crate::instructions::stake::{spec_stake_authorities, spec_stake_step, stake_user};
use crate::instructions::withdrew::{spec_withdraw_authorities, spec_withdraw_step, withdrew_user};
use crate::ledger::{Account, AccountView, Reply, Stage, Step, StepView};
use crate::state::{Amount, WithdrawAmount};
use vstd::prelude::*;

verus! {

/// One call to the program.
#[derive(Clone, Copy, Debug, PartialEq, Eq, Structural)]
pub enum MyInstruction {
    /// Deposit the amount.
    Stake(Amount),
    /// Take the amount out.
    Withdraw(WithdrawAmount),
    /// Register the caller.
    Initializer,
}

impl MyInstruction {
    /// The bytes that carry this instruction.
    pub open spec fn encoded(self) -> Seq<u8> {
        match self {
            MyInstruction::Initializer => seq![0u8],
            MyInstruction::Stake(data) => seq![1u8] + data.encoded(),
            MyInstruction::Withdraw(data) => seq![2u8] + data.encoded(),
        }
    }

    /// The instruction that `bytes` carry, if they carry one: nothing may
    /// follow it.
    pub open spec fn decoded(bytes: Seq<u8>) -> Option<MyInstruction> {
        if bytes.len() == 0 {
            None
        } else if bytes[0] == 0 {
            if bytes.len() == 1 {
                Some(MyInstruction::Initializer)
            } else {
                None
            }
        } else if bytes[0] == 1 {
            match Amount::decoded(bytes.subrange(1, bytes.len() as int)) {
                Some(data) => Some(MyInstruction::Stake(data)),
                None => None,
            }
        } else if bytes[0] == 2 {
            match WithdrawAmount::decoded(bytes.subrange(1, bytes.len() as int)) {
                Some(data) => Some(MyInstruction::Withdraw(data)),
                None => None,
            }
        } else {
            None
        }
    }

    /// Reads an instruction from exactly the bytes that carry it.
    pub fn try_from_slice(bytes: &[u8]) -> (out: Option<MyInstruction>)
        ensures
            out == MyInstruction::decoded(bytes@),
    {
        let len = bytes.len();
        if len == 0 {
            return None;
        }
        let tag = bytes[0];
        if tag == 0 {
            if len == 1 {
                Some(MyInstruction::Initializer)
            } else {
                None
            }
        } else if tag == 1 {
            match Amount::try_from_slice(copy_range(bytes, 1, len).as_slice()) {
                Some(data) => Some(MyInstruction::Stake(data)),
                None => None,
            }
        } else if tag == 2 {
            match WithdrawAmount::try_from_slice(copy_range(bytes, 1, len).as_slice()) {
                Some(data) => Some(MyInstruction::Withdraw(data)),
                None => None,
            }
        } else {
            None
        }
    }

    /// The bytes that carry this instruction.
    pub fn to_bytes(&self) -> (out: Vec<u8>)
        ensures
            out@ == self.encoded(),
    {
        let mut out: Vec<u8> = Vec::new();
        match self {
            MyInstruction::Initializer => {
                out.push(0u8);
                assert(out@ =~= seq![0u8]);
            },
            MyInstruction::Stake(data) => {
                out.push(1u8);
                assert(out@ =~= seq![1u8]);
                append(&mut out, data.to_bytes().as_slice());
            },
            MyInstruction::Withdraw(data) => {
                out.push(2u8);
                assert(out@ =~= seq![2u8]);
                append(&mut out, data.to_bytes().as_slice());
            },
        }
        out
    }
}

/// An instruction comes back from its bytes unchanged.
pub proof fn lemma_instruction_round_trip(instruction: MyInstruction)
    ensures
        MyInstruction::decoded(instruction.encoded()) == Some(instruction),
{
    lemma_u64_round_trip();
    let bytes = instruction.encoded();
    match instruction {
        MyInstruction::Initializer => {},
        MyInstruction::Stake(data) => {
            assert(bytes.subrange(1, bytes.len() as int) =~= data.encoded());
            assert(data.encoded().subrange(0, 8) =~= data.encoded());
        },
        MyInstruction::Withdraw(data) => {
            assert(bytes.subrange(1, bytes.len() as int) =~= data.encoded());
            assert(data.encoded().subrange(0, 8) =~= data.encoded());
        },
    }
}

/// Bytes that carry an instruction are the bytes of that instruction.
pub proof fn lemma_instruction_bytes_round_trip(bytes: Seq<u8>)
    requires
        MyInstruction::decoded(bytes) is Some,
    ensures
        MyInstruction::decoded(bytes).unwrap().encoded() == bytes,
{
    lemma_u64_round_trip();
    let rest = bytes.subrange(1, bytes.len() as int);
    if bytes[0] != 0 {
        assert(rest.subrange(0, 8) =~= rest);
    }
    assert(MyInstruction::decoded(bytes).unwrap().encoded() =~= bytes);
}

/// One step of the call that `instruction_data` carry: bytes that carry no
/// instruction fail before any handler runs; an instruction goes to its
/// handler.
pub open spec fn spec_process_instruction(
    program_id: Seq<u8>,
    accounts: Seq<AccountView>,
    instruction_data: Seq<u8>,
    stage: Stage,
    reply: Reply,
) -> (StepView, Seq<AccountView>) {
    match MyInstruction::decoded(instruction_data) {
        None => (StepView::fail(Failure::InvalidInstructionData), accounts),
        Some(MyInstruction::Stake(data)) => spec_stake_step(
            program_id,
            accounts,
            data.amount,
            stage,
            reply,
            spec_stake_authorities(program_id, accounts),
        ),
        Some(MyInstruction::Withdraw(data)) => spec_withdraw_step(
            accounts,
            data.amount,
            stage,
            reply,
            spec_withdraw_authorities(program_id, accounts),
        ),
        Some(MyInstruction::Initializer) => spec_initialize_step(
            program_id,
            accounts,
            stage,
            reply,
            spec_initialize_authority(program_id, accounts),
        ),
    }
}

/// One step of the call that `instruction_data` carry.
///
/// The host calls with `Stage::Start` first. While the answer is
/// `Step::Pending` it carries out the request and calls again, with the
/// accounts as they then stand, the stage that was handed out and its reply.
/// `Step::Done` ends the call.
pub fn process_instruction(
    program_id: &Identity,
    accounts: &mut Vec<Account>,
    instruction_data: &[u8],
    stage: Stage,
    reply: Reply,
) -> (out: Step)
    ensures
        (out@, final(accounts).deep_view()) == spec_process_instruction(
            program_id@,
            old(accounts).deep_view(),
            instruction_data@,
            stage,
            reply,
        ),
{
    match MyInstruction::try_from_slice(instruction_data) {
        None => Step::Done(Err(Failure::InvalidInstructionData)),
        Some(MyInstruction::Stake(data)) => stake_user(program_id, accounts, data, stage, reply),
        Some(MyInstruction::Withdraw(data)) => withdrew_user(program_id, accounts, data, stage, reply),
        Some(MyInstruction::Initializer) => initialize(program_id, accounts, stage, reply),
    }
}

/// Bytes that carry no instruction change no account, and no step changes an
/// account unless it ends the call in success.
pub proof fn lemma_call_writes_on_success_only(
    program_id: Seq<u8>,
    accounts: Seq<AccountView>,
    instruction_data: Seq<u8>,
    stage: Stage,
    reply: Reply,
)
    ensures
        spec_process_instruction(program_id, accounts, instruction_data, stage, reply).0
            != StepView::Done(Ok(())) ==> spec_process_instruction(
            program_id,
            accounts,
            instruction_data,
            stage,
            reply,
        ).1 == accounts,
{
}

} // verus!
