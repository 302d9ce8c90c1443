//! The instructions of the escrow program and their wire format.
//!
//! An instruction is one tag byte followed by a 64-bit little-endian amount.
//! Bytes after the amount are ignored.

use vstd::prelude::*;
use crate::bytes::{le_value, read_u64_le};
use crate::error::EscrowError;

verus! {

/// A request to move an escrow from one phase to the next.
#[derive(Clone, Copy, Debug, PartialEq, Eq, Structural)]
pub enum EscrowInstruction {
    /// Opens an escrow: the initializer locks tokens and asks for `amount`
    /// of the other token in return.
    InitEscrow { amount: u64 },
    /// Completes an escrow: the taker pays and receives the locked tokens.
    FinalizeEscrow { amount: u64 },
}

/// The tag byte of [`EscrowInstruction::InitEscrow`].
pub const TAG_INIT_ESCROW: u8 = 0;

/// The tag byte of [`EscrowInstruction::FinalizeEscrow`].
pub const TAG_FINALIZE_ESCROW: u8 = 1;

/// The instruction that a payload spells, if it spells one: a known tag and
/// at least eight bytes of amount after it.
pub open spec fn decoded(input: Seq<u8>) -> Option<EscrowInstruction> {
    if input.len() < 9 {
        None
    } else if input[0] == TAG_INIT_ESCROW {
        Some(EscrowInstruction::InitEscrow { amount: le_value(input.subrange(1, 9)) as u64 })
    } else if input[0] == TAG_FINALIZE_ESCROW {
        Some(EscrowInstruction::FinalizeEscrow { amount: le_value(input.subrange(1, 9)) as u64 })
    } else {
        None
    }
}

impl EscrowInstruction {
    /// Decodes an instruction payload. An empty or truncated payload and an
    /// unknown tag are refused.
    pub fn unpack(input: &[u8]) -> (r: Result<EscrowInstruction, EscrowError>)
        ensures
            match decoded(input@) {
                Some(instruction) => r == Ok::<EscrowInstruction, EscrowError>(instruction),
                None => r == Err::<EscrowInstruction, EscrowError>(
                    EscrowError::InvalidInstruction,
                ),
            },
    {
        if input.len() < 1 {
            return Err(EscrowError::InvalidInstruction);
        }
        let tag: u8 = input[0];
        if tag != TAG_INIT_ESCROW && tag != TAG_FINALIZE_ESCROW {
            return Err(EscrowError::InvalidInstruction);
        }
        if input.len() < 9 {
            return Err(EscrowError::InvalidInstruction);
        }
        let amount = read_u64_le(input, 1);
        if tag == TAG_INIT_ESCROW {
            Ok(EscrowInstruction::InitEscrow { amount })
        } else {
            Ok(EscrowInstruction::FinalizeEscrow { amount })
        }
    }
}

} // verus!
