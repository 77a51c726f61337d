//! Instruction decoding.
//!
//! Wire format: byte 0 is the opcode (`0` = InitializeMint, `1` =
//! Transfer); a Transfer carries an unsigned 64-bit little-endian amount
//! in bytes 1 to 8. Any other opcode, a short Transfer payload or an
//! empty input is rejected. Decoding is a pure parse with no side
//! effects.

use vstd::prelude::*;

use crate::error::TokenError;

verus! {

/// A decoded instruction.
#[derive(Clone, Copy, Debug, PartialEq, Eq, Structural)]
pub enum TokenInstruction {
    InitializeMint,
    Transfer { amount: u64 },
}

/// The unsigned 64-bit value encoded little-endian in the 8 bytes of `s`.
pub open spec fn spec_le_u64(s: Seq<u8>) -> u64
    recommends
        s.len() == 8,
{
    (s[0] + s[1] * 0x100 + s[2] * 0x1_0000 + s[3] * 0x100_0000 + s[4] * 0x1_0000_0000 + s[5]
        * 0x100_0000_0000 + s[6] * 0x1_0000_0000_0000 + s[7] * 0x100_0000_0000_0000) as u64
}

/// What decoding returns for every input: `InitializeMint` for opcode 0,
/// `Transfer` with the little-endian amount of the next 8 bytes for
/// opcode 1, and `InvalidInstruction` for an empty input, an unknown
/// opcode or a short Transfer payload.
pub open spec fn spec_unpack(bytes: Seq<u8>) -> Result<TokenInstruction, TokenError> {
    if bytes.len() == 0 {
        Err(TokenError::InvalidInstruction)
    } else if bytes[0] == 0 {
        Ok(TokenInstruction::InitializeMint)
    } else if bytes[0] == 1 {
        if bytes.len() >= 9 {
            Ok(TokenInstruction::Transfer { amount: spec_le_u64(bytes.subrange(1, 9)) })
        } else {
            Err(TokenError::InvalidInstruction)
        }
    } else {
        Err(TokenError::InvalidInstruction)
    }
}

impl TokenInstruction {
    /// Parses a raw instruction. Pure: the result is exactly
    /// [`spec_unpack`] of the input bytes.
    pub fn unpack(input: &[u8]) -> (r: Result<TokenInstruction, TokenError>)
        ensures
            r == spec_unpack(input@),
    {
        if input.len() == 0 {
            return Err(TokenError::InvalidInstruction);
        }
        let tag = input[0];
        if tag == 0 {
            Ok(TokenInstruction::InitializeMint)
        } else if tag == 1 {
            if input.len() < 9 {
                return Err(TokenError::InvalidInstruction);
            }
            let amount: u64 = (input[1] as u64) + (input[2] as u64) * 0x100 + (input[3] as u64)
                * 0x1_0000 + (input[4] as u64) * 0x100_0000 + (input[5] as u64) * 0x1_0000_0000 + (
            input[6] as u64) * 0x100_0000_0000 + (input[7] as u64) * 0x1_0000_0000_0000 + (
            input[8] as u64) * 0x100_0000_0000_0000;
            proof {
                let s = input@.subrange(1, 9);
                assert(s[0] == input@[1] && s[1] == input@[2] && s[2] == input@[3] && s[3]
                    == input@[4] && s[4] == input@[5] && s[5] == input@[6] && s[6] == input@[7]
                    && s[7] == input@[8]);
            }
            Ok(TokenInstruction::Transfer { amount })
        } else {
            Err(TokenError::InvalidInstruction)
        }
    }
}

} // verus!
