use vstd::prelude::*;

use crate::error::{outcome, Error, ErrorKind};
use crate::arm32::arm_encoding::arm_encoding;
use crate::arm32::arm_opcode::ArmOpcode;
use crate::arm32::instruction::Instruction;
use crate::arm32::thumb_decoding::{decode_thumb_at, thumb_decoding};
use crate::arm32::thumb_encoding::{encode_thumb_at, thumb_encoding};
use crate::arm32::thumb_opcode::ThumbOpcode;

verus! {

/// `a + b` modulo 2^32.
pub open spec fn wrap(a: u32, b: int) -> u32 {
    (a as int + b) as u32
}

/// An encoder and decoder of Arm and Thumb opcodes, with an address cursor
/// that PC-relative branches are measured from. The cursor advances, wrapping
/// around modulo 2^32, past every opcode that is encoded or decoded; a
/// refused instruction or opcode leaves it where it was.
///
/// Arm branches are measured from the cursor plus 8, Thumb branches from the
/// cursor plus 4.
#[derive(Clone, Debug)]
pub struct InstructionCodec {
    address: u32,
}

impl View for InstructionCodec {
    type V = u32;

    /// The cursor.
    closed spec fn view(&self) -> u32 {
        self.address
    }
}

impl InstructionCodec {
    /// A codec with its cursor at address zero.
    pub fn new() -> (r: InstructionCodec)
        ensures
            r@ == 0,
    {
        InstructionCodec::new_at(0)
    }

    /// A codec with its cursor at `address`.
    pub fn new_at(address: u32) -> (r: InstructionCodec)
        ensures
            r@ == address,
    {
        InstructionCodec { address }
    }

    /// The cursor.
    pub fn address(&self) -> (r: u32)
        ensures
            r == self@,
    {
        self.address
    }

    /// Moves the cursor to `address`.
    pub fn seek_to(&mut self, address: u32)
        ensures
            final(self)@ == address,
    {
        self.address = address;
    }

    /// Advances the cursor by `count` bytes.
    pub fn skip_bytes(&mut self, count: u32)
        ensures
            final(self)@ == wrap(old(self)@, count as int),
    {
        self.address = ((self.address as u64) + (count as u64)) as u32;
    }

    /// Advances the cursor by `count` halfwords.
    pub fn skip_halfwords(&mut self, count: u32)
        ensures
            final(self)@ == wrap(old(self)@, 2 * count as int),
    {
        self.address = ((self.address as u64) + 2 * (count as u64)) as u32;
    }

    /// Advances the cursor by `count` words.
    pub fn skip_words(&mut self, count: u32)
        ensures
            final(self)@ == wrap(old(self)@, 4 * count as int),
    {
        self.address = ((self.address as u64) + 4 * (count as u64)) as u32;
    }

    /// Encodes `instruction` as an Arm opcode; on success the cursor moves on
    /// by 4.
    pub fn encode_arm(&mut self, instruction: Instruction) -> (r: Result<ArmOpcode, Error>)
        ensures
            match arm_encoding(instruction) {
                Ok(op) => r matches Ok(o) && o@ == op && final(self)@ == wrap(old(self)@, 4),
                Err(kind) => r matches Err(e) && e.kind() == kind && final(self)@ == old(self)@,
            },
    {
        let r = instruction.encode_arm();
        if r.is_ok() {
            self.skip_words(1);
        }
        r
    }

    /// Encodes `instruction` as Thumb at the cursor: one opcode, or two for
    /// `BL`. On success the cursor moves on by 2 for each opcode.
    pub fn encode_thumb(&mut self, instruction: Instruction) -> (r: Result<(ThumbOpcode, Option<ThumbOpcode>), Error>)
        ensures
            match thumb_encoding(instruction, old(self)@) {
                Ok((first, second)) => r matches Ok((a, b)) && a@ == first && match second {
                    Some(op) => b matches Some(o) && o@ == op && final(self)@ == wrap(old(self)@, 4),
                    None => b is None && final(self)@ == wrap(old(self)@, 2),
                },
                Err(kind) => r matches Err(e) && e.kind() == kind && final(self)@ == old(self)@,
            },
            thumb_encoding(instruction, old(self)@) == Err::<(u16, Option<u16>), ErrorKind>(
                ErrorKind::IllegalInstruction,
            ) ==> r == Err::<(ThumbOpcode, Option<ThumbOpcode>), Error>(
                Error::IllegalInstruction { reason: "not supported on thumb" },
            ),
    {
        match encode_thumb_at(instruction, self.address) {
            Ok((first, second)) => {
                match second {
                    Some(op) => {
                        self.skip_halfwords(2);
                        Ok((ThumbOpcode::from_u16(first), Some(ThumbOpcode::from_u16(op))))
                    },
                    None => {
                        self.skip_halfwords(1);
                        Ok((ThumbOpcode::from_u16(first), None))
                    },
                }
            },
            Err(e) => Err(e),
        }
    }

    /// Decodes the Thumb opcode `opcode` at the cursor; on success the cursor
    /// moves on by 2.
    pub fn decode_thumb(&mut self, opcode: ThumbOpcode) -> (r: Result<Instruction, Error>)
        ensures
            outcome(r) == thumb_decoding(opcode@, old(self)@),
            r is Ok ==> final(self)@ == wrap(old(self)@, 2),
            r is Err ==> final(self)@ == old(self)@,
    {
        let r = decode_thumb_at(opcode.to_u16(), self.address);
        if r.is_ok() {
            self.skip_halfwords(1);
        }
        r
    }
}

impl Default for InstructionCodec {
    fn default() -> (r: InstructionCodec)
        ensures
            r@ == 0,
    {
        InstructionCodec::new()
    }
}

} // verus!
