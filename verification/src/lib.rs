//! An interpreter for a small, fictional 8-bit instruction set.
//!
//! A program image is a 2-byte big-endian magic header followed by one
//! instruction per byte. Each byte packs a 3-bit opcode with five
//! opcode-shaped operand bits; the decoded sequence drives a register
//! machine with two flags, a 4096-byte data segment and four peripheral
//! devices.

use vstd::prelude::*;

pub mod codec;
pub mod error;
pub mod helper;
pub mod machine;

pub use codec::{Device, Instruction, InstructionData, Opcode, Register};
pub use machine::Rim;

use codec::{lemma_decode_wf, spec_decode};
use error::RimError;
use machine::{prog_wf, MachineState};

verus! {

/// The big-endian 16-bit magic value that opens every valid program image.
pub const MAGIC: u16 = 0x8bca;

/// The magic header matches: the two signature bytes hold `MAGIC`,
/// big-endian.
pub open spec fn magic_matches(signature: [u8; 2]) -> bool {
    signature[0] == 0x8b && signature[1] == 0xca
}

/// True exactly when `signature` holds the magic header, big-endian.
pub fn check_magic(signature: [u8; 2]) -> (r: bool)
    ensures
        r <==> magic_matches(signature),
{
    let hi = signature[0];
    let lo = signature[1];
    proof {
        assert((((hi as u16) << 8) | (lo as u16)) == 0x8bca <==> (hi == 0x8b && lo == 0xca))
            by (bit_vector);
    }
    (((hi as u16) << 8) | (lo as u16)) == MAGIC
}

/// The instruction sequence a stream of instruction bytes decodes to: every
/// byte, in order, decoded independently.
pub open spec fn decoded_program(bytes: Seq<u8>) -> Seq<Instruction> {
    bytes.map_values(|b: u8| spec_decode(b))
}

/// Load a program image, handed over as its 2-byte signature and the byte
/// stream after it: validate the magic header, then decode every remaining
/// byte into the instruction sequence of a fresh engine. On a mismatched
/// header nothing is decoded; a matching header with no bytes after it is a
/// valid, empty program. Reading the image from its source — and the I/O
/// errors only that can raise — stays with the caller.
pub fn load_program(signature: [u8; 2], bytes: &[u8]) -> (r: Result<Rim, RimError>)
    ensures
        magic_matches(signature) ==> (r matches Ok(rim) && rim.wf() && rim.model()
            == MachineState::init() && rim.program() == decoded_program(bytes@)),
        !magic_matches(signature) ==> (r matches Err(RimError::InvalidMagic)),
{
    if !check_magic(signature) {
        return Err(RimError::InvalidMagic);
    }
    let mut instructions: Vec<Instruction> = Vec::new();
    let mut i: usize = 0;
    while i < bytes.len()
        invariant
            i <= bytes@.len(),
            instructions@.len() == i,
            forall|j: int|
                0 <= j < instructions@.len() ==> (#[trigger] instructions@[j]) == spec_decode(
                    bytes@[j],
                ),
        decreases bytes@.len() - i,
    {
        let inst = Instruction::decode(bytes[i]);
        instructions.push(inst);
        i += 1;
    }
    proof {
        assert forall|j: int| 0 <= j < instructions@.len() implies (#[trigger] instructions@[j]).wf() by {
            lemma_decode_wf(bytes@[j]);
        }
        assert(prog_wf(instructions@));
    }
    let rim = Rim::new(instructions);
    proof {
        assert(rim.program() =~= decoded_program(bytes@));
    }
    Ok(rim)
}

} // verus!
