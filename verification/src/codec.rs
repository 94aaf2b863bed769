//! The instruction codec: one byte to one typed instruction, and back.
//!
//! Bits 0-2 of every instruction byte hold the opcode tag; bits 3-7 hold an
//! operand payload whose shape depends on the opcode:
//!
//! * `Adi` - bits 3-7 form a 5-bit unsigned immediate.
//! * `Add`/`Sub` - bit 3 is the register-indirection flag, bits 4-5 the
//!   source register id, bits 6-7 the destination register id.
//! * `Jne`/`Jg`/`Jl` - bit 3 is the pointer flag, bits 4-7 a 4-bit address
//!   operand.
//! * `Ioi`/`Ior` - bits 3-4 the device id, bits 5-7 the function selector.
//!
//! Decoding is pure and total: every byte is exactly one valid instruction.
//! Encoding is the exact inverse, byte for byte (`lemma_encode_decode`).

use vstd::prelude::*;

use crate::helper::{U3, U4};

verus! {

/// The 3-bit operation selector, one of 8 instruction kinds.
#[derive(Clone, Copy, Debug, PartialEq, Eq, Structural)]
pub enum Opcode {
    Adi,
    Add,
    Sub,
    Jne,
    Jg,
    Jl,
    Ioi,
    Ior,
}

/// The tag an opcode occupies in bits 0-2 of its instruction byte.
pub open spec fn opcode_tag(op: Opcode) -> u8 {
    match op {
        Opcode::Adi => 0,
        Opcode::Add => 1,
        Opcode::Sub => 2,
        Opcode::Jne => 3,
        Opcode::Jg => 4,
        Opcode::Jl => 5,
        Opcode::Ioi => 6,
        Opcode::Ior => 7,
    }
}

/// The opcode named by the low 3 bits of a byte.
pub open spec fn opcode_of(b: u8) -> Opcode {
    if b & 7 == 0 {
        Opcode::Adi
    } else if b & 7 == 1 {
        Opcode::Add
    } else if b & 7 == 2 {
        Opcode::Sub
    } else if b & 7 == 3 {
        Opcode::Jne
    } else if b & 7 == 4 {
        Opcode::Jg
    } else if b & 7 == 5 {
        Opcode::Jl
    } else if b & 7 == 6 {
        Opcode::Ioi
    } else {
        Opcode::Ior
    }
}

impl Opcode {
    /// The 3-bit tag of this opcode, as a byte.
    pub fn tag(self) -> (t: u8)
        ensures
            t == opcode_tag(self),
    {
        match self {
            Opcode::Adi => 0,
            Opcode::Add => 1,
            Opcode::Sub => 2,
            Opcode::Jne => 3,
            Opcode::Jg => 4,
            Opcode::Jl => 5,
            Opcode::Ioi => 6,
            Opcode::Ior => 7,
        }
    }
}

impl From<u8> for Opcode {
    /// Reads the low 3 bits; the rest of the byte is ignored.
    fn from(opcode: u8) -> (r: Self) {
        let t = opcode & 7;
        if t == 0 {
            Opcode::Adi
        } else if t == 1 {
            Opcode::Add
        } else if t == 2 {
            Opcode::Sub
        } else if t == 3 {
            Opcode::Jne
        } else if t == 4 {
            Opcode::Jg
        } else if t == 5 {
            Opcode::Jl
        } else if t == 6 {
            Opcode::Ioi
        } else {
            Opcode::Ior
        }
    }
}

impl vstd::std_specs::convert::FromSpecImpl<u8> for Opcode {
    open spec fn obeys_from_spec() -> bool {
        true
    }

    open spec fn from_spec(v: u8) -> Opcode {
        opcode_of(v)
    }
}

/// One of the 4 byte registers of the machine.
#[derive(Clone, Copy, Debug, PartialEq, Eq, PartialOrd, Ord, Structural)]
pub enum Register {
    /// The accumulator and return value.
    Ra,
    /// A general-purpose register.
    Rb,
    /// The stack pointer.
    Rc,
    /// The high end of addresses.
    Rd,
}

/// The 2-bit id of a register.
pub open spec fn reg_id(r: Register) -> u8 {
    match r {
        Register::Ra => 0,
        Register::Rb => 1,
        Register::Rc => 2,
        Register::Rd => 3,
    }
}

/// The register named by the low 2 bits of a byte.
pub open spec fn register_of(b: u8) -> Register {
    if b & 3 == 0 {
        Register::Ra
    } else if b & 3 == 1 {
        Register::Rb
    } else if b & 3 == 2 {
        Register::Rc
    } else {
        Register::Rd
    }
}

impl Register {
    /// The 2-bit id of this register, as a byte.
    pub fn id(self) -> (v: u8)
        ensures
            v == reg_id(self),
    {
        match self {
            Register::Ra => 0,
            Register::Rb => 1,
            Register::Rc => 2,
            Register::Rd => 3,
        }
    }
}

impl From<u8> for Register {
    /// Reads the low 2 bits; the rest of the byte is ignored.
    fn from(id: u8) -> (r: Self) {
        let t = id & 3;
        if t == 0 {
            Register::Ra
        } else if t == 1 {
            Register::Rb
        } else if t == 2 {
            Register::Rc
        } else {
            Register::Rd
        }
    }
}

impl vstd::std_specs::convert::FromSpecImpl<u8> for Register {
    open spec fn obeys_from_spec() -> bool {
        true
    }

    open spec fn from_spec(v: u8) -> Register {
        register_of(v)
    }
}

/// Truncating to 2 bits and naming a register are mutually inverse.
pub proof fn lemma_register_id_of(v: u8)
    ensures
        reg_id(register_of(v)) == v & 3,
{
    assert(v & 3 < 4) by (bit_vector);
}

/// One of the 4 fixed peripheral devices.
#[derive(Clone, Copy, Debug, PartialEq, Eq, PartialOrd, Ord, Structural)]
pub enum Device {
    Cpu,
    Kbd,
    Scr,
    Mth,
}

/// The 2-bit id of a device.
pub open spec fn device_id(d: Device) -> u8 {
    match d {
        Device::Cpu => 0,
        Device::Kbd => 1,
        Device::Scr => 2,
        Device::Mth => 3,
    }
}

/// The device named by the low 2 bits of a byte.
pub open spec fn device_of(b: u8) -> Device {
    if b & 3 == 0 {
        Device::Cpu
    } else if b & 3 == 1 {
        Device::Kbd
    } else if b & 3 == 2 {
        Device::Scr
    } else {
        Device::Mth
    }
}

impl Device {
    /// The 2-bit id of this device, as a byte.
    pub fn id(self) -> (v: u8)
        ensures
            v == device_id(self),
    {
        match self {
            Device::Cpu => 0,
            Device::Kbd => 1,
            Device::Scr => 2,
            Device::Mth => 3,
        }
    }
}

impl From<u8> for Device {
    /// Reads the low 2 bits; the rest of the byte is ignored.
    fn from(id: u8) -> (r: Self) {
        let t = id & 3;
        if t == 0 {
            Device::Cpu
        } else if t == 1 {
            Device::Kbd
        } else if t == 2 {
            Device::Scr
        } else {
            Device::Mth
        }
    }
}

impl vstd::std_specs::convert::FromSpecImpl<u8> for Device {
    open spec fn obeys_from_spec() -> bool {
        true
    }

    open spec fn from_spec(v: u8) -> Device {
        device_of(v)
    }
}

/// Truncating to 2 bits and naming a device are mutually inverse.
pub proof fn lemma_device_id_of(v: u8)
    ensures
        device_id(device_of(v)) == v & 3,
{
    assert(v & 3 < 4) by (bit_vector);
}

/// The operand payload of an instruction: a tagged union whose shape is
/// selected by the opcode.
#[derive(Clone, Copy, Debug, PartialEq, Eq, Structural)]
pub enum InstructionData {
    /// A 5-bit unsigned immediate, for `Adi`.
    Imm(u8),
    /// A register pair with an indirection flag, for `Add` and `Sub`.
    Reg { is_id: bool, src: Register, dest: Register },
    /// A 4-bit address operand with a pointer flag, for `Jne`, `Jg`, `Jl`.
    Mem { is_ptr: bool, addr: U4 },
    /// A device and a 3-bit function selector, for `Ioi` and `Ior`.
    Io { device: Device, function: U3 },
}

impl InstructionData {
    /// The immediate operand. The payload must have the `Imm` shape.
    pub fn as_imm(self) -> (imm: u8)
        requires
            self is Imm,
        ensures
            self == InstructionData::Imm(imm),
    {
        match self {
            InstructionData::Imm(imm) => imm,
            _ => 0,
        }
    }

    /// The indirection flag and register pair. The payload must have the
    /// `Reg` shape.
    pub fn as_reg(self) -> (r: (bool, Register, Register))
        requires
            self is Reg,
        ensures
            self == (InstructionData::Reg { is_id: r.0, src: r.1, dest: r.2 }),
    {
        match self {
            InstructionData::Reg { is_id, src, dest } => (is_id, src, dest),
            _ => (false, Register::Ra, Register::Ra),
        }
    }

    /// The pointer flag and address operand. The payload must have the
    /// `Mem` shape.
    pub fn as_mem(self) -> (r: (bool, U4))
        requires
            self is Mem,
        ensures
            self == (InstructionData::Mem { is_ptr: r.0, addr: r.1 }),
    {
        match self {
            InstructionData::Mem { is_ptr, addr } => (is_ptr, addr),
            _ => (false, U4(0)),
        }
    }

    /// The device and function selector. The payload must have the `Io`
    /// shape.
    pub fn as_io(self) -> (r: (Device, U3))
        requires
            self is Io,
        ensures
            self == (InstructionData::Io { device: r.0, function: r.1 }),
    {
        match self {
            InstructionData::Io { device, function } => (device, function),
            _ => (Device::Cpu, U3(0)),
        }
    }
}

/// A decoded instruction: an opcode and an opcode-shaped operand payload.
#[derive(Clone, Copy, Debug, PartialEq, Eq, Structural)]
pub struct Instruction(pub Opcode, pub InstructionData);

impl Instruction {
    /// The payload's shape matches the opcode and every sub-field fits its
    /// bit width. Decoding establishes this; the engine relies on it.
    pub open spec fn wf(self) -> bool {
        match self.1 {
            InstructionData::Imm(imm) => self.0 is Adi && imm < 32,
            InstructionData::Reg { is_id, src, dest } => self.0 is Add || self.0 is Sub,
            InstructionData::Mem { is_ptr, addr } => (self.0 is Jne || self.0 is Jg
                || self.0 is Jl) && addr.wf(),
            InstructionData::Io { device, function } => (self.0 is Ioi || self.0 is Ior)
                && function.wf(),
        }
    }
}

/// The payload encoded in the high five bits of `b`, under the shape that
/// `op` selects. `b` is expected with its low 3 bits already cleared, but
/// every sub-field is read so that those bits would not matter anyway.
pub open spec fn payload_of(op: Opcode, b: u8) -> InstructionData {
    match op {
        Opcode::Adi => InstructionData::Imm(b >> 3),
        Opcode::Add | Opcode::Sub => InstructionData::Reg {
            is_id: b & 8 != 0,
            src: register_of(b >> 4),
            dest: register_of(b >> 6),
        },
        Opcode::Jne | Opcode::Jg | Opcode::Jl => InstructionData::Mem {
            is_ptr: b & 8 != 0,
            addr: U4((b >> 4) & 15),
        },
        Opcode::Ioi | Opcode::Ior => InstructionData::Io {
            device: device_of(b >> 3),
            function: U3((b >> 5) & 7),
        },
    }
}

impl Opcode {
    /// Decode the five operand bits of `data` under this opcode's shape.
    /// Callers pass the instruction byte with its opcode bits masked off.
    pub fn parse_data(&self, data: u8) -> (r: InstructionData)
        ensures
            r == payload_of(*self, data),
    {
        match self {
            Opcode::Adi => InstructionData::Imm(data >> 3),
            Opcode::Add | Opcode::Sub => {
                let is_id = data & 8 != 0;
                let src = Register::from(data >> 4);
                let dest = Register::from(data >> 6);
                InstructionData::Reg { is_id, src, dest }
            },
            Opcode::Jne | Opcode::Jg | Opcode::Jl => {
                let is_ptr = data & 8 != 0;
                let addr = U4::from(data >> 4);
                InstructionData::Mem { is_ptr, addr }
            },
            Opcode::Ioi | Opcode::Ior => {
                let device = Device::from(data >> 3);
                let function = U3::from(data >> 5);
                InstructionData::Io { device, function }
            },
        }
    }
}

/// What decoding a byte yields: the opcode from the low 3 bits, the payload
/// from the high 5.
pub open spec fn spec_decode(b: u8) -> Instruction {
    Instruction(opcode_of(b), payload_of(opcode_of(b), b & 0xf8))
}

/// The five payload bits of an encoded instruction, in place.
pub open spec fn payload_bits(data: InstructionData) -> u8 {
    match data {
        InstructionData::Imm(imm) => imm << 3,
        InstructionData::Reg { is_id, src, dest } => (if is_id { 8u8 } else { 0u8 })
            | (reg_id(src) << 4) | (reg_id(dest) << 6),
        InstructionData::Mem { is_ptr, addr } => (if is_ptr { 8u8 } else { 0u8 })
            | (addr.0 << 4),
        InstructionData::Io { device, function } => (device_id(device) << 3)
            | (function.0 << 5),
    }
}

/// The byte an instruction encodes to: tag bits or'd with payload bits.
pub open spec fn spec_encode(i: Instruction) -> u8 {
    opcode_tag(i.0) | payload_bits(i.1)
}

impl Instruction {
    /// Decode one instruction byte. Total: every byte value is exactly one
    /// valid, well-formed instruction.
    pub fn decode(byte: u8) -> (i: Instruction)
        ensures
            i == spec_decode(byte),
            i.wf(),
    {
        let opcode = Opcode::from(byte);
        let data = opcode.parse_data(byte & 0xf8);
        proof {
            lemma_decode_wf(byte);
        }
        Instruction(opcode, data)
    }

    /// Re-pack this instruction into its byte. The inverse of `decode`.
    pub fn encode(&self) -> (b: u8)
        ensures
            b == spec_encode(*self),
    {
        let tag = self.0.tag();
        let data = u8::from(self.1);
        tag | data
    }
}

impl From<InstructionData> for u8 {
    /// The five payload bits of a packed instruction, in place.
    fn from(data: InstructionData) -> (r: Self) {
        match data {
            InstructionData::Imm(imm) => imm << 3,
            InstructionData::Reg { is_id, src, dest } => (if is_id { 8 } else { 0 })
                | (src.id() << 4) | (dest.id() << 6),
            InstructionData::Mem { is_ptr, addr } => (if is_ptr { 8 } else { 0 })
                | (addr.value() << 4),
            InstructionData::Io { device, function } => (device.id() << 3)
                | (function.value() << 5),
        }
    }
}

impl vstd::std_specs::convert::FromSpecImpl<InstructionData> for u8 {
    open spec fn obeys_from_spec() -> bool {
        true
    }

    open spec fn from_spec(data: InstructionData) -> u8 {
        payload_bits(data)
    }
}

impl From<Instruction> for u8 {
    /// The byte an instruction packs into: its opcode tag or'd with its
    /// payload bits.
    fn from(instruction: Instruction) -> (r: Self) {
        instruction.encode()
    }
}

impl vstd::std_specs::convert::FromSpecImpl<Instruction> for u8 {
    open spec fn obeys_from_spec() -> bool {
        true
    }

    open spec fn from_spec(i: Instruction) -> u8 {
        spec_encode(i)
    }
}

/// Decoding any byte gives a well-formed instruction.
pub proof fn lemma_decode_wf(b: u8)
    ensures
        spec_decode(b).wf(),
{
    let data = b & 0xf8;
    assert(data >> 3 < 32) by (bit_vector);
    assert((data >> 4) & 15 < 16) by (bit_vector);
    assert((data >> 5) & 7 < 8) by (bit_vector);
}

/// Law: re-encoding the instruction decoded from any byte gives that byte
/// back, bit for bit.
pub proof fn lemma_encode_decode(b: u8)
    ensures
        spec_encode(spec_decode(b)) == b,
{
    let data = b & 0xf8;
    assert(b & 7 <= 7) by (bit_vector);
    match opcode_of(b) {
        Opcode::Adi => {
            assert(((b & 7) | (((b & 0xf8) >> 3) << 3)) == b) by (bit_vector)
                requires
                    b & 7 == 0,
            ;
        },
        Opcode::Add | Opcode::Sub => {
            lemma_register_id_of(data >> 4);
            lemma_register_id_of(data >> 6);
            if data & 8 != 0 {
                assert(((b & 7) | ((8u8 | ((((b & 0xf8) >> 4) & 3) << 4))
                    | ((((b & 0xf8) >> 6) & 3) << 6))) == b) by (bit_vector)
                    requires
                        (b & 0xf8) & 8 != 0,
                ;
            } else {
                assert(((b & 7) | ((0u8 | ((((b & 0xf8) >> 4) & 3) << 4))
                    | ((((b & 0xf8) >> 6) & 3) << 6))) == b) by (bit_vector)
                    requires
                        (b & 0xf8) & 8 == 0,
                ;
            }
        },
        Opcode::Jne | Opcode::Jg | Opcode::Jl => {
            if data & 8 != 0 {
                assert(((b & 7) | (8u8 | ((((b & 0xf8) >> 4) & 15) << 4))) == b) by (bit_vector)
                    requires
                        (b & 0xf8) & 8 != 0,
                ;
            } else {
                assert(((b & 7) | (0u8 | ((((b & 0xf8) >> 4) & 15) << 4))) == b) by (bit_vector)
                    requires
                        (b & 0xf8) & 8 == 0,
                ;
            }
        },
        Opcode::Ioi | Opcode::Ior => {
            lemma_device_id_of(data >> 3);
            assert(((b & 7) | (((((b & 0xf8) >> 3) & 3) << 3)
                | ((((b & 0xf8) >> 5) & 7) << 5))) == b) by (bit_vector);
        },
    }
}

/// Law: decoding the byte a well-formed instruction encodes to gives the
/// instruction back. With `lemma_encode_decode` this makes the codec a
/// bijection between bytes and well-formed instructions.
pub proof fn lemma_decode_encode(i: Instruction)
    requires
        i.wf(),
    ensures
        spec_decode(spec_encode(i)) == i,
{
    let t = opcode_tag(i.0);
    match i.1 {
        InstructionData::Imm(imm) => {
            assert(((0u8 | (imm << 3)) & 7 == 0) && ((((0u8 | (imm << 3)) & 0xf8) >> 3) == imm))
                by (bit_vector)
                requires
                    imm < 32,
            ;
        },
        InstructionData::Reg { is_id, src, dest } => {
            let f: u8 = if is_id { 8 } else { 0 };
            let rs = reg_id(src);
            let rd = reg_id(dest);
            assert({
                ((t | ((f | (rs << 4)) | (rd << 6))) & 7 == t)
                    && (((t | ((f | (rs << 4)) | (rd << 6))) & 0xf8) & 8 == f)
                    && ((((t | ((f | (rs << 4)) | (rd << 6))) & 0xf8) >> 4) & 3 == rs)
                    && ((((t | ((f | (rs << 4)) | (rd << 6))) & 0xf8) >> 6) & 3 == rd)
            }) by (bit_vector)
                requires
                    t < 8 && rs < 4 && rd < 4 && (f == 8 || f == 0),
            ;
        },
        InstructionData::Mem { is_ptr, addr } => {
            let f: u8 = if is_ptr { 8 } else { 0 };
            let a = addr.0;
            assert({
                ((t | (f | (a << 4))) & 7 == t) && (((t | (f | (a << 4))) & 0xf8) & 8 == f)
                    && ((((t | (f | (a << 4))) & 0xf8) >> 4) & 15 == a)
            }) by (bit_vector)
                requires
                    t < 8 && a < 16 && (f == 8 || f == 0),
            ;
        },
        InstructionData::Io { device, function } => {
            let d = device_id(device);
            let u = function.0;
            assert({
                ((t | ((d << 3) | (u << 5))) & 7 == t)
                    && (((t | ((d << 3) | (u << 5))) & 0xf8) >> 3) & 3 == d
                    && (((t | ((d << 3) | (u << 5))) & 0xf8) >> 5) & 7 == u
            }) by (bit_vector)
                requires
                    t < 8 && d < 4 && u < 8,
            ;
        },
    }
}

} // verus!
