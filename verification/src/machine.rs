//! The execution engine: machine state, the fetch/execute cycle, and the
//! device dispatcher.
//!
//! Dispatch discipline: linear sequential. The engine visits every
//! instruction of the program once, in order. Control-transfer opcodes only
//! overwrite the position counter, which the loop does not consult, so a
//! jump changes observable state but never which instruction runs next. A
//! device halt or a fatal runtime condition ends the pass early.
//!
//! Fatal runtime conditions (division by zero in the Math device, an
//! unimplemented Keyboard function, a register index outside the 4
//! registers) end execution immediately and are surfaced as errors.

use vstd::prelude::*;

use std::io::Write;

use crate::codec::{reg_id, Device, Instruction, InstructionData, Opcode, Register};
use crate::error::{RimError, RimResult};
use crate::helper::{U3, U4};

verus! {

/// The machine state as mathematics: 4 byte registers, the sign and zero
/// flags, the 4096-byte data segment, and the position counter.
#[verifier::ext_equal]
pub ghost struct MachineState {
    pub regs: Seq<u8>,
    pub sign: bool,
    pub zero: bool,
    pub data: Seq<u8>,
    pub pc: nat,
}

impl MachineState {
    /// Exactly 4 registers and exactly 4096 data bytes.
    pub open spec fn wf(self) -> bool {
        self.regs.len() == 4 && self.data.len() == 4096
    }

    /// The all-zero state every engine starts from.
    pub open spec fn init() -> MachineState {
        MachineState {
            regs: Seq::new(4, |i: int| 0u8),
            sign: false,
            zero: false,
            data: Seq::new(4096, |i: int| 0u8),
            pc: 0,
        }
    }
}

/// How one step of execution can end.
pub ghost enum StepOut {
    /// The machine continues with this state.
    Next(MachineState),
    /// A device signalled a halt; execution ends successfully in this state.
    Halt(MachineState),
    /// A fatal runtime condition; the state is left as it was.
    Fault(RimError),
}

/// A 12-bit data-segment address: the high-address register shifted left by
/// 4, or'd with a low byte.
pub open spec fn compose_addr(high: u8, low: u8) -> u16 {
    ((high as u16) << 4) | (low as u16)
}

/// A register-composed address always stays inside the data segment.
pub proof fn lemma_compose_addr_bound(high: u8, low: u8)
    ensures
        compose_addr(high, low) < 4096,
{
    assert((((high as u16) << 4) | (low as u16)) < 4096) by (bit_vector);
}

/// Two-step register resolution: with `indirect` set, the named register is
/// not used itself; its current value, masked to 2 bits, names the register
/// actually used.
pub open spec fn resolve_reg(s: MachineState, r: Register, indirect: bool) -> int {
    if indirect {
        (s.regs[reg_id(r) as int] & 3) as int
    } else {
        reg_id(r) as int
    }
}

/// The target of a jump: the register-composed address built from the 4-bit
/// operand, or, under pointer addressing, the byte stored at that address
/// re-composed with the high register.
pub open spec fn jump_target(s: MachineState, is_ptr: bool, addr: U4) -> u16 {
    let direct = compose_addr(s.regs[3], addr.0);
    if is_ptr {
        compose_addr(s.regs[3], s.data[direct as int])
    } else {
        direct
    }
}

/// The register index an arithmetic instruction writes to: the accumulator
/// for `Adi`, the resolved destination for `Add` and `Sub`.
pub open spec fn arith_dest(s: MachineState, inst: Instruction) -> int {
    match inst.1 {
        InstructionData::Reg { is_id, src, dest } => resolve_reg(s, dest, is_id),
        _ => 0,
    }
}

/// One fetch/execute step on a well-formed state and instruction.
pub open spec fn spec_step(s: MachineState, inst: Instruction) -> StepOut {
    match inst.1 {
        InstructionData::Imm(imm) => {
            let res = vstd::wrapping::u8_specs::wrapping_add(s.regs[0], imm);
            StepOut::Next(MachineState { regs: s.regs.update(0, res), sign: false, zero: res == 0, ..s })
        },
        InstructionData::Reg { is_id, src, dest } => {
            let si = resolve_reg(s, src, is_id);
            let di = resolve_reg(s, dest, is_id);
            if inst.0 is Add {
                let res = vstd::wrapping::u8_specs::wrapping_add(s.regs[di], s.regs[si]);
                StepOut::Next(MachineState { regs: s.regs.update(di, res), sign: false, zero: res == 0, ..s })
            } else {
                let res = vstd::wrapping::u8_specs::wrapping_sub(s.regs[di], s.regs[si]);
                StepOut::Next(MachineState {
                    regs: s.regs.update(di, res),
                    sign: s.regs[di] < s.regs[si],
                    zero: res == 0,
                    ..s
                })
            }
        },
        InstructionData::Mem { is_ptr, addr } => {
            let taken = if inst.0 is Jne {
                !s.zero
            } else if inst.0 is Jg {
                s.sign
            } else {
                !s.sign && !s.zero
            };
            if taken {
                StepOut::Next(MachineState { pc: jump_target(s, is_ptr, addr) as nat, ..s })
            } else {
                StepOut::Next(s)
            }
        },
        InstructionData::Io { device, function } => {
            let value = if inst.0 is Ior {
                s.regs[(s.regs[0] & 3) as int]
            } else {
                s.regs[0]
            };
            spec_io(s, device, function.0, value)
        },
    }
}

/// Device dispatch: function `function` of `device`, invoked with `value`.
pub open spec fn spec_io(s: MachineState, device: Device, function: u8, value: u8) -> StepOut {
    match device {
        Device::Cpu => spec_io_cpu(s, function, value),
        Device::Kbd => if function == 0 || function == 1 {
            StepOut::Fault(RimError::Unimplemented)
        } else {
            StepOut::Next(s)
        },
        Device::Scr => if function == 3 || function == 4 {
            StepOut::Next(MachineState { regs: s.regs.update(0, 0u8), ..s })
        } else {
            StepOut::Next(s)
        },
        Device::Mth => spec_io_mth(s, function, value),
    }
}

/// The Cpu device: halt, accumulator clearing, and direct or
/// doubly-indirected loads and stores against the data segment.
pub open spec fn spec_io_cpu(s: MachineState, function: u8, value: u8) -> StepOut {
    if function == 0 {
        StepOut::Halt(s)
    } else if function == 2 {
        StepOut::Next(MachineState { regs: s.regs.update(0, 0u8), ..s })
    } else if function == 3 {
        let a = compose_addr(s.regs[3], value);
        StepOut::Next(MachineState { regs: s.regs.update(0, s.data[a as int]), ..s })
    } else if function == 4 {
        let a = compose_addr(s.regs[3], value);
        StepOut::Next(MachineState { data: s.data.update(a as int, s.regs[0]), ..s })
    } else if function == 5 {
        let a = compose_addr(s.regs[3], value);
        let a2 = compose_addr(s.regs[3], s.data[a as int]);
        StepOut::Next(MachineState { regs: s.regs.update(0, s.data[a2 as int]), ..s })
    } else if function == 6 {
        let a = compose_addr(s.regs[3], value);
        let a2 = compose_addr(s.regs[3], s.data[a as int]);
        StepOut::Next(MachineState { data: s.data.update(a2 as int, s.regs[0]), ..s })
    } else {
        // functions 1 and 7 are no-ops
        StepOut::Next(s)
    }
}

/// The Math device: widening multiply, division, bitwise self-operations,
/// and flag packing and unpacking. `value` selects a register for the
/// multiply and divide; a value that names no register is fatal.
pub open spec fn spec_io_mth(s: MachineState, function: u8, value: u8) -> StepOut {
    if function == 0 {
        if value >= 4 {
            StepOut::Fault(RimError::RegisterOutOfRange)
        } else {
            let prod = s.regs[0] * s.regs[value as int];
            StepOut::Next(MachineState {
                regs: s.regs.update(0, (prod % 256) as u8).update(1, (prod / 256) as u8),
                zero: prod == 0,
                ..s
            })
        }
    } else if function == 1 {
        if value >= 4 {
            StepOut::Fault(RimError::RegisterOutOfRange)
        } else if s.regs[value as int] == 0 {
            StepOut::Fault(RimError::DivideByZero)
        } else {
            let res = (s.regs[0] / s.regs[value as int]) as u8;
            StepOut::Next(MachineState { regs: s.regs.update(0, res), zero: res == 0, ..s })
        }
    } else if function == 2 || function == 3 {
        // AND and OR of the accumulator with itself leave it unchanged
        StepOut::Next(MachineState { zero: s.regs[0] == 0, ..s })
    } else if function == 4 {
        // XOR of the accumulator with itself clears it
        StepOut::Next(MachineState { regs: s.regs.update(0, 0u8), zero: true, ..s })
    } else if function == 5 {
        let res = (255 - s.regs[0]) as u8;
        StepOut::Next(MachineState { regs: s.regs.update(0, res), zero: res == 0, ..s })
    } else if function == 6 {
        // pack the flags into a register index and read that register;
        // the result is discarded, so the state is unchanged
        StepOut::Next(s)
    } else {
        StepOut::Next(MachineState { sign: value & 1 != 0, zero: value & 2 != 0, ..s })
    }
}

/// Every instruction of a program is well formed.
pub open spec fn prog_wf(prog: Seq<Instruction>) -> bool {
    forall|i: int| 0 <= i < prog.len() ==> (#[trigger] prog[i]).wf()
}

/// The outcome of running `prog` from index `i` in linear order: the final
/// machine state, and the fatal error if one cut the pass short.
pub open spec fn spec_run(s: MachineState, prog: Seq<Instruction>, i: int) -> (MachineState, Option<
    RimError,
>)
    decreases prog.len() - i,
{
    if i < 0 || i >= prog.len() {
        (s, None)
    } else {
        match spec_step(s, prog[i]) {
            StepOut::Next(s2) => spec_run(s2, prog, i + 1),
            StepOut::Halt(s2) => (s2, None),
            StepOut::Fault(e) => (s, Some(e)),
        }
    }
}

/// Relies on write! to std::io::stdout: emits the ANSI sequence that moves
/// the cursor to row `value`.
#[verifier::external_body]
fn screen_set_row(value: u8) {
    let _ = write!(std::io::stdout(), "\x1b[{};H", value);
}

/// Relies on write! to std::io::stdout: emits the ANSI sequence that moves
/// the cursor to column `value`.
#[verifier::external_body]
fn screen_set_col(value: u8) {
    let _ = write!(std::io::stdout(), "\x1b[;{}H", value);
}

/// Relies on write! to std::io::stdout: emits `value` as a character.
#[verifier::external_body]
fn screen_put_char(value: u8) {
    let _ = write!(std::io::stdout(), "{}", value as char);
}

/// Relies on writeln! to std::io::stdout: emits the ANSI clear-screen
/// sequence.
#[verifier::external_body]
fn screen_clear() {
    let _ = writeln!(std::io::stdout(), "\x1b[2J");
}

/// A loaded program together with the machine state it runs against.
#[derive(Clone, Debug)]
pub struct Rim {
    instructions: Vec<Instruction>,
    pc: usize,
    registers: Vec<u8>,
    sign: bool,
    zero: bool,
    data: Vec<u8>,
}

impl Rim {
    /// The program this engine was loaded with.
    pub closed spec fn program(&self) -> Seq<Instruction> {
        self.instructions@
    }

    /// The mathematical view of the machine state.
    pub closed spec fn model(&self) -> MachineState {
        MachineState {
            regs: self.registers@,
            sign: self.sign,
            zero: self.zero,
            data: self.data@,
            pc: self.pc as nat,
        }
    }

    /// A valid engine: well-formed state, well-formed instructions.
    pub open spec fn wf(&self) -> bool {
        self.model().wf() && prog_wf(self.program())
    }

    /// A fresh engine for `instructions`: registers, flags, memory and the
    /// position counter all start at zero.
    pub fn new(instructions: Vec<Instruction>) -> (rim: Rim)
        requires
            prog_wf(instructions@),
        ensures
            rim.wf(),
            rim.program() == instructions@,
            rim.model() == MachineState::init(),
    {
        let mut registers: Vec<u8> = Vec::new();
        registers.push(0);
        registers.push(0);
        registers.push(0);
        registers.push(0);
        let mut data: Vec<u8> = Vec::new();
        let mut i: usize = 0;
        while i < 4096
            invariant
                data@.len() == i,
                i <= 4096,
                forall|j: int| 0 <= j < i ==> data@[j] == 0u8,
            decreases 4096 - i,
        {
            data.push(0);
            i += 1;
        }
        let rim = Rim { instructions, pc: 0, registers, sign: false, zero: false, data };
        proof {
            assert(rim.model().regs =~= MachineState::init().regs);
            assert(rim.model().data =~= MachineState::init().data);
            assert(rim.model() =~= MachineState::init());
        }
        rim
    }

    /// Read a register.
    pub fn register(&self, r: Register) -> (v: u8)
        requires
            self.wf(),
        ensures
            v == self.model().regs[reg_id(r) as int],
    {
        let idx = r.id() as usize;
        self.registers[idx]
    }

    /// Overwrite a register.
    pub fn set_register(&mut self, r: Register, v: u8)
        requires
            old(self).wf(),
        ensures
            final(self).wf(),
            final(self).program() == old(self).program(),
            final(self).model() == (MachineState {
                regs: old(self).model().regs.update(reg_id(r) as int, v),
                ..old(self).model()
            }),
    {
        let idx = r.id() as usize;
        self.registers[idx] = v;
    }

    /// The sign (negative/borrow) flag.
    pub fn sign_flag(&self) -> (b: bool)
        ensures
            b == self.model().sign,
    {
        self.sign
    }

    /// The zero flag.
    pub fn zero_flag(&self) -> (b: bool)
        ensures
            b == self.model().zero,
    {
        self.zero
    }

    /// Overwrite both flags.
    pub fn set_flags(&mut self, sign: bool, zero: bool)
        requires
            old(self).wf(),
        ensures
            final(self).wf(),
            final(self).program() == old(self).program(),
            final(self).model() == (MachineState { sign, zero, ..old(self).model() }),
    {
        self.sign = sign;
        self.zero = zero;
    }

    /// Read a data-segment byte.
    pub fn read_data(&self, addr: u16) -> (v: u8)
        requires
            self.wf(),
            addr < 4096,
        ensures
            v == self.model().data[addr as int],
    {
        self.data[addr as usize]
    }

    /// Overwrite a data-segment byte.
    pub fn write_data(&mut self, addr: u16, v: u8)
        requires
            old(self).wf(),
            addr < 4096,
        ensures
            final(self).wf(),
            final(self).program() == old(self).program(),
            final(self).model() == (MachineState {
                data: old(self).model().data.update(addr as int, v),
                ..old(self).model()
            }),
    {
        self.data[addr as usize] = v;
    }

    /// The position counter.
    pub fn pc(&self) -> (p: usize)
        ensures
            p == self.model().pc,
    {
        self.pc
    }

    /// Compose a 12-bit data-segment address from the high-address register
    /// and `low`, and prove it in bounds.
    fn address(&self, low: u8) -> (a: u16)
        requires
            self.wf(),
        ensures
            a == compose_addr(self.model().regs[3], low),
            a < 4096,
    {
        let high = self.registers[3];
        proof {
            lemma_compose_addr_bound(high, low);
        }
        ((high as u16) << 4) | (low as u16)
    }

    /// Execute one instruction against the current state. `Ok(true)` means
    /// a device signalled a halt; `Ok(false)` means execution goes on; an
    /// error is a fatal runtime condition, with the state left untouched.
    pub fn step(&mut self, inst: Instruction) -> (r: RimResult<bool>)
        requires
            old(self).wf(),
            inst.wf(),
        ensures
            final(self).wf(),
            final(self).program() == old(self).program(),
            (match r {
                Ok(true) => spec_step(old(self).model(), inst) == StepOut::Halt(
                    final(self).model(),
                ),
                Ok(false) => spec_step(old(self).model(), inst) == StepOut::Next(
                    final(self).model(),
                ),
                Err(e) => spec_step(old(self).model(), inst) == StepOut::Fault(e)
                    && final(self).model() == old(self).model(),
            }),
    {
        match inst.0 {
            Opcode::Adi => {
                let imm = inst.1.as_imm();
                let res = self.registers[0].wrapping_add(imm);
                self.registers[0] = res;
                self.sign = false;
                self.zero = res == 0;
                Ok(false)
            },
            Opcode::Add => {
                let (is_id, src, dest) = inst.1.as_reg();
                let si = self.resolve(src, is_id);
                let di = self.resolve(dest, is_id);
                let res = self.registers[di].wrapping_add(self.registers[si]);
                self.registers[di] = res;
                self.sign = false;
                self.zero = res == 0;
                Ok(false)
            },
            Opcode::Sub => {
                let (is_id, src, dest) = inst.1.as_reg();
                let si = self.resolve(src, is_id);
                let di = self.resolve(dest, is_id);
                let borrow = self.registers[di] < self.registers[si];
                let res = self.registers[di].wrapping_sub(self.registers[si]);
                self.registers[di] = res;
                self.sign = borrow;
                self.zero = res == 0;
                Ok(false)
            },
            Opcode::Jne => {
                let (is_ptr, addr) = inst.1.as_mem();
                let target = self.jump_addr(is_ptr, addr);
                if !self.zero {
                    self.pc = target as usize;
                }
                Ok(false)
            },
            Opcode::Jg => {
                let (is_ptr, addr) = inst.1.as_mem();
                let target = self.jump_addr(is_ptr, addr);
                if self.sign {
                    self.pc = target as usize;
                }
                Ok(false)
            },
            Opcode::Jl => {
                let (is_ptr, addr) = inst.1.as_mem();
                let target = self.jump_addr(is_ptr, addr);
                if !self.sign && !self.zero {
                    self.pc = target as usize;
                }
                Ok(false)
            },
            Opcode::Ioi => {
                let (device, function) = inst.1.as_io();
                let value = self.registers[0];
                self.io(device, function, value)
            },
            Opcode::Ior => {
                let (device, function) = inst.1.as_io();
                let acc = self.registers[0];
                proof {
                    assert(acc & 3 < 4) by (bit_vector);
                }
                let value = self.registers[(acc & 3) as usize];
                self.io(device, function, value)
            },
        }
    }

    /// Resolve a register operand to the index of the register actually
    /// used, applying one level of register indirection when asked to.
    fn resolve(&self, r: Register, indirect: bool) -> (idx: usize)
        requires
            self.wf(),
        ensures
            idx == resolve_reg(self.model(), r, indirect),
            idx < 4,
    {
        let id = r.id() as usize;
        if indirect {
            let held = self.registers[id];
            proof {
                assert(held & 3 < 4) by (bit_vector);
            }
            (held & 3) as usize
        } else {
            id
        }
    }

    /// The jump target under direct or pointer addressing.
    fn jump_addr(&self, is_ptr: bool, addr: U4) -> (a: u16)
        requires
            self.wf(),
        ensures
            a == jump_target(self.model(), is_ptr, addr),
            a < 4096,
    {
        let direct = self.address(addr.value());
        if is_ptr {
            let held = self.data[direct as usize];
            self.address(held)
        } else {
            direct
        }
    }

    /// Dispatch one device invocation, as `spec_io` describes it.
    fn io(&mut self, device: Device, function: U3, value: u8) -> (r: RimResult<bool>)
        requires
            old(self).wf(),
        ensures
            final(self).wf(),
            final(self).program() == old(self).program(),
            (match r {
                Ok(true) => spec_io(old(self).model(), device, function.0, value)
                    == StepOut::Halt(final(self).model()),
                Ok(false) => spec_io(old(self).model(), device, function.0, value)
                    == StepOut::Next(final(self).model()),
                Err(e) => spec_io(old(self).model(), device, function.0, value)
                    == StepOut::Fault(e) && final(self).model() == old(self).model(),
            }),
    {
        let f = function.value();
        match device {
            Device::Cpu => {
                if f == 0 {
                    return Ok(true);
                } else if f == 2 {
                    self.registers[0] = 0;
                } else if f == 3 {
                    let a = self.address(value);
                    let b = self.data[a as usize];
                    self.registers[0] = b;
                } else if f == 4 {
                    let a = self.address(value);
                    let acc = self.registers[0];
                    self.data[a as usize] = acc;
                } else if f == 5 {
                    let a = self.address(value);
                    let held = self.data[a as usize];
                    let a2 = self.address(held);
                    let b = self.data[a2 as usize];
                    self.registers[0] = b;
                } else if f == 6 {
                    let a = self.address(value);
                    let held = self.data[a as usize];
                    let a2 = self.address(held);
                    let acc = self.registers[0];
                    self.data[a2 as usize] = acc;
                }
                Ok(false)
            },
            Device::Kbd => {
                if f == 0 || f == 1 {
                    return Err(RimError::Unimplemented);
                }
                Ok(false)
            },
            Device::Scr => {
                if f == 0 {
                    screen_set_row(value);
                } else if f == 1 {
                    screen_set_col(value);
                } else if f == 2 {
                    screen_put_char(value);
                } else if f == 3 || f == 4 {
                    self.registers[0] = 0;
                } else if f == 5 {
                    screen_clear();
                }
                Ok(false)
            },
            Device::Mth => self.io_math(f, value),
        }
    }

    /// The Math device, as `spec_io_mth` describes it.
    fn io_math(&mut self, f: u8, value: u8) -> (r: RimResult<bool>)
        requires
            old(self).wf(),
        ensures
            final(self).wf(),
            final(self).program() == old(self).program(),
            (match r {
                Ok(true) => false,
                Ok(false) => spec_io_mth(old(self).model(), f, value)
                    == StepOut::Next(final(self).model()),
                Err(e) => spec_io_mth(old(self).model(), f, value)
                    == StepOut::Fault(e) && final(self).model() == old(self).model(),
            }),
    {
        if f == 0 {
            if value >= 4 {
                return Err(RimError::RegisterOutOfRange);
            }
            let a = self.registers[0];
            let b = self.registers[value as usize];
            proof {
                assert(a * b <= 255 * 255) by (nonlinear_arith)
                    requires
                        a <= 255 && b <= 255,
                ;
            }
            let prod = (a as u16) * (b as u16);
            self.registers[0] = (prod % 256) as u8;
            self.registers[1] = (prod / 256) as u8;
            self.zero = prod == 0;
            Ok(false)
        } else if f == 1 {
            if value >= 4 {
                return Err(RimError::RegisterOutOfRange);
            }
            let divisor = self.registers[value as usize];
            if divisor == 0 {
                return Err(RimError::DivideByZero);
            }
            let res = self.registers[0] / divisor;
            self.registers[0] = res;
            self.zero = res == 0;
            Ok(false)
        } else if f == 2 || f == 3 {
            // AND or OR of the accumulator with itself: value unchanged,
            // only the zero flag is refreshed
            let acc = self.registers[0];
            self.zero = acc == 0;
            Ok(false)
        } else if f == 4 {
            // XOR of the accumulator with itself
            self.registers[0] = 0;
            self.zero = true;
            Ok(false)
        } else if f == 5 {
            let acc = self.registers[0];
            let res = 255 - acc;
            self.registers[0] = res;
            self.zero = res == 0;
            Ok(false)
        } else if f == 6 {
            // pack the flags into a register index and read that register;
            // the read result is discarded
            let idx: usize = (if self.sign { 1 } else { 0 }) + (if self.zero { 2 } else { 0 });
            let _probe = self.registers[idx];
            Ok(false)
        } else {
            self.sign = value & 1 != 0;
            self.zero = value & 2 != 0;
            Ok(false)
        }
    }

    /// Run the loaded program: visit every instruction once, in order, until
    /// the sequence ends, a device signals a halt, or a fatal runtime
    /// condition cuts the pass short.
    pub fn run(&mut self) -> (r: RimResult<()>)
        requires
            old(self).wf(),
        ensures
            final(self).wf(),
            final(self).program() == old(self).program(),
            ({
                let outcome = spec_run(old(self).model(), old(self).program(), 0);
                final(self).model() == outcome.0 && (match r {
                    Ok(()) => outcome.1 is None,
                    Err(e) => outcome.1 == Some(e),
                })
            }),
    {
        let ghost s0 = self.model();
        let ghost prog = self.program();
        let mut idx: usize = 0;
        while idx < self.instructions.len()
            invariant
                self.wf(),
                s0 == old(self).model(),
                prog == old(self).program(),
                self.program() == prog,
                idx <= prog.len(),
                spec_run(s0, prog, 0) == spec_run(self.model(), prog, idx as int),
            decreases prog.len() - idx,
        {
            let inst = self.instructions[idx];
            let ghost mpre = self.model();
            let res = self.step(inst);
            match res {
                Ok(true) => {
                    proof {
                        assert(spec_run(mpre, prog, idx as int) == (self.model(), None::<RimError>));
                    }
                    return Ok(());
                },
                Ok(false) => {
                    proof {
                        assert(spec_run(mpre, prog, idx as int)
                            == spec_run(self.model(), prog, idx + 1));
                    }
                },
                Err(e) => {
                    proof {
                        assert(spec_run(mpre, prog, idx as int) == (self.model(), Some(e)));
                    }
                    return Err(e);
                },
            }
            idx += 1;
        }
        Ok(())
    }
}

/// Law: after any arithmetic instruction (`Adi`, `Add` or `Sub`) the zero
/// flag is set exactly when the register the instruction wrote is zero.
pub proof fn lemma_zero_flag(s: MachineState, inst: Instruction)
    requires
        s.wf(),
        inst.wf(),
        inst.0 is Adi || inst.0 is Add || inst.0 is Sub,
    ensures
        spec_step(s, inst) matches StepOut::Next(s2) && (s2.zero <==> s2.regs[arith_dest(s, inst)]
            == 0),
{
    match inst.1 {
        InstructionData::Reg { is_id, src, dest } => {
            let held = s.regs[reg_id(dest) as int];
            assert(held & 3 < 4) by (bit_vector);
        },
        _ => {},
    }
}

/// Law: an `Ioi` naming Cpu function 0 ends execution on the spot: the
/// machine state stands as it was, no error is raised, and no instruction
/// after it has any effect on the outcome.
pub proof fn lemma_device_halt(s: MachineState, prog: Seq<Instruction>, i: int)
    requires
        0 <= i < prog.len(),
        prog[i] == Instruction(
            Opcode::Ioi,
            InstructionData::Io { device: Device::Cpu, function: U3(0) },
        ),
    ensures
        spec_run(s, prog, i) == (s, None::<RimError>),
{
}

impl Default for Rim {
    /// An engine with no program and the all-zero machine state.
    fn default() -> (rim: Rim)
        ensures
            rim.wf(),
            rim.program() == Seq::<Instruction>::empty(),
            rim.model() == MachineState::init(),
    {
        Rim::new(Vec::new())
    }
}

} // verus!
