use pact::error::RimError;
use pact::helper::{U3, U4};
use pact::machine::Rim;
use pact::{load_program, Device, Instruction, InstructionData, Opcode, Register};

fn adi(imm: u8) -> Instruction {
    Instruction(Opcode::Adi, InstructionData::Imm(imm))
}

fn io(op: Opcode, device: Device, function: u8) -> Instruction {
    Instruction(op, InstructionData::Io { device, function: U3(function) })
}

fn halt() -> Instruction {
    io(Opcode::Ioi, Device::Cpu, 0)
}

#[test]
fn adi_wraps_and_clears_the_flags() {
    let mut rim = Rim::new(Vec::new());
    rim.set_register(Register::Ra, 250);
    assert_eq!(rim.step(adi(10)).unwrap(), false);
    assert_eq!(rim.register(Register::Ra), 4);
    assert!(!rim.zero_flag());
    assert!(!rim.sign_flag());
}

#[test]
fn zero_flag_follows_the_written_register() {
    let mut rim = Rim::new(Vec::new());
    // 250 + 6 wraps to exactly 0
    rim.set_register(Register::Ra, 250);
    assert_eq!(rim.step(adi(6)).unwrap(), false);
    assert_eq!(rim.register(Register::Ra), 0);
    assert!(rim.zero_flag());
    // adding 1 leaves a non-zero accumulator
    assert_eq!(rim.step(adi(1)).unwrap(), false);
    assert!(!rim.zero_flag());
    // a subtraction that lands on 0 sets it again
    rim.set_register(Register::Rb, 1);
    let sub = Instruction(
        Opcode::Sub,
        InstructionData::Reg { is_id: false, src: Register::Rb, dest: Register::Ra },
    );
    assert_eq!(rim.step(sub).unwrap(), false);
    assert_eq!(rim.register(Register::Ra), 0);
    assert!(rim.zero_flag());
}

#[test]
fn sub_borrow_sets_the_sign_flag() {
    let mut rim = Rim::new(Vec::new());
    rim.set_register(Register::Ra, 5);
    rim.set_register(Register::Rb, 10);
    let sub = Instruction(
        Opcode::Sub,
        InstructionData::Reg { is_id: false, src: Register::Rb, dest: Register::Ra },
    );
    assert_eq!(rim.step(sub).unwrap(), false);
    assert_eq!(rim.register(Register::Ra), 251);
    assert!(rim.sign_flag());
    assert!(!rim.zero_flag());

    let mut rim = Rim::new(Vec::new());
    rim.set_register(Register::Ra, 10);
    rim.set_register(Register::Rb, 5);
    assert_eq!(rim.step(sub).unwrap(), false);
    assert_eq!(rim.register(Register::Ra), 5);
    assert!(!rim.sign_flag());
    assert!(!rim.zero_flag());
}

#[test]
fn add_resolves_registers_indirectly() {
    let mut rim = Rim::new(Vec::new());
    // Ra holds 2, so under indirection "src Ra" means the register named by
    // 2, which is Rc; "dest Rb" resolves through Rb's value 3 to Rd.
    rim.set_register(Register::Ra, 2);
    rim.set_register(Register::Rb, 3);
    rim.set_register(Register::Rc, 40);
    rim.set_register(Register::Rd, 2);
    let add = Instruction(
        Opcode::Add,
        InstructionData::Reg { is_id: true, src: Register::Ra, dest: Register::Rb },
    );
    assert_eq!(rim.step(add).unwrap(), false);
    assert_eq!(rim.register(Register::Rd), 42);
    assert!(!rim.zero_flag());
    assert!(!rim.sign_flag());
}

#[test]
fn direct_load_composes_the_address() {
    let mut rim = Rim::new(Vec::new());
    rim.set_register(Register::Rd, 0x1);
    rim.set_register(Register::Ra, 0x20);
    // (0x1 << 4) | 0x20 = 0x30
    rim.write_data(0x30, 0xab);
    assert_eq!(rim.step(io(Opcode::Ioi, Device::Cpu, 3)).unwrap(), false);
    assert_eq!(rim.register(Register::Ra), 0xab);
}

#[test]
fn pointer_load_re_composes_through_the_stored_byte() {
    let mut rim = Rim::new(Vec::new());
    rim.set_register(Register::Rd, 0x1);
    rim.set_register(Register::Ra, 0x20);
    // the byte at the direct address becomes the new low byte:
    // (0x1 << 4) | 0x20 = 0x30, then (0x1 << 4) | 0x05 = 0x15
    rim.write_data(0x30, 0x05);
    rim.write_data(0x15, 0x77);
    assert_eq!(rim.step(io(Opcode::Ioi, Device::Cpu, 5)).unwrap(), false);
    assert_eq!(rim.register(Register::Ra), 0x77);
}

#[test]
fn store_writes_the_accumulator() {
    let mut rim = Rim::new(Vec::new());
    rim.set_register(Register::Rd, 0x2);
    rim.set_register(Register::Ra, 0x44);
    // value is the accumulator under Ioi: address (0x2 << 4) | 0x44 = 0x64
    assert_eq!(rim.step(io(Opcode::Ioi, Device::Cpu, 4)).unwrap(), false);
    assert_eq!(rim.read_data(0x64), 0x44);
}

#[test]
fn jump_updates_only_the_position_counter() {
    let mut rim = Rim::new(Vec::new());
    rim.set_register(Register::Rd, 0x1);
    rim.set_flags(false, false);
    let jne = Instruction(Opcode::Jne, InstructionData::Mem { is_ptr: false, addr: U4(0x7) });
    assert_eq!(rim.step(jne).unwrap(), false);
    assert_eq!(rim.pc(), 0x17);
    // with the zero flag set the jump falls through
    rim.set_flags(false, true);
    let jne2 = Instruction(Opcode::Jne, InstructionData::Mem { is_ptr: false, addr: U4(0x3) });
    assert_eq!(rim.step(jne2).unwrap(), false);
    assert_eq!(rim.pc(), 0x17);
}

#[test]
fn dispatch_is_linear_despite_jumps() {
    // a taken jump rewrites the position counter, but the engine still
    // visits the following instruction
    let jne = Instruction(Opcode::Jne, InstructionData::Mem { is_ptr: false, addr: U4(0) });
    let mut rim = Rim::new(vec![jne, adi(5)]);
    assert!(rim.run().is_ok());
    assert_eq!(rim.register(Register::Ra), 5);
}

#[test]
fn halt_stops_the_machine_early() {
    let mut rim = Rim::new(vec![adi(3), halt(), adi(40)]);
    assert!(rim.run().is_ok());
    assert_eq!(rim.register(Register::Ra), 3);
}

#[test]
fn halt_alone_is_a_clean_stop() {
    let mut rim = Rim::new(vec![halt()]);
    assert_eq!(rim.step(halt()).unwrap(), true);
    assert!(rim.run().is_ok());
    assert_eq!(rim.register(Register::Ra), 0);
}

#[test]
fn ior_passes_the_selected_register() {
    let mut rim = Rim::new(Vec::new());
    // the accumulator names Rb; Rb's value reaches the device
    rim.set_register(Register::Ra, 1);
    rim.set_register(Register::Rb, 0b01);
    assert_eq!(rim.step(io(Opcode::Ior, Device::Mth, 7)).unwrap(), false);
    assert!(rim.sign_flag());
    assert!(!rim.zero_flag());
}

#[test]
fn math_multiply_widens_into_two_registers() {
    let mut rim = Rim::new(Vec::new());
    // value is the accumulator, 2, which selects Rc
    rim.set_register(Register::Ra, 2);
    rim.set_register(Register::Rc, 150);
    assert_eq!(rim.step(io(Opcode::Ioi, Device::Mth, 0)).unwrap(), false);
    // 2 * 150 = 300 = 0x012c
    assert_eq!(rim.register(Register::Ra), 0x2c);
    assert_eq!(rim.register(Register::Rb), 0x01);
    assert!(!rim.zero_flag());
}

#[test]
fn math_divide() {
    let mut rim = Rim::new(Vec::new());
    // value is the accumulator, 3, which selects Rd
    rim.set_register(Register::Ra, 3);
    rim.set_register(Register::Rd, 2);
    assert_eq!(rim.step(io(Opcode::Ioi, Device::Mth, 1)).unwrap(), false);
    assert_eq!(rim.register(Register::Ra), 1);
    assert!(!rim.zero_flag());
}

#[test]
fn math_divide_by_zero_is_fatal() {
    let mut rim = Rim::new(Vec::new());
    rim.set_register(Register::Ra, 1);
    // Rb, selected by the accumulator, holds 0
    assert!(matches!(
        rim.step(io(Opcode::Ioi, Device::Mth, 1)),
        Err(RimError::DivideByZero)
    ));
    // the same fault cuts a whole run short
    let mut rim = Rim::new(vec![adi(1), io(Opcode::Ioi, Device::Mth, 1), adi(7)]);
    assert!(matches!(rim.run(), Err(RimError::DivideByZero)));
    assert_eq!(rim.register(Register::Ra), 1);
}

#[test]
fn math_register_selector_out_of_range_is_fatal() {
    let mut rim = Rim::new(Vec::new());
    rim.set_register(Register::Ra, 9);
    assert!(matches!(
        rim.step(io(Opcode::Ioi, Device::Mth, 0)),
        Err(RimError::RegisterOutOfRange)
    ));
    // the state is left as it was
    assert_eq!(rim.register(Register::Ra), 9);
}

#[test]
fn keyboard_functions_are_unimplemented_or_no_ops() {
    let mut rim = Rim::new(Vec::new());
    assert!(matches!(
        rim.step(io(Opcode::Ioi, Device::Kbd, 0)),
        Err(RimError::Unimplemented)
    ));
    assert!(matches!(
        rim.step(io(Opcode::Ioi, Device::Kbd, 1)),
        Err(RimError::Unimplemented)
    ));
    for f in 2u8..=7 {
        assert_eq!(rim.step(io(Opcode::Ioi, Device::Kbd, f)).unwrap(), false);
    }
    assert_eq!(rim.register(Register::Ra), 0);
}

#[test]
fn math_bitwise_self_operations() {
    let mut rim = Rim::new(Vec::new());
    rim.set_register(Register::Ra, 0xf0);
    // AND with itself: unchanged
    assert_eq!(rim.step(io(Opcode::Ioi, Device::Mth, 2)).unwrap(), false);
    assert_eq!(rim.register(Register::Ra), 0xf0);
    assert!(!rim.zero_flag());
    // NOT: complement
    assert_eq!(rim.step(io(Opcode::Ioi, Device::Mth, 5)).unwrap(), false);
    assert_eq!(rim.register(Register::Ra), 0x0f);
    // XOR with itself: cleared, zero flag set
    assert_eq!(rim.step(io(Opcode::Ioi, Device::Mth, 4)).unwrap(), false);
    assert_eq!(rim.register(Register::Ra), 0);
    assert!(rim.zero_flag());
}

#[test]
fn math_flag_pack_has_no_observable_effect() {
    let mut rim = Rim::new(Vec::new());
    rim.set_flags(true, false);
    assert_eq!(rim.step(io(Opcode::Ioi, Device::Mth, 6)).unwrap(), false);
    assert!(rim.sign_flag());
    assert!(!rim.zero_flag());
    assert_eq!(rim.register(Register::Ra), 0);
}

#[test]
fn screen_clear_functions_reset_the_accumulator() {
    let mut rim = Rim::new(Vec::new());
    rim.set_register(Register::Ra, 9);
    assert_eq!(rim.step(io(Opcode::Ioi, Device::Scr, 3)).unwrap(), false);
    assert_eq!(rim.register(Register::Ra), 0);
    rim.set_register(Register::Ra, 9);
    assert_eq!(rim.step(io(Opcode::Ioi, Device::Scr, 4)).unwrap(), false);
    assert_eq!(rim.register(Register::Ra), 0);
    // functions 6 and 7 are no-ops
    rim.set_register(Register::Ra, 9);
    assert_eq!(rim.step(io(Opcode::Ioi, Device::Scr, 6)).unwrap(), false);
    assert_eq!(rim.step(io(Opcode::Ioi, Device::Scr, 7)).unwrap(), false);
    assert_eq!(rim.register(Register::Ra), 9);
}

#[test]
fn load_rejects_a_bad_header() {
    assert!(matches!(
        load_program([0xca, 0x8b], &[0x28]),
        Err(RimError::InvalidMagic)
    ));
    assert!(matches!(
        load_program([0x00, 0x00], &[]),
        Err(RimError::InvalidMagic)
    ));
}

#[test]
fn load_accepts_an_empty_program() {
    let mut rim = load_program([0x8b, 0xca], &[]).unwrap();
    assert!(rim.run().is_ok());
    assert_eq!(rim.register(Register::Ra), 0);
}

#[test]
fn end_to_end_adi_then_halt() {
    let image = [0x8bu8, 0xca, 0x00 | (5 << 3), 0x06];
    let mut rim = load_program([image[0], image[1]], &image[2..]).unwrap();
    assert!(rim.run().is_ok());
    assert_eq!(rim.register(Register::Ra), 5);
    assert!(!rim.zero_flag());
    assert!(!rim.sign_flag());
}

#[test]
fn default_engine_is_empty_and_zeroed() {
    let mut rim = Rim::default();
    assert!(rim.run().is_ok());
    assert_eq!(rim.register(Register::Ra), 0);
    assert_eq!(rim.register(Register::Rd), 0);
    assert_eq!(rim.pc(), 0);
    assert!(!rim.sign_flag());
    assert!(!rim.zero_flag());
}

#[test]
fn pointer_store_re_composes_through_the_stored_byte() {
    let mut rim = Rim::new(Vec::new());
    rim.set_register(Register::Rd, 0x1);
    rim.set_register(Register::Ra, 0x20);
    // (0x1 << 4) | 0x20 = 0x30 holds 0x05, so the store lands at
    // (0x1 << 4) | 0x05 = 0x15
    rim.write_data(0x30, 0x05);
    assert_eq!(rim.step(io(Opcode::Ioi, Device::Cpu, 6)).unwrap(), false);
    assert_eq!(rim.read_data(0x15), 0x20);
}

#[test]
fn cpu_clear_and_no_ops() {
    let mut rim = Rim::new(Vec::new());
    rim.set_register(Register::Ra, 77);
    assert_eq!(rim.step(io(Opcode::Ioi, Device::Cpu, 1)).unwrap(), false);
    assert_eq!(rim.register(Register::Ra), 77);
    assert_eq!(rim.step(io(Opcode::Ioi, Device::Cpu, 7)).unwrap(), false);
    assert_eq!(rim.register(Register::Ra), 77);
    assert_eq!(rim.step(io(Opcode::Ioi, Device::Cpu, 2)).unwrap(), false);
    assert_eq!(rim.register(Register::Ra), 0);
}

#[test]
fn io_errors_carry_their_cause() {
    let cause = std::io::Error::new(std::io::ErrorKind::UnexpectedEof, "short read");
    let wrapped = RimError::from(cause);
    assert!(matches!(wrapped, RimError::IoError(_)));
}
