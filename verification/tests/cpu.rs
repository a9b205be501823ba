use cpu_core::cpu::CPU;
use cpu_core::cpu::CpuError;
use cpu_core::cpu::Instruction;
use cpu_core::cpu::MemoryBus;
use cpu_core::cpu::Target;

fn assert_flags(
    cpu: &CPU,
    zero: bool,
    subtract: bool,
    half_carry: bool,
    carry: bool,
) {
    assert_eq!(cpu.registers.f.zero, zero, "zero flag");
    assert_eq!(cpu.registers.f.subtract, subtract, "subtract flag");
    assert_eq!(cpu.registers.f.half_carry, half_carry, "half-carry flag");
    assert_eq!(cpu.registers.f.carry, carry, "carry flag");
}

#[test]
fn test_add() {
    let mut cpu = CPU::new();

    cpu.registers.a = 255;
    cpu.registers.c = 4;
    cpu.execute(Instruction::ADD(Target::C)).unwrap();

    assert_eq!(cpu.registers.a, 3); // because it overflowed
    assert_eq!(cpu.registers.f.carry, true);
    assert_eq!(cpu.registers.f.subtract, false);
    assert_eq!(cpu.registers.f.zero, false);
    assert_eq!(cpu.registers.f.half_carry, true);
}

#[test]
fn test_inc_bc() {
    let mut cpu = CPU::new();

    cpu.registers.b = 0;
    cpu.registers.c = 0xFF; // the max value
    cpu.execute(Instruction::INC(Target::BC)).unwrap();

    assert_eq!(cpu.registers.b, 1, "B should be one higher");
    assert_eq!(cpu.registers.c, 0, "C should wrap to 0");

    assert_flags(&cpu, false, false, false, false);
}

#[test]
fn test_inc_de() {
    let mut cpu = CPU::new();

    cpu.registers.d = 0;
    cpu.registers.e = 0xFF; // the max value
    cpu.execute(Instruction::INC(Target::DE)).unwrap();

    assert_eq!(cpu.registers.d, 1, "B should be one higher");
    assert_eq!(cpu.registers.e, 0, "C should wrap to 0");

    assert_flags(&cpu, false, false, false, false);
}

#[test]
fn test_inc_singles() {
    let mut cpu = CPU::new();

    cpu.registers.b = 0;
    cpu.registers.d = 0xFF; // the max value
    cpu.execute(Instruction::INC(Target::B)).unwrap();
    cpu.execute(Instruction::INC(Target::D)).unwrap();

    assert_eq!(cpu.registers.b, 1, "B should be one higher");
    assert_eq!(cpu.registers.d, 0, "D should wrap to 0");

    // The second increment wrapped 0xFF to 0x00: zero and half-carry are
    // set, subtract is clear, and the carry flag is untouched.
    assert_flags(&cpu, true, false, true, false);
}

#[test]
fn test_inc_bad() {
    let mut cpu = CPU::new();

    let r = cpu.execute(Instruction::INC(Target::A));

    assert_eq!(
        r,
        Err(CpuError::UnsupportedOperand { instruction: Instruction::INC(Target::A) })
    );
    assert_eq!(cpu.registers.a, 0, "a failed increment must not change state");
    assert!(!cpu.halt);
}

#[test]
fn test_instruction_conversion() {
    for byte in [0x00u8, 0x03, 0x04, 0x13, 0x76, 0x81] {
        let instruction = Instruction::from_byte(byte).unwrap();
        assert_eq!(Instruction::to_byte(instruction), Some(byte));
    }
    // The inverse is intentionally partial: an instruction outside the
    // supported table has no canonical opcode.
    assert_eq!(Instruction::to_byte(Instruction::ADD(Target::B)), None);
    assert_eq!(Instruction::to_byte(Instruction::SUB(Target::C)), None);
}

#[test]
fn test_decode_totality() {
    assert_eq!(Instruction::from_byte(0x00), Some(Instruction::NOP));
    assert_eq!(Instruction::from_byte(0x03), Some(Instruction::INC(Target::BC)));
    assert_eq!(Instruction::from_byte(0x04), Some(Instruction::INC(Target::B)));
    assert_eq!(Instruction::from_byte(0x13), Some(Instruction::INC(Target::DE)));
    assert_eq!(Instruction::from_byte(0x76), Some(Instruction::HALT));
    assert_eq!(Instruction::from_byte(0x81), Some(Instruction::ADD(Target::C)));
    assert_eq!(Instruction::from_byte(0xFF), None);
}

#[test]
fn test_step_unknown_opcode() {
    let mut cpu = CPU::new();
    cpu.bus.write_byte(5, 0xFF);
    cpu.pc = 5;

    let r = cpu.step();

    assert_eq!(r, Err(CpuError::UnknownOpcode { address: 5, opcode: 0xFF }));
    assert_eq!(cpu.pc, 5, "a failed step must leave the program counter in place");
    assert!(!cpu.halt);
}

#[test]
fn test_inc_single_wraparound() {
    for carry in [true, false] {
        let mut cpu = CPU::new();
        cpu.registers.b = 0xFF;
        cpu.registers.f.carry = carry;

        cpu.execute(Instruction::INC(Target::B)).unwrap();

        assert_eq!(cpu.registers.b, 0x00);
        assert_flags(&cpu, true, false, true, carry);
    }
}

#[test]
fn test_inc_pair_preserves_flags() {
    let presets = [
        (false, false, false, false),
        (true, false, true, false),
        (false, true, false, true),
        (true, true, true, true),
    ];
    for (zero, subtract, half_carry, carry) in presets {
        let mut cpu = CPU::new();
        cpu.registers.b = 0x00;
        cpu.registers.c = 0xFF;
        cpu.registers.f.zero = zero;
        cpu.registers.f.subtract = subtract;
        cpu.registers.f.half_carry = half_carry;
        cpu.registers.f.carry = carry;

        cpu.execute(Instruction::INC(Target::BC)).unwrap();

        assert_eq!(cpu.registers.b, 0x01);
        assert_eq!(cpu.registers.c, 0x00);
        assert_flags(&cpu, zero, subtract, half_carry, carry);
    }
}

#[test]
fn test_halt_sets_flag_and_pc_zero() {
    let mut cpu = CPU::new();
    cpu.pc = 42;
    cpu.bus.write_byte(42, 0x76);

    cpu.step().unwrap();

    assert!(cpu.halt);
    assert_eq!(cpu.pc, 0, "halt reports 0 as the next program counter");
}

#[test]
fn test_pc_wraps_at_top_of_memory() {
    let mut cpu = CPU::new();
    cpu.pc = 0xFFFF;

    cpu.step().unwrap(); // the byte there is 0, a no-op

    assert_eq!(cpu.pc, 0x0000, "the program counter wraps past 0xFFFF");
}

#[test]
fn test_memory_bus_bounds() {
    let mut bus = MemoryBus::new();
    assert_eq!(bus.memory.len(), 0x10000, "the full 16-bit address space");
    assert_eq!(bus.read_byte(0xFFFF), 0);
    bus.write_byte(0xFFFF, 7);
    assert_eq!(bus.read_byte(0xFFFF), 7);
    assert_eq!(bus.read_byte(0xFFFE), 0, "neighbouring bytes are untouched");
}

#[test]
fn test_run_budget_without_halt() {
    let mut cpu = CPU::new();
    // All-zero memory decodes as no-ops: the program never halts.
    let r = cpu.run(5).unwrap();

    assert!(!r);
    assert!(!cpu.halt);
    assert_eq!(cpu.pc, 5, "one no-op per step of budget");
}

#[test]
fn test_run_stops_at_error() {
    let mut cpu = CPU::new();
    cpu.bus.write_byte(2, 0xD3);

    let r = cpu.run(100);

    assert_eq!(r, Err(CpuError::UnknownOpcode { address: 2, opcode: 0xD3 }));
    assert_eq!(cpu.pc, 2, "state reflects the moment before the failed fetch");
}

#[test]
fn test_end_to_end() {
    let mut cpu = CPU::new();
    cpu.bus.write_byte(1, 0x81); // ADD(C)
    cpu.bus.write_byte(10, 0x76); // HALT
    cpu.registers.a = 1;
    cpu.registers.c = 7;

    cpu.step().unwrap(); // pc 0: no-op
    assert_eq!(cpu.pc, 1);

    cpu.step().unwrap(); // pc 1: add C into the accumulator
    assert_eq!(cpu.pc, 2);
    assert_eq!(cpu.registers.a, 8);
    assert_flags(&cpu, false, false, false, false);

    let halted = cpu.run(100).unwrap(); // pcs 2..9 are no-ops, pc 10 halts
    assert!(halted);
    assert!(cpu.halt);
    assert_eq!(cpu.registers.a, 8);
}
