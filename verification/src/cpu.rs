//! The fetch-decode-execute engine: opcode decoding into a closed
//! instruction set, the ALU flag rules, the memory bus, and the execution
//! loop that drives the program counter until a halt instruction.

use vstd::prelude::*;

use crate::registers::FlagsRegister;
use crate::registers::Registers;
use crate::registers::spec_high_byte;
use crate::registers::spec_low_byte;
use crate::registers::spec_pair;

verus! {

/// An operand target: a single register, a register pair, an 8-bit
/// immediate, or memory addressed indirectly through HL.
#[derive(Clone, Copy, Debug, PartialEq, Eq, Structural)]
pub enum Target {
    A,
    B,
    C,
    D,
    E,
    F,
    H,
    L,
    BC,
    DE,
    D8,
    HLI,
}

/// A decoded instruction: one variant per opcode family, each carrying at
/// most one operand target.
#[derive(Clone, Copy, Debug, PartialEq, Eq, Structural)]
pub enum Instruction {
    HALT,
    NOP,
    ADD(Target),
    ADDHL(Target),
    ADC(Target),
    SUB(Target),
    SBC(Target),
    AND(Target),
    OR(Target),
    XOR(Target),
    CP(Target),
    INC(Target),
}

/// The opcode table: which instruction each supported opcode byte decodes
/// to. Every byte outside the closed set decodes to `None`.
pub open spec fn spec_decode(opcode: u8) -> Option<Instruction> {
    if opcode == 0x00 {
        Some(Instruction::NOP)
    } else if opcode == 0x03 {
        Some(Instruction::INC(Target::BC))
    } else if opcode == 0x04 {
        Some(Instruction::INC(Target::B))
    } else if opcode == 0x13 {
        Some(Instruction::INC(Target::DE))
    } else if opcode == 0x76 {
        Some(Instruction::HALT)
    } else if opcode == 0x81 {
        Some(Instruction::ADD(Target::C))
    } else {
        None
    }
}

/// The partial inverse of the opcode table: the canonical opcode byte of an
/// instruction, where the supported set has one; `None` otherwise.
pub open spec fn spec_encode(instruction: Instruction) -> Option<u8> {
    match instruction {
        Instruction::NOP => Some(0x00u8),
        Instruction::INC(Target::BC) => Some(0x03u8),
        Instruction::INC(Target::B) => Some(0x04u8),
        Instruction::INC(Target::DE) => Some(0x13u8),
        Instruction::HALT => Some(0x76u8),
        Instruction::ADD(Target::C) => Some(0x81u8),
        _ => None,
    }
}

impl Instruction {
    /// Decodes one opcode byte, or `None` for a byte outside the supported
    /// set; the caller must treat `None` as a fatal unknown-opcode
    /// condition, never as a no-op.
    pub fn from_byte(byte: u8) -> (instruction: Option<Instruction>)
        ensures
            instruction == spec_decode(byte),
    {
        if byte == 0x00 {
            Some(Instruction::NOP)
        } else if byte == 0x03 {
            Some(Instruction::INC(Target::BC))
        } else if byte == 0x04 {
            Some(Instruction::INC(Target::B))
        } else if byte == 0x13 {
            Some(Instruction::INC(Target::DE))
        } else if byte == 0x76 {
            Some(Instruction::HALT)
        } else if byte == 0x81 {
            Some(Instruction::ADD(Target::C))
        } else {
            None
        }
    }

    /// Encodes an instruction back to its canonical opcode byte, where one
    /// exists in the supported set; a best-effort disassembly aid, not a
    /// total inverse.
    pub fn to_byte(instruction: Instruction) -> (byte: Option<u8>)
        ensures
            byte == spec_encode(instruction),
    {
        match instruction {
            Instruction::NOP => Some(0x00),
            Instruction::INC(Target::BC) => Some(0x03),
            Instruction::INC(Target::B) => Some(0x04),
            Instruction::INC(Target::DE) => Some(0x13),
            Instruction::HALT => Some(0x76),
            Instruction::ADD(Target::C) => Some(0x81),
            _ => None,
        }
    }
}

/// Every byte the decoder accepts encodes back to that same byte.
pub proof fn lemma_decode_then_encode(opcode: u8)
    ensures
        spec_decode(opcode) matches Some(instruction) ==> spec_encode(instruction) == Some(opcode),
{
}

/// Every instruction the encoder accepts decodes back to that same
/// instruction: the opcode table and its inverse agree on the supported set.
pub proof fn lemma_encode_then_decode(instruction: Instruction)
    ensures
        spec_encode(instruction) matches Some(opcode) ==> spec_decode(opcode) == Some(instruction),
{
}

/// The number of addressable bytes: the full 16-bit address space, so that
/// every `u16` address is in bounds.
pub const MEMORY_SIZE: usize = 0x10000;

/// A flat byte-addressable memory spanning the full 16-bit address space,
/// zero-initialized. Its view is the sequence of its bytes.
#[derive(Debug)]
pub struct MemoryBus {
    pub memory: Vec<u8>,
}

impl View for MemoryBus {
    type V = Seq<u8>;

    open spec fn view(&self) -> Seq<u8> {
        self.memory@
    }
}

impl MemoryBus {
    /// Well-formed memory holds exactly one byte per 16-bit address.
    pub open spec fn wf(self) -> bool {
        self@.len() == MEMORY_SIZE
    }

    /// Fresh memory: every byte of the full address space is zero.
    pub fn new() -> (bus: MemoryBus)
        ensures
            bus.wf(),
            forall|i: int| 0 <= i < MEMORY_SIZE ==> bus@[i] == 0,
    {
        let mut memory: Vec<u8> = Vec::new();
        while memory.len() < MEMORY_SIZE
            invariant
                memory@.len() <= MEMORY_SIZE,
                forall|i: int| 0 <= i < memory@.len() ==> memory@[i] == 0,
            decreases MEMORY_SIZE - memory.len(),
        {
            memory.push(0);
        }
        MemoryBus { memory }
    }

    /// Returns the byte at the given address.
    pub fn read_byte(&self, address: u16) -> (byte: u8)
        requires
            self.wf(),
        ensures
            byte == self@[address as int],
    {
        self.memory[address as usize]
    }

    /// Overwrites the byte at the given address; every other byte is
    /// untouched.
    pub fn write_byte(&mut self, address: u16, value: u8)
        requires
            old(self).wf(),
        ensures
            final(self).wf(),
            final(self)@ == old(self)@.update(address as int, value),
    {
        self.memory.set(address as usize, value);
    }
}

/// A fatal condition: either kind stops the run loop in place, with the
/// machine state exactly as it was before the failed step.
#[derive(Clone, Copy, Debug, PartialEq, Eq, Structural)]
pub enum CpuError {
    /// The byte fetched at `address` is no opcode of the supported set.
    UnknownOpcode { address: u16, opcode: u8 },
    /// A decoded instruction named an operand target the execution logic
    /// does not handle.
    UnsupportedOperand { instruction: Instruction },
}

/// 8-bit increment with wraparound: 0xFF rolls over to 0x00.
pub open spec fn spec_wrap_inc8(value: u8) -> u8 {
    if value == 0xFF {
        0u8
    } else {
        (value + 1) as u8
    }
}

/// 16-bit increment with wraparound: 0xFFFF rolls over to 0x0000.
pub open spec fn spec_wrap_inc16(value: u16) -> u16 {
    if value == 0xFFFF {
        0u16
    } else {
        (value + 1) as u16
    }
}

/// 8-bit addition modulo 256: the accumulator result of an add.
pub open spec fn spec_add_result(a: u8, value: u8) -> u8 {
    if a + value > 0xFF {
        (a + value - 0x100) as u8
    } else {
        (a + value) as u8
    }
}

/// The flags an add leaves behind: zero iff the wrapped result is zero,
/// subtract clear, carry iff the raw 8-bit addition overflowed, half-carry
/// iff the low nibbles alone carry out of bit 3.
pub open spec fn spec_flags_after_add(a: u8, value: u8) -> FlagsRegister {
    FlagsRegister {
        zero: spec_add_result(a, value) == 0,
        subtract: false,
        half_carry: a % 16 + value % 16 > 0xF,
        carry: a + value > 0xFF,
    }
}

/// The flags an 8-bit increment leaves behind: zero iff the new value is
/// zero, subtract clear, half-carry iff the old low nibble was 0xF, and the
/// carry flag exactly as it was before.
pub open spec fn spec_flags_after_inc8(old_value: u8, flags: FlagsRegister) -> FlagsRegister {
    FlagsRegister {
        zero: spec_wrap_inc8(old_value) == 0,
        subtract: false,
        half_carry: old_value % 16 == 0xF,
        carry: flags.carry,
    }
}

/// The execution engine: the halt flag, the register file, the program
/// counter and the memory, all owned by this one value for its lifetime.
#[derive(Debug)]
pub struct CPU {
    pub halt: bool,
    pub registers: Registers,
    pub pc: u16,
    pub bus: MemoryBus,
}

/// What executing one decoded instruction does: the post state, and the
/// next program-counter value it reports (or the fatal error for an
/// unsupported operand target). Execution itself never moves the program
/// counter and never touches memory; the caller assigns the reported value.
pub open spec fn spec_execute(pre: CPU, instruction: Instruction) -> (CPU, Result<u16, CpuError>) {
    match instruction {
        Instruction::HALT => (CPU { halt: true, ..pre }, Ok(0u16)),
        Instruction::NOP => (pre, Ok(spec_wrap_inc16(pre.pc))),
        Instruction::ADD(target) => match target {
            Target::C => {
                let regs = pre.registers;
                (
                    CPU {
                        registers: Registers {
                            a: spec_add_result(regs.a, regs.c),
                            f: spec_flags_after_add(regs.a, regs.c),
                            ..regs
                        },
                        ..pre
                    },
                    Ok(spec_wrap_inc16(pre.pc)),
                )
            },
            // Placeholder for targets the table does not cover yet: no
            // state change, and the program counter stays in place.
            _ => (pre, Ok(pre.pc)),
        },
        Instruction::INC(target) => match target {
            Target::BC => {
                let next = spec_wrap_inc16(spec_pair(pre.registers.b, pre.registers.c));
                (
                    CPU {
                        registers: Registers {
                            b: spec_high_byte(next),
                            c: spec_low_byte(next),
                            ..pre.registers
                        },
                        ..pre
                    },
                    Ok(spec_wrap_inc16(pre.pc)),
                )
            },
            Target::DE => {
                let next = spec_wrap_inc16(spec_pair(pre.registers.d, pre.registers.e));
                (
                    CPU {
                        registers: Registers {
                            d: spec_high_byte(next),
                            e: spec_low_byte(next),
                            ..pre.registers
                        },
                        ..pre
                    },
                    Ok(spec_wrap_inc16(pre.pc)),
                )
            },
            Target::B => (
                CPU {
                    registers: Registers {
                        b: spec_wrap_inc8(pre.registers.b),
                        f: spec_flags_after_inc8(pre.registers.b, pre.registers.f),
                        ..pre.registers
                    },
                    ..pre
                },
                Ok(spec_wrap_inc16(pre.pc)),
            ),
            Target::D => (
                CPU {
                    registers: Registers {
                        d: spec_wrap_inc8(pre.registers.d),
                        f: spec_flags_after_inc8(pre.registers.d, pre.registers.f),
                        ..pre.registers
                    },
                    ..pre
                },
                Ok(spec_wrap_inc16(pre.pc)),
            ),
            _ => (pre, Err(CpuError::UnsupportedOperand { instruction })),
        },
        // Placeholder for instruction families the engine does not execute
        // yet: no state change, and the program counter stays in place.
        _ => (pre, Ok(pre.pc)),
    }
}

/// What one step does: fetch the byte at the program counter, decode it,
/// execute, and move the program counter to the reported value. On a
/// decode or execute failure the state stays exactly the pre state, and
/// the error carries the failing address and byte, or the instruction with
/// its unsupported target.
pub open spec fn spec_step(pre: CPU) -> (CPU, Result<(), CpuError>) {
    let opcode = pre.bus@[pre.pc as int];
    match spec_decode(opcode) {
        None => (pre, Err(CpuError::UnknownOpcode { address: pre.pc, opcode })),
        Some(instruction) => {
            let (mid, r) = spec_execute(pre, instruction);
            match r {
                Ok(next_pc) => (CPU { pc: next_pc, ..mid }, Ok(())),
                Err(e) => (pre, Err(e)),
            }
        },
    }
}

/// What a bounded run loop does: step until the halt flag is observed, a
/// step fails, or the fuel is spent. `Ok(true)` means the halt flag is
/// set; `Ok(false)` means the fuel ran out first; an error leaves the
/// state exactly as it was before the failed step.
pub open spec fn spec_run(pre: CPU, fuel: nat) -> (CPU, Result<bool, CpuError>)
    decreases fuel,
{
    if pre.halt {
        (pre, Ok(true))
    } else if fuel == 0 {
        (pre, Ok(false))
    } else {
        let (mid, r) = spec_step(pre);
        match r {
            Ok(_) => spec_run(mid, (fuel - 1) as nat),
            Err(e) => (pre, Err(e)),
        }
    }
}

impl CPU {
    /// A well-formed engine has well-formed memory.
    pub open spec fn wf(self) -> bool {
        self.bus.wf()
    }

    /// A fresh engine: not halted, program counter zero, all registers zero
    /// with clear flags, and all-zero memory (zero decodes as no-op).
    pub fn new() -> (cpu: CPU)
        ensures
            cpu.wf(),
            !cpu.halt,
            cpu.pc == 0,
            cpu.registers.a == 0,
            cpu.registers.b == 0,
            cpu.registers.c == 0,
            cpu.registers.d == 0,
            cpu.registers.e == 0,
            cpu.registers.h == 0,
            cpu.registers.l == 0,
            !cpu.registers.f.zero,
            !cpu.registers.f.subtract,
            !cpu.registers.f.half_carry,
            !cpu.registers.f.carry,
            forall|i: int| 0 <= i < MEMORY_SIZE ==> cpu.bus@[i] == 0,
    {
        CPU { halt: false, registers: Registers::new(), pc: 0, bus: MemoryBus::new() }
    }

    /// The ALU add: computes accumulator + value modulo 256 and sets all
    /// four flags from the raw addition, but writes nothing back; the
    /// caller stores the returned value in the accumulator.
    pub fn add(&mut self, value: u8) -> (new_value: u8)
        ensures
            new_value == spec_add_result(old(self).registers.a, value),
            *final(self) == (CPU {
                registers: Registers {
                    f: spec_flags_after_add(old(self).registers.a, value),
                    ..old(self).registers
                },
                ..*old(self)
            }),
    {
        let a = self.registers.a;
        let new_value = a.wrapping_add(value);
        let did_overflow = (a as u16) + (value as u16) > 0xFF;
        assert(a & 0xF == a % 16 && value & 0xF == value % 16) by (bit_vector);
        self.registers.f.zero = new_value == 0;
        self.registers.f.subtract = false;
        self.registers.f.carry = did_overflow;
        self.registers.f.half_carry = (a & 0xF) + (value & 0xF) > 0xF;
        new_value
    }

    /// Executes one decoded instruction against the register file and
    /// returns the next program-counter value, or the fatal error for an
    /// unsupported operand target. The program counter itself and the
    /// memory are never touched here.
    pub fn execute(&mut self, instruction: Instruction) -> (r: Result<u16, CpuError>)
        ensures
            (*final(self), r) == spec_execute(*old(self), instruction),
    {
        match instruction {
            Instruction::HALT => {
                self.halt = true;
                Ok(0)
            },
            Instruction::NOP => Ok(self.pc.wrapping_add(1)),
            Instruction::ADD(target) => match target {
                Target::C => {
                    let value = self.registers.c;
                    let new_value = self.add(value);
                    self.registers.a = new_value;
                    Ok(self.pc.wrapping_add(1))
                },
                _ => Ok(self.pc),
            },
            Instruction::INC(target) => match target {
                Target::BC => {
                    let value = self.registers.get_bc();
                    self.registers.set_bc(value.wrapping_add(1));
                    Ok(self.pc.wrapping_add(1))
                },
                Target::DE => {
                    let value = self.registers.get_de();
                    self.registers.set_de(value.wrapping_add(1));
                    Ok(self.pc.wrapping_add(1))
                },
                Target::B => {
                    let old_value = self.registers.b;
                    assert(old_value & 0xF == old_value % 16) by (bit_vector);
                    self.registers.b = old_value.wrapping_add(1);
                    self.registers.f.zero = self.registers.b == 0;
                    self.registers.f.subtract = false;
                    self.registers.f.half_carry = old_value & 0xF == 0xF;
                    Ok(self.pc.wrapping_add(1))
                },
                Target::D => {
                    let old_value = self.registers.d;
                    assert(old_value & 0xF == old_value % 16) by (bit_vector);
                    self.registers.d = old_value.wrapping_add(1);
                    self.registers.f.zero = self.registers.d == 0;
                    self.registers.f.subtract = false;
                    self.registers.f.half_carry = old_value & 0xF == 0xF;
                    Ok(self.pc.wrapping_add(1))
                },
                _ => Err(CpuError::UnsupportedOperand { instruction }),
            },
            _ => Ok(self.pc),
        }
    }

    /// One fetch-decode-execute step: reads the byte at the program
    /// counter, decodes it, executes, and assigns the returned next
    /// program-counter value. A byte outside the opcode table fails with
    /// `UnknownOpcode` carrying that address and byte; either failure
    /// leaves the state exactly as it was.
    pub fn step(&mut self) -> (r: Result<(), CpuError>)
        requires
            old(self).wf(),
        ensures
            final(self).wf(),
            (*final(self), r) == spec_step(*old(self)),
    {
        let opcode = self.bus.read_byte(self.pc);
        match Instruction::from_byte(opcode) {
            Some(instruction) => match self.execute(instruction) {
                Ok(next_pc) => {
                    self.pc = next_pc;
                    Ok(())
                },
                Err(e) => Err(e),
            },
            None => Err(CpuError::UnknownOpcode { address: self.pc, opcode }),
        }
    }

    /// Drives the step loop until the halt flag is observed, a fatal error
    /// occurs, or `max_steps` steps have run. A program without a reachable
    /// halt instruction never halts on its own, so the caller bounds the
    /// loop; `Ok(halted)` reports whether the halt flag is set. On an
    /// error, the state is exactly what it was before the failed step, and
    /// that state still yields the same error.
    pub fn run(&mut self, max_steps: u64) -> (r: Result<bool, CpuError>)
        requires
            old(self).wf(),
        ensures
            final(self).wf(),
            (*final(self), r) == spec_run(*old(self), max_steps as nat),
            final(self).bus == old(self).bus,
            r matches Ok(halted) ==> halted == final(self).halt,
            r matches Err(e) ==> spec_step(*final(self)).1 == Err::<(), CpuError>(e)
                && !final(self).halt,
    {
        let mut steps: u64 = 0;
        while !self.halt && steps < max_steps
            invariant
                self.wf(),
                self.bus == old(self).bus,
                steps <= max_steps,
                spec_run(*old(self), max_steps as nat) == spec_run(
                    *self,
                    (max_steps - steps) as nat,
                ),
            decreases max_steps - steps,
        {
            match self.step() {
                Ok(_) => {},
                Err(e) => {
                    return Err(e);
                },
            }
            steps = steps + 1;
        }
        Ok(self.halt)
    }
}

} // verus!
