//! The instruction table: a total mapping from opcode byte to instruction
//! descriptor.  An opcode with no defined semantics decodes to `None`, the
//! explicit illegal-opcode class; it is never treated as a no-op.

use vstd::prelude::*;

verus! {

/// A processor register named by an instruction.
#[derive(Clone, Copy, Debug, PartialEq, Eq, Structural)]
pub enum Register {
    Accumulator,
    X,
    Y,
    Stack,
}

/// How an instruction's operand address is computed from the bytes that
/// follow the opcode and the index registers.
#[derive(Clone, Copy, Debug, PartialEq, Eq, Structural)]
pub enum AddressMode {
    Immediate,
    ZeroPage,
    ZeroPageX,
    ZeroPageY,
    Absolute,
    AbsoluteX,
    AbsoluteY,
    Indirect,
    IndirectX,
    IndirectY,
    Relative,
}

/// The behavior class an opcode belongs to.
#[derive(Clone, Copy, Debug, PartialEq, Eq, Structural)]
pub enum OpKind {
    /// Register gets the byte at the resolved address; updates zero/negative.
    Load(Register),
    /// The byte at the resolved address gets the register; flags untouched.
    Store(Register),
    /// Destination register gets the source register; updates zero/negative
    /// unless the destination is the stack pointer.
    Transfer(Register, Register),
    /// The byte at the resolved address is decremented modulo 256.
    DecrementMemory,
    /// The register is decremented modulo 256.
    DecrementRegister(Register),
    /// The byte at the resolved address is incremented modulo 256.
    IncrementMemory,
    /// The register is incremented modulo 256.
    IncrementRegister(Register),
    /// The program counter is set to the resolved address.
    Jump,
    /// The accumulator is pushed onto the hardware stack.
    PushAccumulator,
    /// The accumulator is pulled from the hardware stack; updates
    /// zero/negative.
    PullAccumulator,
    /// Only the program counter advances.
    Nop,
}

/// One decoded instruction: its behavior class, its addressing mode and its
/// base cycle cost before any page-boundary penalty.
///
/// An instruction whose operand is implied by the opcode alone (a transfer,
/// a register increment or decrement, a stack operation, the no-op) carries
/// `Immediate` as its mode; its semantics never resolve that mode.
#[derive(Clone, Copy, Debug, PartialEq, Eq, Structural)]
pub struct Instruction {
    pub kind: OpKind,
    pub mode: AddressMode,
    pub cycles: u8,
}

/// The instruction descriptor of an opcode byte, or `None` for the illegal
/// opcodes whose semantics the table does not define.
pub open spec fn spec_decode(code: u8) -> Option<Instruction> {
    match code {
        // LDA
        0xA9 => Some(Instruction { kind: OpKind::Load(Register::Accumulator), mode: AddressMode::Immediate, cycles: 2 }),
        0xA5 => Some(Instruction { kind: OpKind::Load(Register::Accumulator), mode: AddressMode::ZeroPage, cycles: 3 }),
        0xB5 => Some(Instruction { kind: OpKind::Load(Register::Accumulator), mode: AddressMode::ZeroPageX, cycles: 4 }),
        0xAD => Some(Instruction { kind: OpKind::Load(Register::Accumulator), mode: AddressMode::Absolute, cycles: 4 }),
        0xBD => Some(Instruction { kind: OpKind::Load(Register::Accumulator), mode: AddressMode::AbsoluteX, cycles: 4 }),
        0xB9 => Some(Instruction { kind: OpKind::Load(Register::Accumulator), mode: AddressMode::AbsoluteY, cycles: 4 }),
        0xA1 => Some(Instruction { kind: OpKind::Load(Register::Accumulator), mode: AddressMode::IndirectX, cycles: 6 }),
        0xB1 => Some(Instruction { kind: OpKind::Load(Register::Accumulator), mode: AddressMode::IndirectY, cycles: 5 }),
        // LDX
        0xA2 => Some(Instruction { kind: OpKind::Load(Register::X), mode: AddressMode::Immediate, cycles: 2 }),
        0xA6 => Some(Instruction { kind: OpKind::Load(Register::X), mode: AddressMode::ZeroPage, cycles: 3 }),
        0xB6 => Some(Instruction { kind: OpKind::Load(Register::X), mode: AddressMode::ZeroPageX, cycles: 4 }),
        0xAE => Some(Instruction { kind: OpKind::Load(Register::X), mode: AddressMode::Absolute, cycles: 4 }),
        0xBE => Some(Instruction { kind: OpKind::Load(Register::X), mode: AddressMode::AbsoluteX, cycles: 4 }),
        // LDY
        0xA0 => Some(Instruction { kind: OpKind::Load(Register::Y), mode: AddressMode::Immediate, cycles: 2 }),
        0xA4 => Some(Instruction { kind: OpKind::Load(Register::Y), mode: AddressMode::ZeroPage, cycles: 3 }),
        0xB4 => Some(Instruction { kind: OpKind::Load(Register::Y), mode: AddressMode::ZeroPageX, cycles: 4 }),
        0xAC => Some(Instruction { kind: OpKind::Load(Register::Y), mode: AddressMode::Absolute, cycles: 4 }),
        0xBC => Some(Instruction { kind: OpKind::Load(Register::Y), mode: AddressMode::AbsoluteX, cycles: 4 }),
        // STA
        0x85 => Some(Instruction { kind: OpKind::Store(Register::Accumulator), mode: AddressMode::ZeroPage, cycles: 3 }),
        0x95 => Some(Instruction { kind: OpKind::Store(Register::Accumulator), mode: AddressMode::ZeroPageX, cycles: 4 }),
        0x8D => Some(Instruction { kind: OpKind::Store(Register::Accumulator), mode: AddressMode::Absolute, cycles: 4 }),
        0x9D => Some(Instruction { kind: OpKind::Store(Register::Accumulator), mode: AddressMode::AbsoluteX, cycles: 5 }),
        0x99 => Some(Instruction { kind: OpKind::Store(Register::Accumulator), mode: AddressMode::AbsoluteY, cycles: 5 }),
        0x81 => Some(Instruction { kind: OpKind::Store(Register::Accumulator), mode: AddressMode::IndirectX, cycles: 6 }),
        0x91 => Some(Instruction { kind: OpKind::Store(Register::Accumulator), mode: AddressMode::IndirectY, cycles: 6 }),
        // STX
        0x86 => Some(Instruction { kind: OpKind::Store(Register::X), mode: AddressMode::ZeroPage, cycles: 3 }),
        0x96 => Some(Instruction { kind: OpKind::Store(Register::X), mode: AddressMode::ZeroPageY, cycles: 4 }),
        0x8E => Some(Instruction { kind: OpKind::Store(Register::X), mode: AddressMode::Absolute, cycles: 4 }),
        // STY
        0x84 => Some(Instruction { kind: OpKind::Store(Register::Y), mode: AddressMode::ZeroPage, cycles: 3 }),
        0x94 => Some(Instruction { kind: OpKind::Store(Register::Y), mode: AddressMode::ZeroPageY, cycles: 4 }),
        0x8C => Some(Instruction { kind: OpKind::Store(Register::Y), mode: AddressMode::Absolute, cycles: 4 }),
        // Transfers
        0xAA => Some(Instruction { kind: OpKind::Transfer(Register::Accumulator, Register::X), mode: AddressMode::Immediate, cycles: 2 }),
        0xA8 => Some(Instruction { kind: OpKind::Transfer(Register::Accumulator, Register::Y), mode: AddressMode::Immediate, cycles: 2 }),
        0xBA => Some(Instruction { kind: OpKind::Transfer(Register::Stack, Register::X), mode: AddressMode::Immediate, cycles: 2 }),
        0x8A => Some(Instruction { kind: OpKind::Transfer(Register::X, Register::Accumulator), mode: AddressMode::Immediate, cycles: 2 }),
        0x9A => Some(Instruction { kind: OpKind::Transfer(Register::X, Register::Stack), mode: AddressMode::Immediate, cycles: 2 }),
        0x98 => Some(Instruction { kind: OpKind::Transfer(Register::Y, Register::Accumulator), mode: AddressMode::Immediate, cycles: 2 }),
        // Decrements
        0xC6 => Some(Instruction { kind: OpKind::DecrementMemory, mode: AddressMode::ZeroPage, cycles: 5 }),
        0xD6 => Some(Instruction { kind: OpKind::DecrementMemory, mode: AddressMode::ZeroPageX, cycles: 6 }),
        0xCE => Some(Instruction { kind: OpKind::DecrementMemory, mode: AddressMode::Absolute, cycles: 6 }),
        0xDE => Some(Instruction { kind: OpKind::DecrementMemory, mode: AddressMode::AbsoluteX, cycles: 7 }),
        0xCA => Some(Instruction { kind: OpKind::DecrementRegister(Register::X), mode: AddressMode::Immediate, cycles: 2 }),
        0x88 => Some(Instruction { kind: OpKind::DecrementRegister(Register::Y), mode: AddressMode::Immediate, cycles: 2 }),
        // Increments
        0xE6 => Some(Instruction { kind: OpKind::IncrementMemory, mode: AddressMode::ZeroPage, cycles: 5 }),
        0xF6 => Some(Instruction { kind: OpKind::IncrementMemory, mode: AddressMode::ZeroPageX, cycles: 6 }),
        0xEE => Some(Instruction { kind: OpKind::IncrementMemory, mode: AddressMode::Absolute, cycles: 6 }),
        0xFE => Some(Instruction { kind: OpKind::IncrementMemory, mode: AddressMode::AbsoluteX, cycles: 7 }),
        0xE8 => Some(Instruction { kind: OpKind::IncrementRegister(Register::X), mode: AddressMode::Immediate, cycles: 2 }),
        0xC8 => Some(Instruction { kind: OpKind::IncrementRegister(Register::Y), mode: AddressMode::Immediate, cycles: 2 }),
        // Jumps
        0x4C => Some(Instruction { kind: OpKind::Jump, mode: AddressMode::Absolute, cycles: 3 }),
        0x6C => Some(Instruction { kind: OpKind::Jump, mode: AddressMode::Indirect, cycles: 3 }),
        // Stack
        0x48 => Some(Instruction { kind: OpKind::PushAccumulator, mode: AddressMode::Immediate, cycles: 3 }),
        0x68 => Some(Instruction { kind: OpKind::PullAccumulator, mode: AddressMode::Immediate, cycles: 4 }),
        // NOP
        0xEA => Some(Instruction { kind: OpKind::Nop, mode: AddressMode::Immediate, cycles: 2 }),
        _ => None,
    }
}

/// Looks up the instruction descriptor of an opcode byte.
pub fn decode(code: u8) -> (instruction: Option<Instruction>)
    ensures
        instruction == spec_decode(code),
{
    match code {
        // LDA
        0xA9 => Some(Instruction { kind: OpKind::Load(Register::Accumulator), mode: AddressMode::Immediate, cycles: 2 }),
        0xA5 => Some(Instruction { kind: OpKind::Load(Register::Accumulator), mode: AddressMode::ZeroPage, cycles: 3 }),
        0xB5 => Some(Instruction { kind: OpKind::Load(Register::Accumulator), mode: AddressMode::ZeroPageX, cycles: 4 }),
        0xAD => Some(Instruction { kind: OpKind::Load(Register::Accumulator), mode: AddressMode::Absolute, cycles: 4 }),
        0xBD => Some(Instruction { kind: OpKind::Load(Register::Accumulator), mode: AddressMode::AbsoluteX, cycles: 4 }),
        0xB9 => Some(Instruction { kind: OpKind::Load(Register::Accumulator), mode: AddressMode::AbsoluteY, cycles: 4 }),
        0xA1 => Some(Instruction { kind: OpKind::Load(Register::Accumulator), mode: AddressMode::IndirectX, cycles: 6 }),
        0xB1 => Some(Instruction { kind: OpKind::Load(Register::Accumulator), mode: AddressMode::IndirectY, cycles: 5 }),
        // LDX
        0xA2 => Some(Instruction { kind: OpKind::Load(Register::X), mode: AddressMode::Immediate, cycles: 2 }),
        0xA6 => Some(Instruction { kind: OpKind::Load(Register::X), mode: AddressMode::ZeroPage, cycles: 3 }),
        0xB6 => Some(Instruction { kind: OpKind::Load(Register::X), mode: AddressMode::ZeroPageX, cycles: 4 }),
        0xAE => Some(Instruction { kind: OpKind::Load(Register::X), mode: AddressMode::Absolute, cycles: 4 }),
        0xBE => Some(Instruction { kind: OpKind::Load(Register::X), mode: AddressMode::AbsoluteX, cycles: 4 }),
        // LDY
        0xA0 => Some(Instruction { kind: OpKind::Load(Register::Y), mode: AddressMode::Immediate, cycles: 2 }),
        0xA4 => Some(Instruction { kind: OpKind::Load(Register::Y), mode: AddressMode::ZeroPage, cycles: 3 }),
        0xB4 => Some(Instruction { kind: OpKind::Load(Register::Y), mode: AddressMode::ZeroPageX, cycles: 4 }),
        0xAC => Some(Instruction { kind: OpKind::Load(Register::Y), mode: AddressMode::Absolute, cycles: 4 }),
        0xBC => Some(Instruction { kind: OpKind::Load(Register::Y), mode: AddressMode::AbsoluteX, cycles: 4 }),
        // STA
        0x85 => Some(Instruction { kind: OpKind::Store(Register::Accumulator), mode: AddressMode::ZeroPage, cycles: 3 }),
        0x95 => Some(Instruction { kind: OpKind::Store(Register::Accumulator), mode: AddressMode::ZeroPageX, cycles: 4 }),
        0x8D => Some(Instruction { kind: OpKind::Store(Register::Accumulator), mode: AddressMode::Absolute, cycles: 4 }),
        0x9D => Some(Instruction { kind: OpKind::Store(Register::Accumulator), mode: AddressMode::AbsoluteX, cycles: 5 }),
        0x99 => Some(Instruction { kind: OpKind::Store(Register::Accumulator), mode: AddressMode::AbsoluteY, cycles: 5 }),
        0x81 => Some(Instruction { kind: OpKind::Store(Register::Accumulator), mode: AddressMode::IndirectX, cycles: 6 }),
        0x91 => Some(Instruction { kind: OpKind::Store(Register::Accumulator), mode: AddressMode::IndirectY, cycles: 6 }),
        // STX
        0x86 => Some(Instruction { kind: OpKind::Store(Register::X), mode: AddressMode::ZeroPage, cycles: 3 }),
        0x96 => Some(Instruction { kind: OpKind::Store(Register::X), mode: AddressMode::ZeroPageY, cycles: 4 }),
        0x8E => Some(Instruction { kind: OpKind::Store(Register::X), mode: AddressMode::Absolute, cycles: 4 }),
        // STY
        0x84 => Some(Instruction { kind: OpKind::Store(Register::Y), mode: AddressMode::ZeroPage, cycles: 3 }),
        0x94 => Some(Instruction { kind: OpKind::Store(Register::Y), mode: AddressMode::ZeroPageY, cycles: 4 }),
        0x8C => Some(Instruction { kind: OpKind::Store(Register::Y), mode: AddressMode::Absolute, cycles: 4 }),
        // Transfers
        0xAA => Some(Instruction { kind: OpKind::Transfer(Register::Accumulator, Register::X), mode: AddressMode::Immediate, cycles: 2 }),
        0xA8 => Some(Instruction { kind: OpKind::Transfer(Register::Accumulator, Register::Y), mode: AddressMode::Immediate, cycles: 2 }),
        0xBA => Some(Instruction { kind: OpKind::Transfer(Register::Stack, Register::X), mode: AddressMode::Immediate, cycles: 2 }),
        0x8A => Some(Instruction { kind: OpKind::Transfer(Register::X, Register::Accumulator), mode: AddressMode::Immediate, cycles: 2 }),
        0x9A => Some(Instruction { kind: OpKind::Transfer(Register::X, Register::Stack), mode: AddressMode::Immediate, cycles: 2 }),
        0x98 => Some(Instruction { kind: OpKind::Transfer(Register::Y, Register::Accumulator), mode: AddressMode::Immediate, cycles: 2 }),
        // Decrements
        0xC6 => Some(Instruction { kind: OpKind::DecrementMemory, mode: AddressMode::ZeroPage, cycles: 5 }),
        0xD6 => Some(Instruction { kind: OpKind::DecrementMemory, mode: AddressMode::ZeroPageX, cycles: 6 }),
        0xCE => Some(Instruction { kind: OpKind::DecrementMemory, mode: AddressMode::Absolute, cycles: 6 }),
        0xDE => Some(Instruction { kind: OpKind::DecrementMemory, mode: AddressMode::AbsoluteX, cycles: 7 }),
        0xCA => Some(Instruction { kind: OpKind::DecrementRegister(Register::X), mode: AddressMode::Immediate, cycles: 2 }),
        0x88 => Some(Instruction { kind: OpKind::DecrementRegister(Register::Y), mode: AddressMode::Immediate, cycles: 2 }),
        // Increments
        0xE6 => Some(Instruction { kind: OpKind::IncrementMemory, mode: AddressMode::ZeroPage, cycles: 5 }),
        0xF6 => Some(Instruction { kind: OpKind::IncrementMemory, mode: AddressMode::ZeroPageX, cycles: 6 }),
        0xEE => Some(Instruction { kind: OpKind::IncrementMemory, mode: AddressMode::Absolute, cycles: 6 }),
        0xFE => Some(Instruction { kind: OpKind::IncrementMemory, mode: AddressMode::AbsoluteX, cycles: 7 }),
        0xE8 => Some(Instruction { kind: OpKind::IncrementRegister(Register::X), mode: AddressMode::Immediate, cycles: 2 }),
        0xC8 => Some(Instruction { kind: OpKind::IncrementRegister(Register::Y), mode: AddressMode::Immediate, cycles: 2 }),
        // Jumps
        0x4C => Some(Instruction { kind: OpKind::Jump, mode: AddressMode::Absolute, cycles: 3 }),
        0x6C => Some(Instruction { kind: OpKind::Jump, mode: AddressMode::Indirect, cycles: 3 }),
        // Stack
        0x48 => Some(Instruction { kind: OpKind::PushAccumulator, mode: AddressMode::Immediate, cycles: 3 }),
        0x68 => Some(Instruction { kind: OpKind::PullAccumulator, mode: AddressMode::Immediate, cycles: 4 }),
        // NOP
        0xEA => Some(Instruction { kind: OpKind::Nop, mode: AddressMode::Immediate, cycles: 2 }),
        _ => None,
    }
}

} // verus!
