//! The mathematical model of the processor: a machine state over plain
//! integers and a byte sequence, the addressing-mode resolution formulas, and
//! one specification function per instruction class saying exactly how a
//! decoded instruction transforms the state.

use vstd::prelude::*;

use crate::instruction::AddressMode;
use crate::instruction::Instruction;
use crate::instruction::OpKind;
use crate::instruction::Register;
use crate::instruction::spec_decode;
use crate::status::spec_flags_from_value;

verus! {

/// Number of addressable bytes: the full 16-bit address space.
pub const MEMORY_SIZE: usize = 0x10000;

/// Whether resolving an address crossed a page boundary, which costs an
/// extra cycle on the addressing modes that index past their base address.
pub enum BoundaryStatus {
    Uncrossed,
    Crossed,
}

/// The abstract processor state: registers, packed status byte, the cycle
/// countdown and the 64 KiB address space.
pub ghost struct Machine {
    pub stackpointer: u8,
    pub program_counter: u16,
    pub accumulator: u8,
    pub index_x: u8,
    pub index_y: u8,
    pub status: u8,
    pub remaining_cycles: u8,
    pub memory: Seq<u8>,
}

impl Machine {
    /// A machine state is well formed when it covers the whole address space.
    pub open spec fn wf(self) -> bool {
        self.memory.len() == MEMORY_SIZE
    }

    /// The byte stored at an address.
    pub open spec fn mem(self, addr: u16) -> u8 {
        self.memory[addr as int]
    }

    /// The state with one byte of memory replaced.
    pub open spec fn with_mem(self, addr: u16, value: u8) -> Machine {
        Machine { memory: self.memory.update(addr as int, value), ..self }
    }

    /// The value of a register.
    pub open spec fn register(self, register: Register) -> u8 {
        match register {
            Register::Accumulator => self.accumulator,
            Register::X => self.index_x,
            Register::Y => self.index_y,
            Register::Stack => self.stackpointer,
        }
    }

    /// The state with one register replaced.
    pub open spec fn with_register(self, register: Register, value: u8) -> Machine {
        match register {
            Register::Accumulator => Machine { accumulator: value, ..self },
            Register::X => Machine { index_x: value, ..self },
            Register::Y => Machine { index_y: value, ..self },
            Register::Stack => Machine { stackpointer: value, ..self },
        }
    }
}

/// The reset state: cleared registers and memory, stack pointer at the top
/// of page 1, status holding only the unused bit.
pub open spec fn initial_machine() -> Machine {
    Machine {
        stackpointer: 0xFF,
        program_counter: 0x0000,
        accumulator: 0x00,
        index_x: 0x00,
        index_y: 0x00,
        status: crate::status::UNUSED_MASK,
        remaining_cycles: 0,
        memory: Seq::new(MEMORY_SIZE as nat, |i: int| 0u8),
    }
}

/// The 16-bit address encoded by two operand bytes; the first-fetched byte
/// is the high-order byte of the pair, exactly as the instruction stream of
/// the programs this engine runs encodes it.
pub open spec fn pair_address(first: u8, second: u8) -> u16 {
    (first as int * 0x100 + second as int) as u16
}

/// Whether adding an index to the low byte of a base address alone
/// overflows eight bits: the page-boundary-crossing test.
pub open spec fn crosses(low: u8, index: u8) -> bool {
    low as int + index as int > 0xFF
}

/// The address of the second pointer byte for indirect jumps, reproducing
/// the hardware quirk: when the first pointer byte sits at the end of a
/// page, the second is fetched from the start of that same page rather than
/// the next one.
pub open spec fn same_page_successor(addr: u16) -> u16 {
    if addr % 0x100 == 0xFF {
        (addr - 0xFF) as u16
    } else {
        (addr + 1) as u16
    }
}

/// The hardware stack lives in page 1: the effective address of a stack
/// pointer value.
pub open spec fn stack_address(stackpointer: u8) -> u16 {
    (0x100 + stackpointer as int) as u16
}

/// The byte at the stack pointer's effective address: the next free slot.
pub open spec fn stack_top(m: Machine) -> u8 {
    m.mem(stack_address(m.stackpointer))
}

/// The branch target of a relative operand: the address after the operand
/// plus the signed 8-bit offset, wrapping around the address space.
pub open spec fn relative_target(m: Machine) -> u16 {
    let base = m.program_counter.wrapping_add(2);
    let offset = m.mem(m.program_counter.wrapping_add(1));
    if offset >= 0x80 {
        base.wrapping_add(offset as u16).wrapping_sub(0x100)
    } else {
        base.wrapping_add(offset as u16)
    }
}

/// The effective address an addressing mode resolves to in a machine state.
/// All index arithmetic wraps within its operand width; in particular the
/// zero-page indexed modes wrap modulo 256 and never leave page 0.
pub open spec fn operand_address(m: Machine, mode: AddressMode) -> u16 {
    let pc1 = m.program_counter.wrapping_add(1);
    let pc2 = m.program_counter.wrapping_add(2);
    match mode {
        AddressMode::Immediate => pc1,
        AddressMode::ZeroPage => m.mem(pc1) as u16,
        AddressMode::ZeroPageX => m.mem(pc1).wrapping_add(m.index_x) as u16,
        AddressMode::ZeroPageY => m.mem(pc1).wrapping_add(m.index_y) as u16,
        AddressMode::Absolute => pair_address(m.mem(pc1), m.mem(pc2)),
        AddressMode::AbsoluteX => pair_address(m.mem(pc1), m.mem(pc2)).wrapping_add(
            m.index_x as u16,
        ),
        AddressMode::AbsoluteY => pair_address(m.mem(pc1), m.mem(pc2)).wrapping_add(
            m.index_y as u16,
        ),
        AddressMode::Indirect => {
            let pointer = pair_address(m.mem(pc1), m.mem(pc2));
            pair_address(m.mem(pointer), m.mem(same_page_successor(pointer)))
        },
        AddressMode::IndirectX => {
            let zero_page = m.mem(pc1).wrapping_add(m.index_x);
            pair_address(m.mem(zero_page as u16), m.mem(zero_page.wrapping_add(1) as u16))
        },
        AddressMode::IndirectY => {
            let zero_page = m.mem(pc1);
            pair_address(
                m.mem(zero_page as u16),
                m.mem(zero_page.wrapping_add(1) as u16),
            ).wrapping_add(m.index_y as u16)
        },
        AddressMode::Relative => relative_target(m),
    }
}

/// Whether resolving an addressing mode crosses a page boundary.  Only the
/// absolute indexed modes, the post-indexed indirect mode and branches can
/// cross; every other mode never does.
pub open spec fn boundary_crossed(m: Machine, mode: AddressMode) -> bool {
    let pc1 = m.program_counter.wrapping_add(1);
    let pc2 = m.program_counter.wrapping_add(2);
    match mode {
        AddressMode::AbsoluteX => crosses(m.mem(pc2), m.index_x),
        AddressMode::AbsoluteY => crosses(m.mem(pc2), m.index_y),
        AddressMode::IndirectY => crosses(m.mem(m.mem(pc1).wrapping_add(1) as u16), m.index_y),
        AddressMode::Relative => relative_target(m) / 0x100
            != m.program_counter.wrapping_add(2) / 0x100,
        _ => false,
    }
}

/// How many bytes an instruction with this addressing mode occupies: the
/// opcode plus its operand bytes.  This is how far the program counter
/// advances for every instruction that does not set it directly.
pub open spec fn operand_length(mode: AddressMode) -> u16 {
    match mode {
        AddressMode::Immediate => 2,
        AddressMode::ZeroPage => 2,
        AddressMode::ZeroPageX => 2,
        AddressMode::ZeroPageY => 2,
        AddressMode::Absolute => 3,
        AddressMode::AbsoluteX => 3,
        AddressMode::AbsoluteY => 3,
        AddressMode::Indirect => 3,
        AddressMode::IndirectX => 2,
        AddressMode::IndirectY => 2,
        AddressMode::Relative => 2,
    }
}

/// Whether an addressing mode charges the one-cycle page-boundary penalty
/// on read instructions.
pub open spec fn penalized_mode(mode: AddressMode) -> bool {
    mode is AbsoluteX || mode is AbsoluteY || mode is IndirectY
}

/// The cycle cost of a load: its base cost, plus one when an indexed read
/// crossed a page boundary.
pub open spec fn load_cost(m: Machine, mode: AddressMode, base_cycles: u8) -> u8 {
    if penalized_mode(mode) && boundary_crossed(m, mode) {
        base_cycles.wrapping_add(1)
    } else {
        base_cycles
    }
}

/// A load: the named register gets the byte at the resolved address, the
/// zero and negative flags are recomputed from the loaded value, the
/// program counter advances past the operand and the boundary penalty is
/// charged.
pub open spec fn step_load(m: Machine, register: Register, mode: AddressMode, base_cycles: u8) -> Machine {
    let value = m.mem(operand_address(m, mode));
    Machine {
        status: spec_flags_from_value(m.status, value),
        remaining_cycles: load_cost(m, mode, base_cycles),
        program_counter: m.program_counter.wrapping_add(operand_length(mode)),
        ..m.with_register(register, value)
    }
}

/// A store: the byte at the resolved address gets the named register.
/// Flags are untouched and stores always pay their worst-case cost.
pub open spec fn step_store(m: Machine, register: Register, mode: AddressMode, base_cycles: u8) -> Machine {
    Machine {
        remaining_cycles: base_cycles,
        program_counter: m.program_counter.wrapping_add(operand_length(mode)),
        ..m.with_mem(operand_address(m, mode), m.register(register))
    }
}

/// A register-to-register transfer: all eight bits are copied and the zero
/// and negative flags are recomputed from the value, except that a
/// transfer into the stack pointer never affects flags.
pub open spec fn step_transfer(m: Machine, from: Register, to: Register) -> Machine {
    let value = m.register(from);
    Machine {
        status: if to is Stack {
            m.status
        } else {
            spec_flags_from_value(m.status, value)
        },
        remaining_cycles: 2,
        program_counter: m.program_counter.wrapping_add(1),
        ..m.with_register(to, value)
    }
}

/// A read-modify-write decrement of a memory cell, wrapping modulo 256;
/// the zero and negative flags are recomputed from the result.
pub open spec fn step_decrement_memory(m: Machine, mode: AddressMode, base_cycles: u8) -> Machine {
    let addr = operand_address(m, mode);
    let value = m.mem(addr).wrapping_sub(1);
    Machine {
        status: spec_flags_from_value(m.status, value),
        remaining_cycles: base_cycles,
        program_counter: m.program_counter.wrapping_add(operand_length(mode)),
        ..m.with_mem(addr, value)
    }
}

/// A read-modify-write increment of a memory cell, wrapping modulo 256;
/// the zero and negative flags are recomputed from the result.
pub open spec fn step_increment_memory(m: Machine, mode: AddressMode, base_cycles: u8) -> Machine {
    let addr = operand_address(m, mode);
    let value = m.mem(addr).wrapping_add(1);
    Machine {
        status: spec_flags_from_value(m.status, value),
        remaining_cycles: base_cycles,
        program_counter: m.program_counter.wrapping_add(operand_length(mode)),
        ..m.with_mem(addr, value)
    }
}

/// A register decrement, wrapping modulo 256; the zero and negative
/// flags are recomputed from the result.
pub open spec fn step_decrement_register(m: Machine, register: Register) -> Machine {
    let value = m.register(register).wrapping_sub(1);
    Machine {
        status: spec_flags_from_value(m.status, value),
        remaining_cycles: 2,
        program_counter: m.program_counter.wrapping_add(1),
        ..m.with_register(register, value)
    }
}

/// A register increment, wrapping modulo 256; the zero and negative
/// flags are recomputed from the result.
pub open spec fn step_increment_register(m: Machine, register: Register) -> Machine {
    let value = m.register(register).wrapping_add(1);
    Machine {
        status: spec_flags_from_value(m.status, value),
        remaining_cycles: 2,
        program_counter: m.program_counter.wrapping_add(1),
        ..m.with_register(register, value)
    }
}

/// A jump: the program counter is set directly to the resolved address.
/// Flags are untouched and the cost never depends on boundary crossing.
pub open spec fn step_jump(m: Machine, mode: AddressMode, base_cycles: u8) -> Machine {
    Machine {
        remaining_cycles: base_cycles,
        program_counter: operand_address(m, mode),
        ..m
    }
}

/// A push of one byte: the byte is written at the stack address and the
/// stack pointer is decremented afterwards, wrapping modulo 256.
pub open spec fn push(m: Machine, value: u8) -> Machine {
    Machine {
        stackpointer: m.stackpointer.wrapping_sub(1),
        ..m.with_mem(stack_address(m.stackpointer), value)
    }
}

/// The state after a pull of one byte: only the stack pointer moves up,
/// wrapping modulo 256; memory is untouched.
pub open spec fn pop_state(m: Machine) -> Machine {
    Machine { stackpointer: m.stackpointer.wrapping_add(1), ..m }
}

/// The byte a pull returns: the stack pointer is incremented first, then
/// the byte at its new effective address is read — the slot the most
/// recent push wrote.
pub open spec fn pulled_value(m: Machine) -> u8 {
    m.mem(stack_address(m.stackpointer.wrapping_add(1)))
}

/// A push of the accumulator onto the hardware stack.
pub open spec fn step_push_accumulator(m: Machine) -> Machine {
    Machine {
        remaining_cycles: 3,
        program_counter: m.program_counter.wrapping_add(1),
        ..push(m, m.accumulator)
    }
}

/// A pull of the accumulator from the hardware stack; the zero and
/// negative flags are recomputed from the pulled value.
pub open spec fn step_pull_accumulator(m: Machine) -> Machine {
    let value = pulled_value(m);
    Machine {
        accumulator: value,
        status: spec_flags_from_value(m.status, value),
        remaining_cycles: 4,
        program_counter: m.program_counter.wrapping_add(1),
        ..pop_state(m)
    }
}

/// A no-operation: only the program counter advances.
pub open spec fn step_nop(m: Machine) -> Machine {
    Machine {
        remaining_cycles: 2,
        program_counter: m.program_counter.wrapping_add(1),
        ..m
    }
}

/// The state transformation of one decoded instruction.
pub open spec fn step_instruction(m: Machine, instruction: Instruction) -> Machine {
    match instruction.kind {
        OpKind::Load(register) => step_load(m, register, instruction.mode, instruction.cycles),
        OpKind::Store(register) => step_store(m, register, instruction.mode, instruction.cycles),
        OpKind::Transfer(from, to) => step_transfer(m, from, to),
        OpKind::DecrementMemory => step_decrement_memory(m, instruction.mode, instruction.cycles),
        OpKind::DecrementRegister(register) => step_decrement_register(m, register),
        OpKind::IncrementMemory => step_increment_memory(m, instruction.mode, instruction.cycles),
        OpKind::IncrementRegister(register) => step_increment_register(m, register),
        OpKind::Jump => step_jump(m, instruction.mode, instruction.cycles),
        OpKind::PushAccumulator => step_push_accumulator(m),
        OpKind::PullAccumulator => step_pull_accumulator(m),
        OpKind::Nop => step_nop(m),
    }
}

/// The state transformation of one opcode byte; an illegal opcode has no
/// defined transformation and leaves the state unchanged here, but
/// executing one is ruled out by `can_tick`.
pub open spec fn step_opcode(m: Machine, code: u8) -> Machine {
    match spec_decode(code) {
        Some(instruction) => step_instruction(m, instruction),
        None => m,
    }
}

/// Whether a tick is defined: either cycles remain to burn, or the byte
/// under the program counter decodes to an implemented instruction.
/// Fetching an illegal opcode is fatal to the emulation session.
pub open spec fn can_tick(m: Machine) -> bool {
    m.remaining_cycles > 0 || spec_decode(m.mem(m.program_counter)) is Some
}

/// One tick of the state machine: a busy processor burns one pending
/// cycle; a ready one fetches, decodes and executes the instruction under
/// the program counter, leaving its cost pending.
pub open spec fn spec_tick(m: Machine) -> Machine {
    if m.remaining_cycles > 0 {
        Machine { remaining_cycles: (m.remaining_cycles - 1) as u8, ..m }
    } else {
        step_opcode(m, m.mem(m.program_counter))
    }
}

/// The state after a given number of ticks.
pub open spec fn spec_tick_n(m: Machine, n: nat) -> Machine
    decreases n,
{
    if n == 0 {
        m
    } else {
        spec_tick_n(spec_tick(m), (n - 1) as nat)
    }
}

/// Whether a given number of ticks is defined from a state: every fetch
/// along the way finds an implemented opcode.
pub open spec fn can_tick_n(m: Machine, n: nat) -> bool
    decreases n,
{
    n == 0 || (can_tick(m) && can_tick_n(spec_tick(m), (n - 1) as nat))
}

/// No instruction grows or shrinks memory: a tick preserves
/// well-formedness.
pub proof fn lemma_tick_preserves_wf(m: Machine)
    requires
        m.wf(),
    ensures
        spec_tick(m).wf(),
{
    if m.remaining_cycles == 0 {
        match spec_decode(m.mem(m.program_counter)) {
            Some(instruction) => {
                match instruction.kind {
                    OpKind::Load(_) => {},
                    OpKind::Store(_) => {},
                    OpKind::Transfer(_, _) => {},
                    OpKind::DecrementMemory => {},
                    OpKind::DecrementRegister(_) => {},
                    OpKind::IncrementMemory => {},
                    OpKind::IncrementRegister(_) => {},
                    OpKind::Jump => {},
                    OpKind::PushAccumulator => {},
                    OpKind::PullAccumulator => {},
                    OpKind::Nop => {},
                }
            },
            None => {},
        }
    }
}

/// Ticks peel off the back as well as the front: one more tick is one
/// tick after the previous ones.
pub proof fn lemma_tick_n_snoc(m: Machine, n: nat)
    ensures
        spec_tick_n(m, n + 1) == spec_tick(spec_tick_n(m, n)),
    decreases n,
{
    assert(spec_tick_n(m, n + 1) == spec_tick_n(spec_tick(m), n));
    if n > 0 {
        lemma_tick_n_snoc(spec_tick(m), (n - 1) as nat);
        assert(spec_tick_n(m, n) == spec_tick_n(spec_tick(m), (n - 1) as nat));
    }
}

} // verus!
