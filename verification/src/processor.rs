//! The executable processor: registers, status, the 64 KiB address space
//! and the cycle-countdown tick state machine.  Every method is proved to
//! transform the abstract machine state exactly as the specification
//! functions of [`crate::machine`] say.

use vstd::prelude::*;

use crate::instruction::AddressMode;
use crate::instruction::OpKind;
use crate::instruction::Register;
use crate::instruction::decode;
use crate::instruction::spec_decode;
use crate::machine::BoundaryStatus;
use crate::machine::MEMORY_SIZE;
use crate::machine::Machine;
use crate::machine::boundary_crossed;
use crate::machine::can_tick;
use crate::machine::can_tick_n;
use crate::machine::initial_machine;
use crate::machine::operand_address;
use crate::machine::operand_length;
use crate::machine::pair_address;
use crate::machine::pop_state;
use crate::machine::pulled_value;
use crate::machine::push;
use crate::machine::spec_tick;
use crate::machine::spec_tick_n;
use crate::machine::stack_address;
use crate::machine::stack_top;
use crate::machine::step_decrement_memory;
use crate::machine::step_decrement_register;
use crate::machine::step_increment_memory;
use crate::machine::step_increment_register;
use crate::machine::step_jump;
use crate::machine::step_load;
use crate::machine::step_nop;
use crate::machine::step_opcode;
use crate::machine::step_pull_accumulator;
use crate::machine::step_push_accumulator;
use crate::machine::step_store;
use crate::machine::step_transfer;
use crate::status::Status;

verus! {

/// The processor: the externally driven unit of time.  The view is the
/// abstract [`Machine`] state.
pub struct Processor {
    stackpointer: u8,
    program_counter: u16,
    accumulator: u8,
    index_x: u8,
    index_y: u8,
    status: Status,
    remaining_cycles: u8,
    memory: Vec<u8>,
}

impl View for Processor {
    type V = Machine;

    closed spec fn view(&self) -> Machine {
        Machine {
            stackpointer: self.stackpointer,
            program_counter: self.program_counter,
            accumulator: self.accumulator,
            index_x: self.index_x,
            index_y: self.index_y,
            status: self.status@,
            remaining_cycles: self.remaining_cycles,
            memory: self.memory@,
        }
    }
}

/// Assembles two operand bytes into a 16-bit address, the first-fetched
/// byte as the high-order byte.
fn assemble_address(first: u8, second: u8) -> (addr: u16)
    ensures
        addr == pair_address(first, second),
{
    (first as u16) * 0x100 + (second as u16)
}

/// How many bytes the program counter advances past an instruction with
/// this addressing mode.
fn instruction_length(mode: AddressMode) -> (length: u16)
    ensures
        length == operand_length(mode),
{
    match mode {
        AddressMode::Immediate => 2,
        AddressMode::ZeroPage => 2,
        AddressMode::ZeroPageX => 2,
        AddressMode::ZeroPageY => 2,
        AddressMode::Absolute => 3,
        AddressMode::AbsoluteX => 3,
        AddressMode::AbsoluteY => 3,
        AddressMode::Indirect => 3,
        AddressMode::IndirectX => 2,
        AddressMode::IndirectY => 2,
        AddressMode::Relative => 2,
    }
}

impl Processor {
    /// Constructs a processor in its reset state: zeroed registers and
    /// memory, the stack pointer at the top of page 1 and only the unused
    /// status bit set.
    pub fn new() -> (processor: Box<Self>)
        ensures
            processor@ == initial_machine(),
    {
        let mut memory: Vec<u8> = Vec::new();
        let mut i: usize = 0;
        while i < MEMORY_SIZE
            invariant
                i <= MEMORY_SIZE,
                memory@.len() == i,
                forall|j: int| 0 <= j < i ==> memory@[j] == 0u8,
            decreases MEMORY_SIZE - i,
        {
            memory.push(0x00);
            i += 1;
        }
        let processor = Self {
            stackpointer: 0xFF,
            program_counter: 0x0000,
            accumulator: 0x00,
            index_x: 0x00,
            index_y: 0x00,
            status: Status::init(),
            remaining_cycles: 0,
            memory,
        };
        proof {
            assert(processor@.memory =~= initial_machine().memory);
        }
        Box::new(processor)
    }

    /// Reads the byte at an address; never mutates state.
    pub fn read(&self, addr: u16) -> (value: u8)
        requires
            self@.wf(),
        ensures
            value == self@.mem(addr),
    {
        self.memory[addr as usize]
    }

    /// Writes one byte at an address, as the external loader does to
    /// populate memory before the tick loop starts.
    pub fn write(&mut self, addr: u16, value: u8)
        requires
            old(self)@.wf(),
        ensures
            final(self)@ == old(self)@.with_mem(addr, value),
    {
        self.memory[addr as usize] = value;
    }

    pub fn accumulator(&self) -> (value: u8)
        ensures
            value == self@.accumulator,
    {
        self.accumulator
    }

    pub fn index_x(&self) -> (value: u8)
        ensures
            value == self@.index_x,
    {
        self.index_x
    }

    pub fn index_y(&self) -> (value: u8)
        ensures
            value == self@.index_y,
    {
        self.index_y
    }

    /// Sets the accumulator directly, as an external loader or test
    /// harness does before the tick loop starts.
    pub fn set_accumulator(&mut self, value: u8)
        ensures
            final(self)@ == (Machine { accumulator: value, ..old(self)@ }),
    {
        self.accumulator = value;
    }

    /// Sets the X index register directly.
    pub fn set_index_x(&mut self, value: u8)
        ensures
            final(self)@ == (Machine { index_x: value, ..old(self)@ }),
    {
        self.index_x = value;
    }

    /// Sets the Y index register directly.
    pub fn set_index_y(&mut self, value: u8)
        ensures
            final(self)@ == (Machine { index_y: value, ..old(self)@ }),
    {
        self.index_y = value;
    }

    /// The byte at the stack pointer's effective address: the next free
    /// slot.
    pub fn stack_top(&self) -> (value: u8)
        requires
            self@.wf(),
        ensures
            value == stack_top(self@),
    {
        self.read((self.stackpointer as u16).wrapping_add(0x100))
    }

    /// Pushes one byte: writes at the stack address, then decrements the
    /// stack pointer, wrapping modulo 256.
    pub fn stack_push(&mut self, value: u8)
        requires
            old(self)@.wf(),
        ensures
            final(self)@ == push(old(self)@, value),
    {
        self.write((self.stackpointer as u16).wrapping_add(0x100), value);
        self.stackpointer = self.stackpointer.wrapping_sub(1);
    }

    /// Pulls one byte: increments the stack pointer, wrapping modulo 256,
    /// then reads at its new effective address — the slot the most recent
    /// push wrote.
    pub fn stack_pop(&mut self) -> (value: u8)
        requires
            old(self)@.wf(),
        ensures
            value == pulled_value(old(self)@),
            final(self)@ == pop_state(old(self)@),
    {
        self.stackpointer = self.stackpointer.wrapping_add(1);

        self.read((self.stackpointer as u16).wrapping_add(0x100))
    }

    /// The effective page-1 address the stack pointer names.
    pub fn stackpointer(&self) -> (addr: u16)
        ensures
            addr == stack_address(self@.stackpointer),
    {
        (self.stackpointer as u16).wrapping_add(0x100)
    }

    pub fn program_counter(&self) -> (value: u16)
        ensures
            value == self@.program_counter,
    {
        self.program_counter
    }

    /// The negative flag of the status register.
    pub fn status_neg(&self) -> (value: bool)
        ensures
            value == crate::status::neg_flag(self@.status),
    {
        self.status.neg()
    }

    /// The zero flag of the status register.
    pub fn status_zero(&self) -> (value: bool)
        ensures
            value == crate::status::zero_flag(self@.status),
    {
        self.status.zero()
    }

    /// The carry flag of the status register.
    pub fn status_carry(&self) -> (value: bool)
        ensures
            value == crate::status::carry_flag(self@.status),
    {
        self.status.carry()
    }

    /// The overflow flag of the status register.
    pub fn status_overflow(&self) -> (value: bool)
        ensures
            value == crate::status::overflow_flag(self@.status),
    {
        self.status.overflow()
    }

    /// One emulated clock cycle.  A busy processor burns one pending
    /// cycle; a ready one fetches, decodes and executes the instruction
    /// under the program counter.  Fetching an opcode outside the
    /// instruction table is an unrecoverable condition, ruled out by the
    /// precondition.
    pub fn tick(&mut self)
        requires
            old(self)@.wf(),
            can_tick(old(self)@),
        ensures
            final(self)@ == spec_tick(old(self)@),
    {
        let code = self.read(self.program_counter);

        if self.remaining_cycles > 0 {
            self.remaining_cycles -= 1;
            return;
        }

        self.execute_opcode(code);
    }

    /// Runs a given number of ticks.
    pub fn tick_times(&mut self, amount: u8)
        requires
            old(self)@.wf(),
            can_tick_n(old(self)@, amount as nat),
        ensures
            final(self)@ == spec_tick_n(old(self)@, amount as nat),
    {
        let mut i: u8 = 0;
        while i < amount
            invariant
                i <= amount,
                self@.wf(),
                self@ == spec_tick_n(old(self)@, i as nat),
                can_tick_n(self@, (amount - i) as nat),
            decreases amount - i,
        {
            proof {
                crate::machine::lemma_tick_preserves_wf(self@);
                crate::machine::lemma_tick_n_snoc(old(self)@, i as nat);
            }
            self.tick();
            i += 1;
        }
    }

    /// Decodes and executes one fetched opcode byte.
    fn execute_opcode(&mut self, code: u8)
        requires
            old(self)@.wf(),
            spec_decode(code) is Some,
        ensures
            final(self)@ == step_opcode(old(self)@, code),
    {
        let instruction = decode(code).unwrap();
        match instruction.kind {
            OpKind::Load(register) => self.opcode_ld(register, instruction.mode, instruction.cycles),
            OpKind::Store(register) => self.opcode_st(register, instruction.mode, instruction.cycles),
            OpKind::Transfer(from, to) => self.opcode_transfer(from, to),
            OpKind::DecrementMemory => self.opcode_dec_address(instruction.mode, instruction.cycles),
            OpKind::DecrementRegister(register) => self.opcode_dec_register(register),
            OpKind::IncrementMemory => self.opcode_inc_address(instruction.mode, instruction.cycles),
            OpKind::IncrementRegister(register) => self.opcode_inc_register(register),
            OpKind::Jump => self.opcode_jmp(instruction.mode, instruction.cycles),
            OpKind::PushAccumulator => self.opcode_push_accumulator(),
            OpKind::PullAccumulator => self.opcode_pull_accumulator(),
            OpKind::Nop => self.opcode_nop(),
        }
    }

    /// The value of a register.
    fn read_register(&self, register: Register) -> (value: u8)
        ensures
            value == self@.register(register),
    {
        match register {
            Register::Accumulator => self.accumulator,
            Register::X => self.index_x,
            Register::Y => self.index_y,
            Register::Stack => self.stackpointer,
        }
    }

    /// Replaces the value of a register.
    fn write_register(&mut self, register: Register, value: u8)
        ensures
            final(self)@ == old(self)@.with_register(register, value),
    {
        match register {
            Register::Accumulator => self.accumulator = value,
            Register::X => self.index_x = value,
            Register::Y => self.index_y = value,
            Register::Stack => self.stackpointer = value,
        }
    }

    fn opcode_ld(&mut self, register: Register, mode: AddressMode, base_cycles: u8)
        requires
            old(self)@.wf(),
        ensures
            final(self)@ == step_load(old(self)@, register, mode, base_cycles),
    {
        let (addr, boundary_status) = self.instruction_address_from_mode(mode);
        let value = self.read(addr);

        self.write_register(register, value);
        self.status.flags_from_value(value);

        let cycles = match mode {
            AddressMode::AbsoluteX | AddressMode::AbsoluteY | AddressMode::IndirectY => match boundary_status {
                BoundaryStatus::Crossed => base_cycles.wrapping_add(1),
                BoundaryStatus::Uncrossed => base_cycles,
            },
            _ => base_cycles,
        };

        self.remaining_cycles = cycles;
        self.program_counter = self.program_counter.wrapping_add(instruction_length(mode));
    }

    fn opcode_st(&mut self, register: Register, mode: AddressMode, base_cycles: u8)
        requires
            old(self)@.wf(),
        ensures
            final(self)@ == step_store(old(self)@, register, mode, base_cycles),
    {
        let (addr, _) = self.instruction_address_from_mode(mode);
        let value = self.read_register(register);
        self.write(addr, value);

        self.remaining_cycles = base_cycles;
        self.program_counter = self.program_counter.wrapping_add(instruction_length(mode));
    }

    fn opcode_transfer(&mut self, from: Register, to: Register)
        ensures
            final(self)@ == step_transfer(old(self)@, from, to),
    {
        let value = self.read_register(from);
        self.write_register(to, value);

        match to {
            Register::Stack => {},
            _ => {
                self.status.flags_from_value(value);
            },
        };

        self.remaining_cycles = 2;
        self.program_counter = self.program_counter.wrapping_add(1);
    }

    fn opcode_dec_address(&mut self, mode: AddressMode, base_cycles: u8)
        requires
            old(self)@.wf(),
        ensures
            final(self)@ == step_decrement_memory(old(self)@, mode, base_cycles),
    {
        let (addr, _) = self.instruction_address_from_mode(mode);
        let value = self.read(addr).wrapping_sub(1);
        self.write(addr, value);

        self.status.flags_from_value(value);
        self.remaining_cycles = base_cycles;
        self.program_counter = self.program_counter.wrapping_add(instruction_length(mode));
    }

    fn opcode_dec_register(&mut self, register: Register)
        ensures
            final(self)@ == step_decrement_register(old(self)@, register),
    {
        let value = self.read_register(register).wrapping_sub(1);
        self.write_register(register, value);

        self.status.flags_from_value(value);
        self.remaining_cycles = 2;
        self.program_counter = self.program_counter.wrapping_add(1);
    }

    fn opcode_inc_address(&mut self, mode: AddressMode, base_cycles: u8)
        requires
            old(self)@.wf(),
        ensures
            final(self)@ == step_increment_memory(old(self)@, mode, base_cycles),
    {
        let (addr, _) = self.instruction_address_from_mode(mode);
        let value = self.read(addr).wrapping_add(1);
        self.write(addr, value);

        self.status.flags_from_value(value);
        self.remaining_cycles = base_cycles;
        self.program_counter = self.program_counter.wrapping_add(instruction_length(mode));
    }

    fn opcode_inc_register(&mut self, register: Register)
        ensures
            final(self)@ == step_increment_register(old(self)@, register),
    {
        let value = self.read_register(register).wrapping_add(1);
        self.write_register(register, value);

        self.status.flags_from_value(value);
        self.remaining_cycles = 2;
        self.program_counter = self.program_counter.wrapping_add(1);
    }

    fn opcode_jmp(&mut self, mode: AddressMode, base_cycles: u8)
        requires
            old(self)@.wf(),
        ensures
            final(self)@ == step_jump(old(self)@, mode, base_cycles),
    {
        let (addr, _) = self.instruction_address_from_mode(mode);

        self.remaining_cycles = base_cycles;
        self.program_counter = addr;
    }

    fn opcode_push_accumulator(&mut self)
        requires
            old(self)@.wf(),
        ensures
            final(self)@ == step_push_accumulator(old(self)@),
    {
        let value = self.accumulator;
        self.stack_push(value);

        self.remaining_cycles = 3;
        self.program_counter = self.program_counter.wrapping_add(1);
    }

    fn opcode_pull_accumulator(&mut self)
        requires
            old(self)@.wf(),
        ensures
            final(self)@ == step_pull_accumulator(old(self)@),
    {
        let value = self.stack_pop();
        self.accumulator = value;
        self.status.flags_from_value(value);

        self.remaining_cycles = 4;
        self.program_counter = self.program_counter.wrapping_add(1);
    }

    fn opcode_nop(&mut self)
        ensures
            final(self)@ == step_nop(old(self)@),
    {
        self.remaining_cycles = 2;
        self.program_counter = self.program_counter.wrapping_add(1);
    }

    /// Resolves an addressing mode to its effective address and whether a
    /// page boundary was crossed, reading only the current state.
    pub fn instruction_address_from_mode(&self, mode: AddressMode) -> (resolved: (u16, BoundaryStatus))
        requires
            self@.wf(),
        ensures
            resolved.0 == operand_address(self@, mode),
            (resolved.1 is Crossed) == boundary_crossed(self@, mode),
    {
        match mode {
            AddressMode::Immediate => (
                self.program_counter.wrapping_add(1),
                BoundaryStatus::Uncrossed,
            ),
            AddressMode::ZeroPage => (
                self.read(self.program_counter.wrapping_add(1)) as u16,
                BoundaryStatus::Uncrossed,
            ),
            AddressMode::ZeroPageX => (
                self.read(self.program_counter.wrapping_add(1)).wrapping_add(self.index_x) as u16,
                BoundaryStatus::Uncrossed,
            ),
            AddressMode::ZeroPageY => (
                self.read(self.program_counter.wrapping_add(1)).wrapping_add(self.index_y) as u16,
                BoundaryStatus::Uncrossed,
            ),
            AddressMode::Absolute => {
                let first = self.read(self.program_counter.wrapping_add(1));
                let second = self.read(self.program_counter.wrapping_add(2));
                (assemble_address(first, second), BoundaryStatus::Uncrossed)
            },
            AddressMode::AbsoluteX => {
                let first = self.read(self.program_counter.wrapping_add(1));
                let second = self.read(self.program_counter.wrapping_add(2));

                let addr = assemble_address(first, second).wrapping_add(self.index_x as u16);

                (
                    addr,
                    if (second as u16) + (self.index_x as u16) > 0xFF {
                        BoundaryStatus::Crossed
                    } else {
                        BoundaryStatus::Uncrossed
                    },
                )
            },
            AddressMode::AbsoluteY => {
                let first = self.read(self.program_counter.wrapping_add(1));
                let second = self.read(self.program_counter.wrapping_add(2));

                let addr = assemble_address(first, second).wrapping_add(self.index_y as u16);

                (
                    addr,
                    if (second as u16) + (self.index_y as u16) > 0xFF {
                        BoundaryStatus::Crossed
                    } else {
                        BoundaryStatus::Uncrossed
                    },
                )
            },
            AddressMode::Indirect => {
                let first = self.read(self.program_counter.wrapping_add(1));
                let second = self.read(self.program_counter.wrapping_add(2));
                let pointer = assemble_address(first, second);

                proof {
                    assert(pointer % 0x100 == 0xFF ==> pointer >= 0xFF) by (bit_vector);
                    assert(pointer % 0x100 != 0xFF ==> pointer <= 0xFFFE) by (bit_vector);
                }
                let second_pointer = if pointer % 0x100 == 0xFF {
                    pointer - 0xFF
                } else {
                    pointer + 1
                };

                (
                    assemble_address(self.read(pointer), self.read(second_pointer)),
                    BoundaryStatus::Uncrossed,
                )
            },
            AddressMode::IndirectX => {
                let zero_page = self.read(self.program_counter.wrapping_add(1)).wrapping_add(
                    self.index_x,
                );
                let first = self.read(zero_page as u16);
                let second = self.read(zero_page.wrapping_add(1) as u16);
                (assemble_address(first, second), BoundaryStatus::Uncrossed)
            },
            AddressMode::IndirectY => {
                let zero_page = self.read(self.program_counter.wrapping_add(1));
                let first = self.read(zero_page as u16);
                let second = self.read(zero_page.wrapping_add(1) as u16);

                let addr = assemble_address(first, second).wrapping_add(self.index_y as u16);

                (
                    addr,
                    if (second as u16) + (self.index_y as u16) > 0xFF {
                        BoundaryStatus::Crossed
                    } else {
                        BoundaryStatus::Uncrossed
                    },
                )
            },
            AddressMode::Relative => {
                let base = self.program_counter.wrapping_add(2);
                let offset = self.read(self.program_counter.wrapping_add(1));

                let target = if offset >= 0x80 {
                    base.wrapping_add(offset as u16).wrapping_sub(0x100)
                } else {
                    base.wrapping_add(offset as u16)
                };

                (
                    target,
                    if target / 0x100 != base / 0x100 {
                        BoundaryStatus::Crossed
                    } else {
                        BoundaryStatus::Uncrossed
                    },
                )
            },
        }
    }
}

} // verus!
