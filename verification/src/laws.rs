//! Laws of the engine: properties that hold of every machine state, proved
//! once and for all over the specification functions.

use vstd::prelude::*;

use crate::instruction::AddressMode;
use crate::machine::Machine;
use crate::machine::boundary_crossed;
use crate::machine::operand_address;
use crate::machine::pop_state;
use crate::machine::pulled_value;
use crate::machine::push;
use crate::machine::spec_tick;
use crate::status::carry_flag;
use crate::status::neg_flag;
use crate::status::overflow_flag;
use crate::status::spec_flags_from_value;
use crate::status::spec_update_with_value;
use crate::status::zero_flag;

verus! {

/// Recomputing the flags from a value, as every flag-affecting instruction
/// does, makes the zero and negative flags a pure function of that value —
/// zero exactly when it is zero, negative exactly when its high bit is set,
/// whatever the flags held before — and leaves carry and overflow alone.
pub proof fn lemma_flags_from_value(bits: u8, value: u8)
    ensures
        zero_flag(spec_flags_from_value(bits, value)) == (value == 0),
        neg_flag(spec_flags_from_value(bits, value)) == (value >= 0x80),
        carry_flag(spec_flags_from_value(bits, value)) == carry_flag(bits),
        overflow_flag(spec_flags_from_value(bits, value)) == overflow_flag(bits),
{
    assert(zero_flag(spec_flags_from_value(bits, value)) == (value == 0)) by (bit_vector);
    assert(neg_flag(spec_flags_from_value(bits, value)) == (value >= 0x80)) by (bit_vector);
    assert(carry_flag(spec_flags_from_value(bits, value)) == carry_flag(bits)) by (bit_vector);
    assert(overflow_flag(spec_flags_from_value(bits, value)) == overflow_flag(bits))
        by (bit_vector);
}

/// The set-only status helper sets the zero flag exactly when the value
/// is zero and the negative flag exactly when its high bit is set, and it
/// never clears any flag that was already set.
pub proof fn lemma_update_with_value(bits: u8, value: u8)
    ensures
        zero_flag(spec_update_with_value(bits, value)) == (value == 0 || zero_flag(bits)),
        neg_flag(spec_update_with_value(bits, value)) == (value >= 0x80 || neg_flag(bits)),
        carry_flag(spec_update_with_value(bits, value)) == carry_flag(bits),
        overflow_flag(spec_update_with_value(bits, value)) == overflow_flag(bits),
{
    assert(zero_flag(spec_update_with_value(bits, value)) == (value == 0 || zero_flag(bits)))
        by (bit_vector);
    assert(neg_flag(spec_update_with_value(bits, value)) == (value >= 0x80 || neg_flag(bits)))
        by (bit_vector);
    assert(carry_flag(spec_update_with_value(bits, value)) == carry_flag(bits)) by (bit_vector);
    assert(overflow_flag(spec_update_with_value(bits, value)) == overflow_flag(bits))
        by (bit_vector);
}

/// Zero-page indexed addressing wraps modulo 256 and never leaves page 0,
/// even when the zero-page base plus the index exceeds 255; it never
/// counts as a page-boundary crossing.
pub proof fn lemma_zero_page_indexed_wraps(m: Machine)
    ensures
        operand_address(m, AddressMode::ZeroPageX) < 0x100,
        operand_address(m, AddressMode::ZeroPageY) < 0x100,
        operand_address(m, AddressMode::ZeroPageX) as int == (m.mem(
            m.program_counter.wrapping_add(1),
        ) + m.index_x) % 0x100,
        operand_address(m, AddressMode::ZeroPageY) as int == (m.mem(
            m.program_counter.wrapping_add(1),
        ) + m.index_y) % 0x100,
        !boundary_crossed(m, AddressMode::ZeroPageX),
        !boundary_crossed(m, AddressMode::ZeroPageY),
{
}

/// Absolute indexed addressing crosses a page boundary exactly when the
/// base's low byte plus the index exceeds 255, independent of the page the
/// resulting full address lands in.
pub proof fn lemma_absolute_indexed_boundary(m: Machine)
    ensures
        boundary_crossed(m, AddressMode::AbsoluteX) <==> m.mem(m.program_counter.wrapping_add(2))
            + m.index_x > 0xFF,
        boundary_crossed(m, AddressMode::AbsoluteY) <==> m.mem(m.program_counter.wrapping_add(2))
            + m.index_y > 0xFF,
{
}

/// Stack round trip, in every state: a push followed by a pull yields the
/// pushed value and restores the stack pointer, because the pull
/// increments the stack pointer first and then reads exactly the slot the
/// push wrote.
pub proof fn lemma_stack_push_pop_round_trip(m: Machine, value: u8)
    requires
        m.wf(),
    ensures
        pulled_value(push(m, value)) == value,
        pop_state(push(m, value)).stackpointer == m.stackpointer,
{
}

/// The load-accumulator-immediate opcode costs exactly 2 cycles and
/// advances the program counter by 2, from every ready state.
pub proof fn lemma_lda_immediate_cycles(m: Machine)
    requires
        m.remaining_cycles == 0,
        m.mem(m.program_counter) == 0xA9,
    ensures
        spec_tick(m).remaining_cycles == 2,
        spec_tick(m).program_counter == m.program_counter.wrapping_add(2),
{
}

/// The load-accumulator-absolute-X opcode costs 4 cycles when no page
/// boundary is crossed and 5 when one is, and advances the program counter
/// by 3, from every ready state.
pub proof fn lemma_lda_absolute_x_cycles(m: Machine)
    requires
        m.remaining_cycles == 0,
        m.mem(m.program_counter) == 0xBD,
    ensures
        spec_tick(m).remaining_cycles == if boundary_crossed(m, AddressMode::AbsoluteX) {
            5u8
        } else {
            4u8
        },
        spec_tick(m).program_counter == m.program_counter.wrapping_add(3),
{
}

/// The no-operation opcode always costs exactly 2 cycles, advances the
/// program counter by 1 and changes nothing else, from every ready state.
pub proof fn lemma_nop_cycles(m: Machine)
    requires
        m.remaining_cycles == 0,
        m.mem(m.program_counter) == 0xEA,
    ensures
        spec_tick(m).remaining_cycles == 2,
        spec_tick(m).program_counter == m.program_counter.wrapping_add(1),
        spec_tick(m).accumulator == m.accumulator,
        spec_tick(m).index_x == m.index_x,
        spec_tick(m).index_y == m.index_y,
        spec_tick(m).stackpointer == m.stackpointer,
        spec_tick(m).status == m.status,
        spec_tick(m).memory == m.memory,
{
}

} // verus!
