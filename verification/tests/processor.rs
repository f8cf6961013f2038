use nesemu_core::Processor;

#[test]
fn test_opcode_ld() {
    // LDA Intermediate
    let mut processor = Processor::new();
    processor.write(0x0000, 0xA9);
    processor.write(0x0001, 0xEE);
    processor.tick();
    assert_eq!(processor.accumulator(), 0xEE);

    // LDA ZeroPage
    let mut processor = Processor::new();
    processor.write(0x0000, 0xA5);
    processor.write(0x0001, 0x02);
    processor.write(0x0002, 0xEE);
    processor.tick();
    assert_eq!(processor.accumulator(), 0xEE);

    // LDA ZeroPageX
    let mut processor = Processor::new();
    processor.set_index_x(0x03);
    processor.write(0x0000, 0xB5);
    processor.write(0x0001, 0x02);
    processor.write(0x0005, 0xEE);
    processor.tick();
    assert_eq!(processor.accumulator(), 0xEE);

    // LDA ZeroPageX Overflow
    let mut processor = Processor::new();
    processor.set_index_x(0xFF);
    processor.write(0x0000, 0xB5);
    processor.write(0x0001, 0x03);
    processor.write(0x0002, 0xEE);
    processor.tick();
    assert_eq!(processor.accumulator(), 0xEE);

    // LDA Absolute
    let mut processor = Processor::new();
    processor.write(0x0000, 0xAD);
    processor.write(0x0001, 0xBB);
    processor.write(0x0002, 0xCC);
    processor.write(0xBBCC, 0xEE);
    processor.tick();
    assert_eq!(processor.accumulator(), 0xEE);

    // LDA AbsoluteX
    let mut processor = Processor::new();
    processor.set_index_x(0x02);
    processor.write(0x0000, 0xBD);
    processor.write(0x0001, 0xBB);
    processor.write(0x0002, 0xFF);
    processor.write(0xBC01, 0xEE);
    processor.tick();
    assert_eq!(processor.accumulator(), 0xEE);

    // LDA AbsoluteY
    let mut processor = Processor::new();
    processor.set_index_y(0x02);
    processor.write(0x0000, 0xB9);
    processor.write(0x0001, 0xBB);
    processor.write(0x0002, 0xFF);
    processor.write(0xBC01, 0xEE);
    processor.tick();
    assert_eq!(processor.accumulator(), 0xEE);
}

#[test]
fn test_opcode_st() {
    // STA ZeroPage
    let mut processor = Processor::new();
    processor.set_accumulator(0xEE);
    processor.write(0x0000, 0x85);
    processor.write(0x0001, 0x02);
    processor.tick();
    assert_eq!(processor.read(0x0002), 0xEE);
}

#[test]
fn test_opcode_dec() {
    // DEC ZeroPage
    let mut processor = Processor::new();
    processor.write(0x0000, 0xC6);
    processor.write(0x0001, 0x02);
    processor.write(0x0002, 0xFF);
    processor.tick();
    assert_eq!(processor.read(0x0002), 0xFE);
}

#[test]
fn test_opcode_dec_register() {
    // DEX
    let mut processor = Processor::new();
    processor.set_index_x(0xEE);
    processor.write(0x0000, 0xCA);
    processor.tick();
    assert_eq!(processor.index_x(), 0xED);
}

#[test]
fn test_push_accumulator() {
    let mut processor = Processor::new();

    processor.set_accumulator(0xEE);
    processor.write(0x0000, 0x48);
    processor.write(0x0001, 0x48);
    processor.write(0x0002, 0x48);

    for _ in 0..9 {
        processor.tick();
    }

    assert_eq!(processor.read(0x01FF), 0xEE);
    assert_eq!(processor.read(0x01FE), 0xEE);
    assert_eq!(processor.read(0x01FD), 0xEE);
    assert_eq!(processor.read(0x01FC), 0x00);
}

#[test]
fn lda_immediate_sets_negative_not_zero() {
    let mut processor = Processor::new();
    processor.write(0x0000, 0xA9);
    processor.write(0x0001, 0xEE);
    processor.tick();
    assert_eq!(processor.accumulator(), 0xEE);
    assert!(!processor.status_zero());
    assert!(processor.status_neg());
}

#[test]
fn lda_zero_page_dereferences() {
    let mut processor = Processor::new();
    processor.write(0x0000, 0xA5);
    processor.write(0x0001, 0x02);
    processor.write(0x0002, 0xEE);
    processor.tick();
    assert_eq!(processor.accumulator(), 0xEE);
}

#[test]
fn lda_zero_page_x_wraps_into_page_zero() {
    let mut processor = Processor::new();
    processor.set_index_x(0xFF);
    processor.write(0x0000, 0xB5);
    processor.write(0x0001, 0x03);
    processor.write(0x0002, 0xEE);
    processor.tick();
    assert_eq!(processor.accumulator(), 0xEE);
}

#[test]
fn push_accumulator_three_times_fills_top_of_stack() {
    let mut processor = Processor::new();

    processor.set_accumulator(0xEE);
    processor.write(0x0000, 0x48);
    processor.write(0x0001, 0x48);
    processor.write(0x0002, 0x48);

    processor.tick_times(9);

    assert_eq!(processor.read(0x01FF), 0xEE);
    assert_eq!(processor.read(0x01FE), 0xEE);
    assert_eq!(processor.read(0x01FD), 0xEE);
    assert_eq!(processor.read(0x01FC), 0x00);
}

#[test]
fn lda_immediate_costs_two_cycles_and_advances_pc_by_two() {
    let mut processor = Processor::new();
    processor.write(0x0000, 0xA9);
    processor.write(0x0001, 0x11);
    processor.write(0x0002, 0xA9);
    processor.write(0x0003, 0x22);

    processor.tick();
    assert_eq!(processor.accumulator(), 0x11);
    assert_eq!(processor.program_counter(), 0x0002);

    // Two pending cycles burn before the next fetch.
    processor.tick();
    processor.tick();
    assert_eq!(processor.accumulator(), 0x11);

    processor.tick();
    assert_eq!(processor.accumulator(), 0x22);
}

#[test]
fn lda_absolute_x_costs_four_cycles_uncrossed() {
    let mut processor = Processor::new();
    processor.write(0x0000, 0xBD);
    processor.write(0x0001, 0x10);
    processor.write(0x0002, 0x00);
    processor.set_index_x(0x01);
    processor.write(0x1001, 0x33);
    processor.write(0x0003, 0xA9);
    processor.write(0x0004, 0x44);

    processor.tick();
    assert_eq!(processor.accumulator(), 0x33);
    assert_eq!(processor.program_counter(), 0x0003);

    // Four pending cycles burn before the next fetch.
    for _ in 0..4 {
        assert_eq!(processor.accumulator(), 0x33);
        processor.tick();
    }
    processor.tick();
    assert_eq!(processor.accumulator(), 0x44);
}

#[test]
fn lda_absolute_x_costs_five_cycles_crossed() {
    let mut processor = Processor::new();
    processor.write(0x0000, 0xBD);
    processor.write(0x0001, 0x10);
    processor.write(0x0002, 0xFF);
    processor.set_index_x(0x02);
    processor.write(0x1101, 0x33);
    processor.write(0x0003, 0xA9);
    processor.write(0x0004, 0x44);

    processor.tick();
    assert_eq!(processor.accumulator(), 0x33);

    // Five pending cycles burn before the next fetch.
    for _ in 0..5 {
        assert_eq!(processor.accumulator(), 0x33);
        processor.tick();
    }
    processor.tick();
    assert_eq!(processor.accumulator(), 0x44);
}

#[test]
fn nop_costs_two_cycles_and_advances_pc_by_one() {
    let mut processor = Processor::new();
    processor.write(0x0000, 0xEA);
    processor.write(0x0001, 0xA9);
    processor.write(0x0002, 0x55);

    processor.tick();
    assert_eq!(processor.program_counter(), 0x0001);
    assert_eq!(processor.accumulator(), 0x00);

    processor.tick();
    processor.tick();
    assert_eq!(processor.accumulator(), 0x00);

    processor.tick();
    assert_eq!(processor.accumulator(), 0x55);
}

#[test]
fn stack_push_pop_round_trips() {
    let mut processor = Processor::new();
    assert_eq!(processor.stackpointer(), 0x01FF);

    processor.stack_push(0x55);
    assert_eq!(processor.stackpointer(), 0x01FE);
    assert_eq!(processor.read(0x01FF), 0x55);

    // The pull increments the stack pointer first and reads exactly the
    // slot the push wrote.
    let value = processor.stack_pop();
    assert_eq!(value, 0x55);
    assert_eq!(processor.stackpointer(), 0x01FF);
}

#[test]
fn stack_top_reads_slot_under_pointer() {
    let mut processor = Processor::new();
    processor.write(0x01FF, 0x42);
    assert_eq!(processor.stack_top(), 0x42);
}

#[test]
fn pull_accumulator_returns_pushed_value() {
    let mut processor = Processor::new();
    processor.set_accumulator(0xEE);
    // Push the accumulator, overwrite it with zero, then pull it back.
    processor.write(0x0000, 0x48);
    processor.write(0x0001, 0xA9);
    processor.write(0x0002, 0x00);
    processor.write(0x0003, 0x68);

    processor.tick_times(8);

    assert_eq!(processor.accumulator(), 0xEE);
    assert_eq!(processor.stackpointer(), 0x01FF);
    // The pull recomputes the flags from the pulled value, clearing the
    // zero flag the intervening load had set.
    assert!(processor.status_neg());
    assert!(!processor.status_zero());
}

#[test]
fn load_recomputes_flags_each_time() {
    let mut processor = Processor::new();
    // LDA #$00 sets the zero flag; LDA #$42 must clear it again: the flags
    // are a function of the last value loaded, never stale state.
    processor.write(0x0000, 0xA9);
    processor.write(0x0001, 0x00);
    processor.write(0x0002, 0xA9);
    processor.write(0x0003, 0x42);

    processor.tick();
    assert!(processor.status_zero());

    processor.tick_times(3);
    assert_eq!(processor.accumulator(), 0x42);
    assert!(!processor.status_zero());
    assert!(!processor.status_neg());
}

#[test]
fn decrement_register_recomputes_flags() {
    let mut processor = Processor::new();
    processor.set_index_x(0x01);
    processor.write(0x0000, 0xCA);
    processor.write(0x0001, 0xCA);

    // DEX to zero sets the zero flag.
    processor.tick();
    assert_eq!(processor.index_x(), 0x00);
    assert!(processor.status_zero());

    // DEX wraps to 0xFF: the zero flag is cleared, negative is set.
    processor.tick_times(3);
    assert_eq!(processor.index_x(), 0xFF);
    assert!(!processor.status_zero());
    assert!(processor.status_neg());
}

#[test]
fn transfer_updates_flags_except_into_stack_pointer() {
    // TAX with a zero accumulator sets the zero flag.
    let mut processor = Processor::new();
    processor.write(0x0000, 0xAA);
    processor.tick();
    assert_eq!(processor.index_x(), 0x00);
    assert!(processor.status_zero());

    // TXS moves X into the stack pointer without touching flags.
    let mut processor = Processor::new();
    processor.set_index_x(0x00);
    processor.write(0x0000, 0x9A);
    processor.tick();
    assert_eq!(processor.stackpointer(), 0x0100);
    assert!(!processor.status_zero());
}

#[test]
fn increment_memory_wraps_to_zero() {
    let mut processor = Processor::new();
    processor.write(0x0000, 0xE6);
    processor.write(0x0001, 0x10);
    processor.write(0x0010, 0xFF);
    processor.tick();
    assert_eq!(processor.read(0x0010), 0x00);
    assert!(processor.status_zero());
}

#[test]
fn increment_register_sets_negative() {
    let mut processor = Processor::new();
    processor.set_index_y(0x7F);
    processor.write(0x0000, 0xC8);
    processor.tick();
    assert_eq!(processor.index_y(), 0x80);
    assert!(processor.status_neg());
}

#[test]
fn jump_absolute_sets_program_counter() {
    let mut processor = Processor::new();
    processor.write(0x0000, 0x4C);
    processor.write(0x0001, 0xAB);
    processor.write(0x0002, 0xCD);
    processor.tick();
    assert_eq!(processor.program_counter(), 0xABCD);
}

#[test]
fn jump_indirect_wraps_pointer_within_page() {
    let mut processor = Processor::new();
    processor.write(0x0000, 0x6C);
    processor.write(0x0001, 0x02);
    processor.write(0x0002, 0xFF);
    // The pointer 0x02FF sits at the end of its page: the second pointer
    // byte is fetched from 0x0200, not 0x0300.
    processor.write(0x02FF, 0xAB);
    processor.write(0x0200, 0xCD);
    processor.write(0x0300, 0x11);
    processor.tick();
    assert_eq!(processor.program_counter(), 0xABCD);
}

#[test]
fn store_indirect_y_writes_through_zero_page_pointer() {
    let mut processor = Processor::new();
    processor.set_accumulator(0x5A);
    processor.set_index_y(0x01);
    processor.write(0x0000, 0x91);
    processor.write(0x0001, 0x10);
    processor.write(0x0010, 0x20);
    processor.write(0x0011, 0x30);
    processor.tick();
    assert_eq!(processor.read(0x2031), 0x5A);
}

#[test]
fn load_indirect_x_reads_through_zero_page_pointer() {
    let mut processor = Processor::new();
    processor.set_index_x(0x04);
    processor.write(0x0000, 0xA1);
    processor.write(0x0001, 0x20);
    processor.write(0x0024, 0x30);
    processor.write(0x0025, 0x40);
    processor.write(0x3040, 0x77);
    processor.tick();
    assert_eq!(processor.accumulator(), 0x77);
}
