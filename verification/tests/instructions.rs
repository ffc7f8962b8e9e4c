use chip8::state::RunState;
use chip8::{Chip8Error, Keypad, Machine};

fn loaded(program: &[u8]) -> Machine {
    let mut machine = Machine::new();
    assert_eq!(machine.init(program), Ok(()));
    machine
}

fn run(program: &[u8], steps: usize) -> Machine {
    let mut machine = loaded(program);
    let keypad = Keypad::new();
    for _ in 0..steps {
        assert!(machine.cycle_with(&keypad, 0).is_ok());
    }
    machine
}

#[test]
fn new_machine_starts_at_entry_point() {
    let machine = Machine::new();
    assert_eq!(machine.pc(), 0x200);
    assert_eq!(machine.index(), 0);
    assert_eq!(machine.opcode(), 0);
    assert_eq!(machine.stack_depth(), 0);
    assert_eq!(machine.delay_timer(), 0);
    assert_eq!(machine.sound_timer(), 0);
    assert_eq!(machine.run_state(), RunState::Running);
    for i in 0..16u8 {
        assert_eq!(machine.register(i), Some(0));
    }
    assert_eq!(machine.register(16), None);
    assert_eq!(machine.memory_byte(0), Ok(0));
    assert!(machine.snapshot().iter().all(|lit| !lit));
}

#[test]
fn fetch_joins_bytes_high_first_and_advances() {
    let mut machine = loaded(&[0x12, 0x34]);
    assert_eq!(machine.fetch(), Ok(0x1234));
    assert_eq!(machine.opcode(), 0x1234);
    assert_eq!(machine.pc(), 0x202);
}

#[test]
fn load_immediate_sets_register() {
    let machine = run(&[0x6A, 0x42], 1);
    assert_eq!(machine.register(0xA), Some(0x42));
    assert_eq!(machine.pc(), 0x202);
}

#[test]
fn add_immediate_wraps_and_leaves_flag_alone() {
    let machine = run(&[0x60, 0xFF, 0x6F, 0x07, 0x70, 0x02], 3);
    assert_eq!(machine.register(0), Some(0x01));
    assert_eq!(machine.register(0xF), Some(0x07));
}

#[test]
fn add_immediate_to_flag_register_is_a_plain_sum() {
    let machine = run(&[0x6F, 0xFF, 0x7F, 0x02], 2);
    assert_eq!(machine.register(0xF), Some(0x01));
}

#[test]
fn copy_or_and_xor() {
    let setup = [0x60, 0b1100, 0x61, 0b1010];
    let mut program = setup.to_vec();
    program.extend_from_slice(&[0x82, 0x10, 0x83, 0x00, 0x83, 0x11, 0x84, 0x00, 0x84, 0x12]);
    program.extend_from_slice(&[0x85, 0x00, 0x85, 0x13]);
    let machine = run(&program, 9);
    assert_eq!(machine.register(2), Some(0b1010));
    assert_eq!(machine.register(3), Some(0b1110));
    assert_eq!(machine.register(4), Some(0b1000));
    assert_eq!(machine.register(5), Some(0b0110));
}

#[test]
fn add_register_sets_carry() {
    let machine = run(&[0x60, 0xFF, 0x61, 0x02, 0x80, 0x14], 3);
    assert_eq!(machine.register(0), Some(0x01));
    assert_eq!(machine.register(1), Some(0x02));
    assert_eq!(machine.register(0xF), Some(1));
}

#[test]
fn add_register_clears_carry() {
    let machine = run(&[0x6F, 0x01, 0x60, 0x10, 0x61, 0x20, 0x80, 0x14], 4);
    assert_eq!(machine.register(0), Some(0x30));
    assert_eq!(machine.register(0xF), Some(0));
}

#[test]
fn add_register_at_255_has_no_carry() {
    let machine = run(&[0x60, 0xFE, 0x61, 0x01, 0x80, 0x14], 3);
    assert_eq!(machine.register(0), Some(0xFF));
    assert_eq!(machine.register(0xF), Some(0));
}

#[test]
fn add_register_into_flag_register_keeps_the_sum() {
    let machine = run(&[0x6F, 0xFF, 0x61, 0x02, 0x8F, 0x14], 3);
    assert_eq!(machine.register(0xF), Some(0x01));
}

#[test]
fn subtract_with_borrow() {
    let machine = run(&[0x60, 0x05, 0x61, 0x09, 0x80, 0x15], 3);
    assert_eq!(machine.register(0), Some(0xFC));
    assert_eq!(machine.register(0xF), Some(0));
}

#[test]
fn subtract_without_borrow() {
    let machine = run(&[0x60, 0x09, 0x61, 0x05, 0x80, 0x15], 3);
    assert_eq!(machine.register(0), Some(0x04));
    assert_eq!(machine.register(0xF), Some(1));
}

#[test]
fn subtract_equal_values_sets_flag() {
    let machine = run(&[0x60, 0x09, 0x61, 0x09, 0x80, 0x15], 3);
    assert_eq!(machine.register(0), Some(0));
    assert_eq!(machine.register(0xF), Some(1));
}

#[test]
fn subtract_reversed_with_borrow() {
    let machine = run(&[0x60, 0x09, 0x61, 0x05, 0x80, 0x17], 3);
    assert_eq!(machine.register(0), Some(0xFC));
    assert_eq!(machine.register(0xF), Some(0));
}

#[test]
fn subtract_reversed_without_borrow() {
    let machine = run(&[0x60, 0x05, 0x61, 0x09, 0x80, 0x17], 3);
    assert_eq!(machine.register(0), Some(0x04));
    assert_eq!(machine.register(0xF), Some(1));
}

#[test]
fn shift_right_captures_the_bit_shifted_out() {
    let machine = run(&[0x60, 0x01, 0x80, 0x06], 2);
    assert_eq!(machine.register(0), Some(0x00));
    assert_eq!(machine.register(0xF), Some(1));
    let machine = run(&[0x6F, 0x01, 0x60, 0xFE, 0x80, 0x06], 3);
    assert_eq!(machine.register(0), Some(0x7F));
    assert_eq!(machine.register(0xF), Some(0));
}

#[test]
fn shift_left_captures_the_bit_shifted_out() {
    let machine = run(&[0x60, 0x81, 0x80, 0x0E], 2);
    assert_eq!(machine.register(0), Some(0x02));
    assert_eq!(machine.register(0xF), Some(1));
    let machine = run(&[0x6F, 0x01, 0x60, 0x40, 0x80, 0x0E], 3);
    assert_eq!(machine.register(0), Some(0x80));
    assert_eq!(machine.register(0xF), Some(0));
}

#[test]
fn skip_if_equal_and_not_equal() {
    assert_eq!(run(&[0x60, 0x11, 0x30, 0x11], 2).pc(), 0x206);
    assert_eq!(run(&[0x60, 0x11, 0x30, 0x12], 2).pc(), 0x204);
    assert_eq!(run(&[0x60, 0x11, 0x40, 0x11], 2).pc(), 0x204);
    assert_eq!(run(&[0x60, 0x11, 0x40, 0x12], 2).pc(), 0x206);
}

#[test]
fn skip_on_register_comparison() {
    assert_eq!(run(&[0x60, 0x11, 0x61, 0x11, 0x50, 0x10], 3).pc(), 0x208);
    assert_eq!(run(&[0x60, 0x11, 0x61, 0x12, 0x50, 0x10], 3).pc(), 0x206);
    assert_eq!(run(&[0x60, 0x11, 0x61, 0x11, 0x90, 0x10], 3).pc(), 0x206);
    assert_eq!(run(&[0x60, 0x11, 0x61, 0x12, 0x90, 0x10], 3).pc(), 0x208);
}

#[test]
fn jump_sets_program_counter() {
    let machine = run(&[0x1A, 0xBC], 1);
    assert_eq!(machine.pc(), 0xABC);
    assert_eq!(machine.stack_depth(), 0);
}

#[test]
fn jump_with_offset_adds_v0() {
    let machine = run(&[0x60, 0x10, 0xB3, 0x00], 2);
    assert_eq!(machine.pc(), 0x310);
}

#[test]
fn return_goes_behind_the_call() {
    // 0x200: call 0x206; 0x202: V1 := 1; 0x206: return
    let program = [0x22, 0x06, 0x61, 0x01, 0x00, 0x00, 0x00, 0xEE];
    let mut machine = loaded(&program);
    let keypad = Keypad::new();
    assert_eq!(machine.cycle_with(&keypad, 0), Ok(105));
    assert_eq!(machine.pc(), 0x206);
    assert_eq!(machine.stack_depth(), 1);
    assert_eq!(machine.cycle_with(&keypad, 0), Ok(105));
    assert_eq!(machine.pc(), 0x202);
    assert_eq!(machine.stack_depth(), 0);
    assert_eq!(machine.cycle_with(&keypad, 0), Ok(27));
    assert_eq!(machine.register(1), Some(1));
}

#[test]
fn return_on_empty_stack_underflows() {
    let mut machine = loaded(&[0x00, 0xEE]);
    let keypad = Keypad::new();
    assert_eq!(machine.cycle_with(&keypad, 0), Err(Chip8Error::StackUnderflow));
    assert_eq!(machine.opcode(), 0x00EE);
    assert_eq!(machine.pc(), 0x202);
    assert_eq!(machine.stack_depth(), 0);
}

#[test]
fn seventeenth_call_overflows() {
    // A subroutine that calls itself.
    let mut machine = loaded(&[0x22, 0x00]);
    let keypad = Keypad::new();
    for depth in 1..=16usize {
        assert_eq!(machine.cycle_with(&keypad, 0), Ok(105));
        assert_eq!(machine.stack_depth(), depth);
    }
    assert_eq!(machine.cycle_with(&keypad, 0), Err(Chip8Error::StackOverflow));
    assert_eq!(machine.stack_depth(), 16);
    assert_eq!(machine.pc(), 0x202);
}

#[test]
fn load_index_sets_index() {
    assert_eq!(run(&[0xAF, 0xFF], 1).index(), 0xFFF);
}

#[test]
fn add_to_index_adds_register() {
    let machine = run(&[0xA1, 0x00, 0x60, 0x23, 0xF0, 0x1E], 3);
    assert_eq!(machine.index(), 0x123);
}

#[test]
fn add_to_index_stays_in_twelve_bits_and_leaves_flag() {
    let machine = run(&[0xAF, 0xFF, 0x6F, 0x07, 0x60, 0x02, 0xF0, 0x1E], 4);
    assert_eq!(machine.index(), 0x001);
    assert_eq!(machine.register(0xF), Some(0x07));
}

#[test]
fn add_to_index_can_flag_overflow() {
    let mut machine = loaded(&[0xAF, 0xFF, 0x60, 0x02, 0xF0, 0x1E, 0xA1, 0x00, 0xF0, 0x1E]);
    machine.set_flag_index_overflow(true);
    let keypad = Keypad::new();
    for _ in 0..3 {
        assert!(machine.cycle_with(&keypad, 0).is_ok());
    }
    assert_eq!(machine.index(), 0x001);
    assert_eq!(machine.register(0xF), Some(1));
    for _ in 0..2 {
        assert!(machine.cycle_with(&keypad, 0).is_ok());
    }
    assert_eq!(machine.index(), 0x102);
    assert_eq!(machine.register(0xF), Some(0));
}

#[test]
fn font_address_is_five_times_the_digit() {
    assert_eq!(run(&[0x60, 0x0A, 0xF0, 0x29], 2).index(), 50);
    assert_eq!(run(&[0x60, 0xFF, 0xF0, 0x29], 2).index(), 1275);
}

#[test]
fn store_decimal_writes_three_digits() {
    let machine = run(&[0x60, 254, 0xA3, 0x00, 0xF0, 0x33], 3);
    assert_eq!(machine.memory_byte(0x300), Ok(2));
    assert_eq!(machine.memory_byte(0x301), Ok(5));
    assert_eq!(machine.memory_byte(0x302), Ok(4));
    let machine = run(&[0x60, 7, 0xA3, 0x00, 0xF0, 0x33], 3);
    assert_eq!(machine.memory_byte(0x300), Ok(0));
    assert_eq!(machine.memory_byte(0x301), Ok(0));
    assert_eq!(machine.memory_byte(0x302), Ok(7));
}

#[test]
fn store_decimal_past_memory_fails() {
    let mut machine = loaded(&[0x60, 254, 0xAF, 0xFE, 0xF0, 0x33]);
    let keypad = Keypad::new();
    assert!(machine.cycle_with(&keypad, 0).is_ok());
    assert!(machine.cycle_with(&keypad, 0).is_ok());
    assert_eq!(machine.cycle_with(&keypad, 0), Err(Chip8Error::AddressOutOfRange));
    assert_eq!(machine.memory_byte(0xFFE), Ok(0));
    assert_eq!(machine.memory_byte(0xFFF), Ok(0));
}

#[test]
fn store_then_load_restores_registers() {
    let program = [
        0x60, 0x11, 0x61, 0x22, 0x62, 0x33, 0x63, 0x44, // V0..V3
        0xA4, 0x00, 0xF2, 0x55, // store V0..V2 at 0x400
        0x60, 0x00, 0x61, 0x00, 0x62, 0x00, 0x63, 0x99, // clobber
        0xF2, 0x65, // load V0..V2
    ];
    let machine = run(&program, 11);
    assert_eq!(machine.memory_byte(0x400), Ok(0x11));
    assert_eq!(machine.memory_byte(0x401), Ok(0x22));
    assert_eq!(machine.memory_byte(0x402), Ok(0x33));
    assert_eq!(machine.memory_byte(0x403), Ok(0x00));
    assert_eq!(machine.register(0), Some(0x11));
    assert_eq!(machine.register(1), Some(0x22));
    assert_eq!(machine.register(2), Some(0x33));
    assert_eq!(machine.register(3), Some(0x99));
    assert_eq!(machine.index(), 0x400);
}

#[test]
fn store_registers_past_memory_fails() {
    let mut machine = loaded(&[0xAF, 0xFE, 0xF2, 0x55]);
    let keypad = Keypad::new();
    assert!(machine.cycle_with(&keypad, 0).is_ok());
    assert_eq!(machine.cycle_with(&keypad, 0), Err(Chip8Error::AddressOutOfRange));
}

#[test]
fn load_registers_past_memory_fails() {
    let mut machine = loaded(&[0xAF, 0xFF, 0xF1, 0x65]);
    let keypad = Keypad::new();
    assert!(machine.cycle_with(&keypad, 0).is_ok());
    assert_eq!(machine.cycle_with(&keypad, 0), Err(Chip8Error::AddressOutOfRange));
    assert_eq!(machine.register(0), Some(0));
}

#[test]
fn load_registers_up_to_the_last_byte() {
    let machine = run(&[0xAF, 0xFF, 0xF0, 0x65], 2);
    assert_eq!(machine.register(0), Some(0));
}

#[test]
fn random_masks_the_given_byte() {
    let mut machine = loaded(&[0xC0, 0x0F, 0xC1, 0xF0]);
    let keypad = Keypad::new();
    assert_eq!(machine.cycle_with(&keypad, 0xAB), Ok(164));
    assert_eq!(machine.register(0), Some(0x0B));
    assert_eq!(machine.cycle_with(&keypad, 0xAB), Ok(164));
    assert_eq!(machine.register(1), Some(0xA0));
}

#[test]
fn random_draws_stay_under_the_mask_and_vary() {
    // 0x200: V0 := random & 0x3F; 0x202: jump 0x200
    let mut machine = loaded(&[0xC0, 0x3F, 0x12, 0x00]);
    let keypad = Keypad::new();
    let mut seen = [false; 64];
    for _ in 0..400 {
        assert_eq!(machine.cycle(&keypad), Ok(164));
        let value = machine.register(0).unwrap();
        assert!(value <= 0x3F);
        seen[value as usize] = true;
        assert_eq!(machine.cycle(&keypad), Ok(105));
    }
    assert!(seen.iter().filter(|hit| **hit).count() > 8);
}

#[test]
fn random_byte_is_never_the_upper_bound() {
    let mut machine = loaded(&[0xC0, 0xFF, 0x12, 0x00]);
    let keypad = Keypad::new();
    for _ in 0..2000 {
        assert!(machine.cycle(&keypad).is_ok());
        assert_ne!(machine.register(0), Some(0xFF));
        assert!(machine.cycle(&keypad).is_ok());
    }
}

#[test]
fn cycle_without_random_instruction_matches_cycle_with() {
    let program = [0x60, 0xFF, 0x61, 0x02, 0x80, 0x14];
    let mut one = loaded(&program);
    let mut other = loaded(&program);
    let keypad = Keypad::new();
    for _ in 0..3 {
        assert_eq!(one.cycle(&keypad), other.cycle_with(&keypad, 0x5A));
    }
    for i in 0..16u8 {
        assert_eq!(one.register(i), other.register(i));
    }
    assert_eq!(one.pc(), other.pc());
}

#[test]
fn skip_if_key_down() {
    let program = [0x60, 0x07, 0xE0, 0x9E];
    let mut keypad = Keypad::new();
    let mut machine = loaded(&program);
    assert!(machine.cycle_with(&keypad, 0).is_ok());
    assert_eq!(machine.cycle_with(&keypad, 0), Ok(73));
    assert_eq!(machine.pc(), 0x204);
    assert_eq!(keypad.set_key(7, true), Ok(()));
    let mut machine = loaded(&program);
    assert!(machine.cycle_with(&keypad, 0).is_ok());
    assert_eq!(machine.cycle_with(&keypad, 0), Ok(73));
    assert_eq!(machine.pc(), 0x206);
}

#[test]
fn skip_if_key_up() {
    let program = [0x60, 0x07, 0xE0, 0xA1];
    let mut keypad = Keypad::new();
    let mut machine = loaded(&program);
    assert!(machine.cycle_with(&keypad, 0).is_ok());
    assert_eq!(machine.cycle_with(&keypad, 0), Ok(73));
    assert_eq!(machine.pc(), 0x206);
    assert_eq!(keypad.set_key(7, true), Ok(()));
    let mut machine = loaded(&program);
    assert!(machine.cycle_with(&keypad, 0).is_ok());
    assert_eq!(machine.cycle_with(&keypad, 0), Ok(73));
    assert_eq!(machine.pc(), 0x204);
}

#[test]
fn key_instructions_reject_codes_above_f() {
    let keypad = Keypad::new();
    let mut machine = loaded(&[0x60, 0x10, 0xE0, 0x9E]);
    assert!(machine.cycle_with(&keypad, 0).is_ok());
    assert_eq!(machine.cycle_with(&keypad, 0), Err(Chip8Error::UnmappedInputKey));
    assert_eq!(machine.pc(), 0x204);
    let mut machine = loaded(&[0x60, 0x10, 0xE0, 0xA1]);
    assert!(machine.cycle_with(&keypad, 0).is_ok());
    assert_eq!(machine.cycle_with(&keypad, 0), Err(Chip8Error::UnmappedInputKey));
    assert_eq!(machine.pc(), 0x204);
}

#[test]
fn wait_for_key_holds_until_a_key_is_down() {
    let mut machine = loaded(&[0xF3, 0x0A, 0x64, 0x01]);
    let mut keypad = Keypad::new();
    assert_eq!(machine.cycle_with(&keypad, 0), Ok(0));
    assert_eq!(machine.run_state(), RunState::AwaitingKey(3));
    for _ in 0..5 {
        assert_eq!(machine.cycle_with(&keypad, 0), Ok(2000));
        assert_eq!(machine.run_state(), RunState::AwaitingKey(3));
        assert_eq!(machine.pc(), 0x202);
    }
    assert_eq!(keypad.set_key(0xB, true), Ok(()));
    assert_eq!(keypad.set_key(0x9, true), Ok(()));
    assert_eq!(machine.cycle_with(&keypad, 0), Ok(0));
    assert_eq!(machine.run_state(), RunState::Running);
    assert_eq!(machine.register(3), Some(0x9));
    assert_eq!(machine.pc(), 0x202);
    assert_eq!(machine.cycle_with(&keypad, 0), Ok(27));
    assert_eq!(machine.register(4), Some(1));
}

#[test]
fn delay_timer_is_set_read_and_ticked() {
    let mut machine = loaded(&[0x60, 0x05, 0xF0, 0x15, 0xF1, 0x07, 0xF2, 0x07]);
    let keypad = Keypad::new();
    for _ in 0..3 {
        assert!(machine.cycle_with(&keypad, 0).is_ok());
    }
    assert_eq!(machine.delay_timer(), 5);
    assert_eq!(machine.register(1), Some(5));
    machine.tick();
    machine.tick();
    assert!(machine.cycle_with(&keypad, 0).is_ok());
    assert_eq!(machine.register(2), Some(3));
    for _ in 0..10 {
        machine.tick();
    }
    assert_eq!(machine.delay_timer(), 0);
}

#[test]
fn sound_timer_is_set_and_ticked() {
    let mut machine = loaded(&[0x60, 0x02, 0xF0, 0x18]);
    let keypad = Keypad::new();
    for _ in 0..2 {
        assert!(machine.cycle_with(&keypad, 0).is_ok());
    }
    assert_eq!(machine.sound_timer(), 2);
    assert_eq!(machine.delay_timer(), 0);
    machine.tick();
    assert_eq!(machine.sound_timer(), 1);
    machine.tick();
    machine.tick();
    assert_eq!(machine.sound_timer(), 0);
}

#[test]
fn timers_follow_wall_time_not_instruction_count() {
    // 0x200: V0 := 5; delay := V0; then a tight loop.
    let mut machine = loaded(&[0x60, 0x05, 0xF0, 0x15, 0x12, 0x04]);
    let keypad = Keypad::new();
    for _ in 0..1000 {
        assert!(machine.cycle_with(&keypad, 0).is_ok());
    }
    assert_eq!(machine.delay_timer(), 5);
    machine.advance_timers(83_333);
    assert_eq!(machine.delay_timer(), 1);
    machine.advance_timers(1);
    assert_eq!(machine.delay_timer(), 0);
    machine.advance_timers(1_000_000);
    assert_eq!(machine.delay_timer(), 0);
}

#[test]
fn unknown_words_do_nothing_at_default_latency() {
    for word in [[0x01u8, 0x23], [0x80, 0x08], [0x80, 0x0F], [0xE0, 0x00], [0xF0, 0xFF]] {
        let mut machine = loaded(&[0x6F, 0x07, word[0], word[1]]);
        let keypad = Keypad::new();
        assert!(machine.cycle_with(&keypad, 0).is_ok());
        assert_eq!(machine.cycle_with(&keypad, 0), Ok(2000));
        assert_eq!(machine.pc(), 0x204);
        assert_eq!(machine.register(0), Some(0));
        assert_eq!(machine.register(0xF), Some(0x07));
        assert_eq!(machine.index(), 0);
        assert_eq!(machine.stack_depth(), 0);
    }
}

#[test]
fn families_five_and_nine_go_by_their_leading_nibble() {
    assert_eq!(run(&[0x50, 0x17], 1).pc(), 0x204);
    assert_eq!(Machine::map_opcode_delay(0x5017), 73);
    assert_eq!(run(&[0x60, 0x01, 0x90, 0x1F], 2).pc(), 0x206);
    assert_eq!(Machine::map_opcode_delay(0x901F), 73);
}

#[test]
fn latency_table() {
    let table: [(u16, u64); 36] = [
        (0x00E0, 109),
        (0x00EE, 105),
        (0x1234, 105),
        (0x2234, 105),
        (0x3012, 55),
        (0x4012, 55),
        (0x5010, 73),
        (0x6012, 27),
        (0x7012, 45),
        (0x8010, 200),
        (0x8011, 200),
        (0x8012, 200),
        (0x8013, 200),
        (0x8014, 200),
        (0x8015, 200),
        (0x8016, 200),
        (0x8017, 200),
        (0x801E, 200),
        (0x9010, 73),
        (0xA123, 55),
        (0xB123, 105),
        (0xC012, 164),
        (0xD015, 22734),
        (0xE09E, 73),
        (0xE0A1, 73),
        (0xF007, 45),
        (0xF00A, 0),
        (0xF015, 45),
        (0xF018, 45),
        (0xF01E, 86),
        (0xF029, 91),
        (0xF033, 927),
        (0xF055, 605),
        (0xF065, 605),
        (0x0000, 2000),
        (0xF0FF, 2000),
    ];
    for (word, micros) in table {
        assert_eq!(Machine::map_opcode_delay(word), micros);
    }
}

#[test]
fn fetch_past_memory_fails() {
    let mut machine = loaded(&[0x1F, 0xFF]);
    let keypad = Keypad::new();
    assert_eq!(machine.cycle_with(&keypad, 0), Ok(105));
    assert_eq!(machine.pc(), 0xFFF);
    assert_eq!(machine.cycle_with(&keypad, 0), Err(Chip8Error::AddressOutOfRange));
    assert_eq!(machine.pc(), 0xFFF);
    assert_eq!(machine.opcode(), 0x1FFF);
}

#[test]
fn last_instruction_of_memory_runs() {
    let mut image = vec![0u8; 0xE00];
    image[0] = 0x1F;
    image[1] = 0xFE;
    image[0xDFE] = 0x6A;
    image[0xDFF] = 0x55;
    let mut machine = loaded(&image);
    let keypad = Keypad::new();
    assert_eq!(machine.cycle_with(&keypad, 0), Ok(105));
    assert_eq!(machine.cycle_with(&keypad, 0), Ok(27));
    assert_eq!(machine.register(0xA), Some(0x55));
    assert_eq!(machine.pc(), 0x1000);
    assert_eq!(machine.cycle_with(&keypad, 0), Err(Chip8Error::AddressOutOfRange));
}

#[test]
fn instruction_methods_act_on_the_fetched_word() {
    let mut machine = loaded(&[0x6A, 0x42, 0x7A, 0x01]);
    assert_eq!(machine.fetch(), Ok(0x6A42));
    machine.op_6xnn();
    assert_eq!(machine.register(0xA), Some(0x42));
    assert_eq!(machine.fetch(), Ok(0x7A01));
    machine.op_7xnn();
    assert_eq!(machine.register(0xA), Some(0x43));
    let keypad = Keypad::new();
    assert_eq!(machine.execute_with(&keypad, 0), Ok(()));
    assert_eq!(machine.register(0xA), Some(0x44));
}
