use chip8::Opcode;
use chip8::CPU;

fn boot(rom: Vec<u8>) -> CPU {
    CPU::new(&rom).unwrap()
}

#[test]
fn decode_splits_word_into_fields() {
    let op = Opcode::decode(0xD123);
    assert_eq!(op.nibbles, (0xD, 0x1, 0x2, 0x3));
    assert_eq!(op.x, 0x1);
    assert_eq!(op.y, 0x2);
    assert_eq!(op.n, 0x3);
    assert_eq!(op.nn, 0x23);
    assert_eq!(op.nnn, 0x123);
}

#[test]
fn set_register_then_read_returns_value() {
    let mut cpu = boot(vec![]);
    for r in 0..16u16 {
        for v in [0x00u16, 0x01, 0x7F, 0xAB, 0xFF] {
            cpu.set_register(Opcode::decode(0x6000 | (r << 8) | v));
            assert_eq!(cpu.register(r as usize), v as u8);
        }
    }
}

#[test]
fn add_to_register_wraps_and_leaves_flag() {
    let mut cpu = boot(vec![]);
    cpu.set_register(Opcode::decode(0x60FF));
    cpu.add_to_register(Opcode::decode(0x7001));
    assert_eq!(cpu.register(0), 0x00);
    assert_eq!(cpu.register(15), 0x00);
    cpu.add_to_register(Opcode::decode(0x7007));
    assert_eq!(cpu.register(0), 0x07);
    assert_eq!(cpu.register(15), 0x00);
}

#[test]
fn add_register_sets_carry_flag_on_overflow() {
    let mut cpu = boot(vec![]);
    cpu.set_register(Opcode::decode(0x60FF));
    cpu.set_register(Opcode::decode(0x6101));
    cpu.add_register(Opcode::decode(0x8014));
    assert_eq!(cpu.register(0), 0x00);
    assert_eq!(cpu.register(15), 1);
}

#[test]
fn add_register_clears_carry_flag_without_overflow() {
    let mut cpu = boot(vec![]);
    cpu.set_register(Opcode::decode(0x600A));
    cpu.set_register(Opcode::decode(0x6114));
    cpu.add_register(Opcode::decode(0x8014));
    assert_eq!(cpu.register(0), 0x1E);
    assert_eq!(cpu.register(15), 0);
}

#[test]
fn subtract_register_wraps_on_borrow() {
    let mut cpu = boot(vec![]);
    cpu.set_register(Opcode::decode(0x6005));
    cpu.set_register(Opcode::decode(0x610A));
    cpu.subtract_register(Opcode::decode(0x8015), false);
    assert_eq!(cpu.register(0), 0xFB);
    assert_eq!(cpu.register(15), 0);
}

#[test]
fn subtract_register_sets_flag_without_borrow() {
    let mut cpu = boot(vec![]);
    cpu.set_register(Opcode::decode(0x600A));
    cpu.set_register(Opcode::decode(0x6105));
    cpu.subtract_register(Opcode::decode(0x8015), false);
    assert_eq!(cpu.register(0), 0x05);
    assert_eq!(cpu.register(15), 1);
}

#[test]
fn subtract_register_opposite_reverses_operands() {
    let mut cpu = boot(vec![]);
    cpu.set_register(Opcode::decode(0x6005));
    cpu.set_register(Opcode::decode(0x610A));
    cpu.subtract_register(Opcode::decode(0x8017), true);
    assert_eq!(cpu.register(0), 0x05);
    assert_eq!(cpu.register(15), 1);
    cpu.set_register(Opcode::decode(0x600A));
    cpu.set_register(Opcode::decode(0x6105));
    cpu.subtract_register(Opcode::decode(0x8017), true);
    assert_eq!(cpu.register(0), 0xFB);
    assert_eq!(cpu.register(15), 0);
}

#[test]
fn bitwise_operations_combine_registers() {
    let mut cpu = boot(vec![]);
    cpu.set_register(Opcode::decode(0x60F0));
    cpu.set_register(Opcode::decode(0x613C));
    cpu.binary_or(Opcode::decode(0x8011));
    assert_eq!(cpu.register(0), 0xFC);
    cpu.set_register(Opcode::decode(0x60F0));
    cpu.binary_and(Opcode::decode(0x8012));
    assert_eq!(cpu.register(0), 0x30);
    cpu.set_register(Opcode::decode(0x60F0));
    cpu.binary_xor(Opcode::decode(0x8013));
    assert_eq!(cpu.register(0), 0xCC);
}

#[test]
fn copy_register_moves_value() {
    let mut cpu = boot(vec![]);
    cpu.set_register(Opcode::decode(0x617B));
    cpu.copy_register(Opcode::decode(0x8010));
    assert_eq!(cpu.register(0), 0x7B);
}

#[test]
fn shift_right_records_low_bit() {
    let mut cpu = boot(vec![]);
    cpu.set_register(Opcode::decode(0x6005));
    cpu.shift_right(Opcode::decode(0x8016));
    assert_eq!(cpu.register(0), 0x02);
    assert_eq!(cpu.register(15), 1);
    cpu.set_register(Opcode::decode(0x6004));
    cpu.shift_right(Opcode::decode(0x8016));
    assert_eq!(cpu.register(0), 0x02);
    assert_eq!(cpu.register(15), 0);
}

#[test]
fn shift_left_records_high_bit() {
    let mut cpu = boot(vec![]);
    cpu.set_register(Opcode::decode(0x6081));
    cpu.shift_left(Opcode::decode(0x801E));
    assert_eq!(cpu.register(0), 0x02);
    assert_eq!(cpu.register(15), 1);
    cpu.set_register(Opcode::decode(0x6041));
    cpu.shift_left(Opcode::decode(0x801E));
    assert_eq!(cpu.register(0), 0x82);
    assert_eq!(cpu.register(15), 0);
}

#[test]
fn font_character_points_at_glyph() {
    let mut cpu = boot(vec![]);
    cpu.set_register(Opcode::decode(0x600A));
    cpu.font_character(Opcode::decode(0xF029));
    assert_eq!(cpu.index_register(), 0x82);
}

#[test]
fn add_to_index_masks_and_flags_overflow() {
    let mut cpu = boot(vec![]);
    cpu.set_index_register(Opcode::decode(0xAFFF));
    cpu.set_register(Opcode::decode(0x6010));
    cpu.add_to_index(Opcode::decode(0xF01E));
    assert_eq!(cpu.index_register(), 0x00F);
    assert_eq!(cpu.register(15), 1);
    cpu.add_to_index(Opcode::decode(0xF01E));
    assert_eq!(cpu.index_register(), 0x01F);
    assert_eq!(cpu.register(15), 0);
}

#[test]
fn store_and_load_registers_round_trip() {
    let mut cpu = boot(vec![]);
    cpu.set_register(Opcode::decode(0x6001));
    cpu.set_register(Opcode::decode(0x6102));
    cpu.set_register(Opcode::decode(0x6203));
    cpu.set_index_register(Opcode::decode(0xA300));
    cpu.store_registers_to_memory(Opcode::decode(0xF255)).unwrap();
    assert_eq!(cpu.memory(0x300), 1);
    assert_eq!(cpu.memory(0x301), 2);
    assert_eq!(cpu.memory(0x302), 3);
    assert_eq!(cpu.memory(0x303), 0);
    cpu.set_register(Opcode::decode(0x6000));
    cpu.set_register(Opcode::decode(0x6100));
    cpu.set_register(Opcode::decode(0x6200));
    cpu.load_registers_from_memory(Opcode::decode(0xF265)).unwrap();
    assert_eq!(cpu.register(0), 1);
    assert_eq!(cpu.register(1), 2);
    assert_eq!(cpu.register(2), 3);
}

#[test]
fn timer_copies_move_values() {
    let mut cpu = boot(vec![]);
    cpu.set_register(Opcode::decode(0x6009));
    cpu.copy_register_to_delay_timer(Opcode::decode(0xF015));
    assert_eq!(cpu.delay(), 9);
    cpu.copy_register_to_sound_timer(Opcode::decode(0xF018));
    assert_eq!(cpu.sound(), 9);
    cpu.set_register(Opcode::decode(0x6100));
    cpu.copy_delay_timer_to_register(Opcode::decode(0xF107));
    assert_eq!(cpu.register(1), 9);
}

#[test]
fn update_timers_decrements_to_floor_of_zero() {
    let mut cpu = boot(vec![]);
    assert_eq!(cpu.delay(), 0);
    cpu.update_timers();
    assert_eq!(cpu.delay(), 0);
    assert_eq!(cpu.sound(), 0);
    cpu.set_register(Opcode::decode(0x6002));
    cpu.copy_register_to_delay_timer(Opcode::decode(0xF015));
    cpu.update_timers();
    assert_eq!(cpu.delay(), 1);
    cpu.update_timers();
    assert_eq!(cpu.delay(), 0);
    cpu.update_timers();
    assert_eq!(cpu.delay(), 0);
}

#[test]
fn random_masks_with_immediate() {
    let mut cpu = boot(vec![]);
    cpu.set_register(Opcode::decode(0x60AA));
    cpu.random(Opcode::decode(0xC000));
    assert_eq!(cpu.register(0), 0);
    for _ in 0..32 {
        cpu.random(Opcode::decode(0xC10F));
        assert!(cpu.register(1) <= 0x0F);
    }
}

#[test]
fn wait_for_key_rewinds_until_a_key_is_down() {
    let mut cpu = boot(vec![0xF5, 0x0A]);
    cpu.execute_tick().unwrap();
    assert_eq!(cpu.program_counter(), 0x200);
    cpu.key_down(9);
    cpu.key_down(3);
    cpu.execute_tick().unwrap();
    assert_eq!(cpu.program_counter(), 0x202);
    assert_eq!(cpu.register(5), 3);
}

#[test]
fn key_events_ignore_indices_outside_keypad() {
    let mut cpu = boot(vec![0xF0, 0x0A]);
    cpu.key_down(16);
    cpu.key_down(1000);
    cpu.execute_tick().unwrap();
    assert_eq!(cpu.program_counter(), 0x200);
    cpu.key_down(15);
    cpu.key_up(16);
    cpu.execute_tick().unwrap();
    assert_eq!(cpu.register(0), 15);
}
