use chip8::VmError;
use chip8::CPU;

fn boot(rom: Vec<u8>) -> CPU {
    CPU::new(&rom).unwrap()
}

fn run(cpu: &mut CPU, steps: usize) {
    for _ in 0..steps {
        cpu.execute_tick().unwrap();
    }
}

#[test]
fn new_places_font_and_program() {
    let cpu = boot(vec![0x12, 0x34]);
    assert_eq!(cpu.program_counter(), 0x200);
    assert_eq!(cpu.index_register(), 0);
    assert_eq!(cpu.stack_depth(), 0);
    assert_eq!(cpu.memory(0x50), 0xF0);
    assert_eq!(cpu.memory(0x54), 0xF0);
    assert_eq!(cpu.memory(0x9F), 0x80);
    assert_eq!(cpu.memory(0x200), 0x12);
    assert_eq!(cpu.memory(0x201), 0x34);
    assert_eq!(cpu.memory(0x1FF), 0x00);
    for r in 0..16 {
        assert_eq!(cpu.register(r), 0);
    }
}

#[test]
fn new_rejects_an_oversized_program() {
    assert!(matches!(CPU::new(&vec![0u8; 3585]), Err(VmError::OutOfBoundsAddress)));
    assert!(CPU::new(&vec![0u8; 3584]).is_ok());
}

#[test]
fn jump_replaces_program_counter() {
    let mut cpu = boot(vec![0x13, 0x45]);
    run(&mut cpu, 1);
    assert_eq!(cpu.program_counter(), 0x345);
}

#[test]
fn jump_with_offset_adds_register_zero() {
    let mut cpu = boot(vec![0x60, 0x10, 0xB3, 0x00]);
    run(&mut cpu, 2);
    assert_eq!(cpu.program_counter(), 0x310);
}

#[test]
fn skip_when_register_equals_immediate() {
    let mut cpu = boot(vec![0x30, 0x00]);
    run(&mut cpu, 1);
    assert_eq!(cpu.program_counter(), 0x204);
    let mut cpu = boot(vec![0x30, 0x01]);
    run(&mut cpu, 1);
    assert_eq!(cpu.program_counter(), 0x202);
}

#[test]
fn skip_when_register_differs_from_immediate() {
    let mut cpu = boot(vec![0x40, 0x01]);
    run(&mut cpu, 1);
    assert_eq!(cpu.program_counter(), 0x204);
    let mut cpu = boot(vec![0x40, 0x00]);
    run(&mut cpu, 1);
    assert_eq!(cpu.program_counter(), 0x202);
}

#[test]
fn skip_when_registers_compare() {
    let mut cpu = boot(vec![0x50, 0x10]);
    run(&mut cpu, 1);
    assert_eq!(cpu.program_counter(), 0x204);
    let mut cpu = boot(vec![0x60, 0x01, 0x90, 0x10]);
    run(&mut cpu, 2);
    assert_eq!(cpu.program_counter(), 0x206);
}

#[test]
fn five_row_pattern_with_nonzero_low_nibble_is_a_no_op() {
    let mut cpu = boot(vec![0x50, 0x11]);
    run(&mut cpu, 1);
    assert_eq!(cpu.program_counter(), 0x202);
}

#[test]
fn unknown_opcode_is_consumed_as_a_no_op() {
    let mut cpu = boot(vec![0x00, 0x00, 0x8F, 0xF8]);
    run(&mut cpu, 2);
    assert_eq!(cpu.program_counter(), 0x204);
    for r in 0..16 {
        assert_eq!(cpu.register(r), 0);
    }
}

#[test]
fn call_then_return_resumes_after_the_call() {
    let mut cpu = boot(vec![0x22, 0x04, 0x00, 0x00, 0x00, 0xEE]);
    run(&mut cpu, 1);
    assert_eq!(cpu.program_counter(), 0x204);
    assert_eq!(cpu.stack_depth(), 1);
    run(&mut cpu, 1);
    assert_eq!(cpu.program_counter(), 0x202);
    assert_eq!(cpu.stack_depth(), 0);
}

#[test]
fn seventeenth_consecutive_call_overflows_the_stack() {
    let mut rom = Vec::new();
    for k in 0..17u16 {
        let target = 0x202 + 2 * k;
        rom.push(0x20 | (target >> 8) as u8);
        rom.push((target & 0xFF) as u8);
    }
    let mut cpu = boot(rom);
    for _ in 0..16 {
        cpu.execute_tick().unwrap();
    }
    assert_eq!(cpu.stack_depth(), 16);
    assert_eq!(cpu.execute_tick(), Err(VmError::StackOverflow));
    assert_eq!(cpu.stack_depth(), 16);
}

#[test]
fn return_on_empty_stack_underflows() {
    let mut cpu = boot(vec![0x00, 0xEE]);
    assert_eq!(cpu.execute_tick(), Err(VmError::StackUnderflow));
    assert_eq!(cpu.program_counter(), 0x202);
}

#[test]
fn fetch_outside_memory_is_fatal() {
    let mut cpu = boot(vec![0x1F, 0xFF]);
    run(&mut cpu, 1);
    assert_eq!(cpu.program_counter(), 0xFFF);
    assert_eq!(cpu.execute_tick(), Err(VmError::OutOfBoundsAddress));
    assert_eq!(cpu.program_counter(), 0xFFF);
}

#[test]
fn bcd_writes_decimal_digits() {
    let mut cpu = boot(vec![0x60, 0xFF, 0xA3, 0x00, 0xF0, 0x33]);
    run(&mut cpu, 3);
    assert_eq!(cpu.memory(0x300), 2);
    assert_eq!(cpu.memory(0x301), 5);
    assert_eq!(cpu.memory(0x302), 5);
}

#[test]
fn bcd_near_end_of_memory_is_fatal() {
    let mut cpu = boot(vec![0xAF, 0xFF, 0xF0, 0x33]);
    run(&mut cpu, 1);
    assert_eq!(cpu.execute_tick(), Err(VmError::OutOfBoundsAddress));
}

#[test]
fn register_block_outside_memory_is_fatal() {
    let mut cpu = boot(vec![0xAF, 0xFF, 0xFF, 0x55]);
    run(&mut cpu, 1);
    assert_eq!(cpu.execute_tick(), Err(VmError::OutOfBoundsAddress));
    let mut cpu = boot(vec![0xAF, 0xFF, 0xFF, 0x65]);
    run(&mut cpu, 1);
    assert_eq!(cpu.execute_tick(), Err(VmError::OutOfBoundsAddress));
}

#[test]
fn skip_if_key_follows_keypad_state() {
    let mut cpu = boot(vec![0xE0, 0x9E]);
    run(&mut cpu, 1);
    assert_eq!(cpu.program_counter(), 0x202);
    let mut cpu = boot(vec![0xE0, 0x9E]);
    cpu.key_down(0);
    run(&mut cpu, 1);
    assert_eq!(cpu.program_counter(), 0x204);
    let mut cpu = boot(vec![0xE0, 0xA1]);
    run(&mut cpu, 1);
    assert_eq!(cpu.program_counter(), 0x204);
    let mut cpu = boot(vec![0xE0, 0xA1]);
    cpu.key_down(0);
    run(&mut cpu, 1);
    assert_eq!(cpu.program_counter(), 0x202);
}

#[test]
fn draw_single_row_sets_eight_pixels_without_collision() {
    let mut cpu = boot(vec![0xA2, 0x06, 0xD0, 0x01, 0xD0, 0x01, 0xFF]);
    run(&mut cpu, 2);
    for x in 0..8 {
        assert!(cpu.pixel(x, 0));
    }
    for x in 8..64 {
        assert!(!cpu.pixel(x, 0));
    }
    assert_eq!(cpu.register(15), 0);
}

#[test]
fn drawing_the_same_sprite_again_clears_it_and_collides() {
    let mut cpu = boot(vec![0xA2, 0x06, 0xD0, 0x01, 0xD0, 0x01, 0xFF]);
    run(&mut cpu, 3);
    for x in 0..64 {
        assert!(!cpu.pixel(x, 0));
    }
    assert_eq!(cpu.register(15), 1);
}

#[test]
fn draw_clips_at_the_right_edge_without_wrapping() {
    let mut cpu = boot(vec![0x60, 0x3C, 0x61, 0x00, 0xA2, 0x08, 0xD0, 0x11, 0xFF]);
    run(&mut cpu, 4);
    for x in 60..64 {
        assert!(cpu.pixel(x, 0));
    }
    for x in 0..60 {
        assert!(!cpu.pixel(x, 0));
    }
    assert_eq!(cpu.register(15), 0);
}

#[test]
fn draw_clips_at_the_bottom_edge() {
    let mut cpu = boot(vec![0x60, 0x00, 0x61, 0x1E, 0xA2, 0x08, 0xD0, 0x14, 0xFF, 0xFF, 0xFF, 0xFF]);
    run(&mut cpu, 4);
    for x in 0..8 {
        assert!(cpu.pixel(x, 30));
        assert!(cpu.pixel(x, 31));
    }
    for x in 0..8 {
        assert!(!cpu.pixel(x, 0));
        assert!(!cpu.pixel(x, 1));
    }
    assert_eq!(cpu.register(15), 0);
}

#[test]
fn clear_screen_turns_every_pixel_off() {
    let mut cpu = boot(vec![0xA2, 0x06, 0xD0, 0x01, 0x00, 0xE0, 0xFF]);
    run(&mut cpu, 3);
    for x in 0..64 {
        for y in 0..32 {
            assert!(!cpu.pixel(x, y));
        }
    }
}

#[test]
fn font_program_draws_the_zero_glyph() {
    let mut rom = vec![0x00, 0xE0, 0x60, 0x05, 0xA2, 0x50, 0xD0, 0x05];
    while rom.len() < 0x50 {
        rom.push(0x00);
    }
    rom.extend_from_slice(&[0xF0, 0x90, 0x90, 0x90, 0xF0]);
    let mut cpu = boot(rom);
    run(&mut cpu, 4);
    let glyph = [0xF0u8, 0x90, 0x90, 0x90, 0xF0];
    for (r, row) in glyph.iter().enumerate() {
        for c in 0..8 {
            let expected = row & (0x80 >> c) != 0;
            assert_eq!(cpu.pixel(5 + c, 5 + r), expected);
        }
    }
    assert_eq!(cpu.register(15), 0);
}

#[test]
fn font_address_formula_follows_register_value() {
    let mut cpu = boot(vec![0x60, 0x0A, 0xF0, 0x29]);
    run(&mut cpu, 2);
    assert_eq!(cpu.index_register(), 0x82);
    assert_eq!(cpu.memory(cpu.index_register()), 0xF0);
    assert_eq!(cpu.memory(cpu.index_register() + 2), 0xF0);
}
