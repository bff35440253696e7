use chip8::cpu::Chip8;
use chip8::model::PIXEL_ON;

fn loaded(program: &[u8]) -> Chip8 {
    let mut cpu = Chip8::new();
    assert_eq!(cpu.load_rom(program), Ok(()));
    cpu
}

#[test]
fn cycle_fetches_big_endian_and_advances() {
    let mut cpu = loaded(&[0x61, 0x2A, 0x71, 0x01]);
    cpu.cycle();
    assert_eq!(cpu.opcode, 0x612A);
    assert_eq!(cpu.pc, 0x202);
    assert_eq!(cpu.registers[1], 0x2A);
    cpu.cycle();
    assert_eq!(cpu.opcode, 0x7101);
    assert_eq!(cpu.pc, 0x204);
    assert_eq!(cpu.registers[1], 0x2B);
}

#[test]
fn fetch_alone_reads_the_word_and_advances() {
    let mut cpu = loaded(&[0xAB, 0xCD]);
    cpu.fetch();
    assert_eq!(cpu.opcode, 0xABCD);
    assert_eq!(cpu.pc, 0x202);
    assert_eq!(cpu.index, 0);
}

#[test]
fn program_counter_at_the_end_of_memory_wraps_to_zero() {
    let mut cpu = Chip8::new();
    cpu.memory[0] = 0x63;
    cpu.memory[1] = 0x07;
    cpu.pc = 4096;
    cpu.cycle();
    assert_eq!(cpu.opcode, 0x6307);
    assert_eq!(cpu.registers[3], 7);
    assert_eq!(cpu.pc, 2);
}

#[test]
fn last_word_of_memory_leaves_the_program_counter_at_the_end() {
    let mut cpu = Chip8::new();
    cpu.memory[4094] = 0x63;
    cpu.memory[4095] = 0x07;
    cpu.pc = 4094;
    cpu.cycle();
    assert_eq!(cpu.registers[3], 7);
    assert_eq!(cpu.pc, 4096);
}

#[test]
fn word_that_straddles_the_end_of_memory() {
    let mut cpu = Chip8::new();
    cpu.memory[4095] = 0x64;
    cpu.memory[0] = 0x09;
    cpu.pc = 4095;
    cpu.cycle();
    assert_eq!(cpu.opcode, 0x6409);
    assert_eq!(cpu.registers[4], 9);
    assert_eq!(cpu.pc, 4097);
    cpu.memory[1] = 0x65;
    cpu.memory[2] = 0x0A;
    cpu.cycle();
    assert_eq!(cpu.opcode, 0x650A);
    assert_eq!(cpu.pc, 3);
}

#[test]
fn skip_at_the_end_of_memory_continues_at_the_start() {
    let mut cpu = Chip8::new();
    cpu.memory[4094] = 0x30;
    cpu.memory[4095] = 0x00;
    cpu.memory[2] = 0x61;
    cpu.memory[3] = 0x11;
    cpu.pc = 4094;
    cpu.cycle();
    assert_eq!(cpu.pc, 4098);
    cpu.cycle();
    assert_eq!(cpu.registers[1], 0x11);
    assert_eq!(cpu.pc, 4);
}

#[test]
fn unknown_words_do_nothing() {
    for word in [0x0000u16, 0x00E1, 0x0123, 0x8AB8, 0x8ABF, 0xE19F, 0xE1A0, 0xF1FF, 0xF100] {
        let mut cpu = loaded(&[(word >> 8) as u8, word as u8]);
        cpu.registers = [7; 16];
        cpu.index = 0x123;
        cpu.video[5] = PIXEL_ON;
        let memory = cpu.memory;
        cpu.cycle();
        assert_eq!(cpu.opcode, word);
        assert_eq!(cpu.pc, 0x202);
        assert_eq!(cpu.registers, [7; 16]);
        assert_eq!(cpu.index, 0x123);
        assert_eq!(cpu.sp, 0);
        assert_eq!(cpu.stack, [0; 16]);
        assert_eq!(cpu.memory, memory);
        assert_eq!(cpu.video[5], PIXEL_ON);
    }
}

#[test]
fn timers_count_down_to_zero() {
    let mut cpu = loaded(&[0x00, 0x00, 0x00, 0x00, 0x00, 0x00]);
    cpu.delay_timer = 2;
    cpu.sound_timer = 1;
    cpu.cycle();
    assert_eq!(cpu.delay_timer, 1);
    assert_eq!(cpu.sound_timer, 0);
    cpu.cycle();
    assert_eq!(cpu.delay_timer, 0);
    assert_eq!(cpu.sound_timer, 0);
    cpu.cycle();
    assert_eq!(cpu.delay_timer, 0);
    assert_eq!(cpu.sound_timer, 0);
}

#[test]
fn tick_timers_alone() {
    let mut cpu = Chip8::new();
    cpu.delay_timer = 255;
    cpu.tick_timers();
    assert_eq!(cpu.delay_timer, 254);
    assert_eq!(cpu.sound_timer, 0);
    assert_eq!(cpu.pc, 0);
}

#[test]
fn timer_set_in_a_cycle_ticks_in_the_same_cycle() {
    let mut cpu = loaded(&[0xF1, 0x15, 0xF1, 0x18, 0xF2, 0x07]);
    cpu.registers[1] = 10;
    cpu.cycle();
    assert_eq!(cpu.delay_timer, 9);
    cpu.cycle();
    assert_eq!(cpu.sound_timer, 9);
    assert_eq!(cpu.delay_timer, 8);
    cpu.cycle();
    assert_eq!(cpu.registers[2], 8);
    assert_eq!(cpu.delay_timer, 7);
}

#[test]
fn call_and_return_through_cycles() {
    let mut program = vec![0u8; 0x104];
    // 0x200: call 0x300
    program[0] = 0x23;
    program[1] = 0x00;
    // 0x300: V1 = 5; 0x302: return
    program[0x100] = 0x61;
    program[0x101] = 0x05;
    program[0x102] = 0x00;
    program[0x103] = 0xEE;
    let mut cpu = loaded(&program);
    cpu.cycle();
    assert_eq!(cpu.pc, 0x300);
    assert_eq!(cpu.sp, 1);
    assert_eq!(cpu.stack[0], 0x202);
    cpu.cycle();
    assert_eq!(cpu.registers[1], 5);
    cpu.cycle();
    assert_eq!(cpu.pc, 0x202);
    assert_eq!(cpu.sp, 0);
}

#[test]
fn wait_for_key_repeats_until_a_key_is_pressed() {
    let mut cpu = loaded(&[0xF5, 0x0A, 0x61, 0x01]);
    for _ in 0..5 {
        cpu.cycle();
        assert_eq!(cpu.pc, 0x200);
        assert_eq!(cpu.registers[5], 0);
    }
    cpu.update_key(7, 1);
    cpu.cycle();
    assert_eq!(cpu.registers[5], 7);
    assert_eq!(cpu.pc, 0x202);
    cpu.cycle();
    assert_eq!(cpu.registers[1], 1);
}

#[test]
fn jump_through_a_cycle() {
    let mut cpu = loaded(&[0x12, 0x28]);
    cpu.cycle();
    assert_eq!(cpu.pc, 0x228);
}

#[test]
fn skips_through_cycles() {
    let mut cpu = loaded(&[0x31, 0x00, 0x00, 0x00, 0x41, 0x00, 0x51, 0x20, 0x00, 0x00, 0x91, 0x20]);
    cpu.cycle();
    assert_eq!(cpu.pc, 0x204);
    cpu.cycle();
    assert_eq!(cpu.pc, 0x206);
    cpu.cycle();
    assert_eq!(cpu.pc, 0x20A);
    cpu.cycle();
    assert_eq!(cpu.pc, 0x20C);
}

#[test]
fn family_five_and_nine_ignore_the_last_digit() {
    let mut cpu = loaded(&[0x51, 0x27, 0x00, 0x00, 0x91, 0x2F]);
    cpu.registers[2] = 0;
    cpu.cycle();
    assert_eq!(cpu.pc, 0x204);
    cpu.registers[2] = 1;
    cpu.cycle();
    assert_eq!(cpu.pc, 0x208);
}

#[test]
fn clear_screen_through_a_cycle() {
    let mut cpu = loaded(&[0x00, 0xE0]);
    cpu.video = [1; 2048];
    cpu.cycle();
    assert_eq!(cpu.get_display(), [0; 2048]);
    assert_eq!(cpu.pc, 0x202);
}

#[test]
fn draw_through_cycles() {
    // index = glyph of V0 (= 0xA); draw 5 rows at (V1, V2).
    let mut cpu = loaded(&[0x60, 0x0A, 0xF0, 0x29, 0xD1, 0x25, 0xD1, 0x25]);
    cpu.registers[1] = 8;
    cpu.registers[2] = 4;
    cpu.cycle();
    cpu.cycle();
    assert_eq!(cpu.index, 0x50 + 50);
    cpu.cycle();
    assert_eq!(cpu.registers[15], 0);
    let display = cpu.get_display();
    // A: F0 90 F0 90 90
    assert_eq!(&display[4 * 64 + 8..4 * 64 + 12], &[PIXEL_ON; 4]);
    assert_eq!(&display[5 * 64 + 8..5 * 64 + 12], &[PIXEL_ON, 0, 0, PIXEL_ON]);
    assert_eq!(&display[8 * 64 + 8..8 * 64 + 12], &[PIXEL_ON, 0, 0, PIXEL_ON]);
    assert_eq!(display.iter().filter(|&&cell| cell != 0).count(), 14);
    cpu.cycle();
    assert_eq!(cpu.registers[15], 1);
    assert_eq!(cpu.get_display(), [0; 2048]);
}

#[test]
fn cycle_with_uses_the_given_byte_for_random() {
    let mut cpu = loaded(&[0xC1, 0x3C, 0x62, 0x01]);
    cpu.cycle_with(0xFF);
    assert_eq!(cpu.registers[1], 0x3C);
    assert_eq!(cpu.pc, 0x202);
    cpu.cycle_with(0xFF);
    assert_eq!(cpu.registers[2], 0x01);
}

#[test]
fn random_through_a_cycle_is_masked() {
    let mut cpu = loaded(&[0xC1, 0x00, 0xC2, 0x03]);
    cpu.registers[1] = 9;
    cpu.cycle();
    assert_eq!(cpu.registers[1], 0);
    cpu.cycle();
    assert!(cpu.registers[2] <= 3);
    assert_eq!(cpu.pc, 0x204);
}

#[test]
fn execute_alone_runs_the_current_word() {
    let mut cpu = Chip8::new();
    cpu.opcode = 0xA123;
    cpu.delay_timer = 3;
    cpu.execute(0);
    assert_eq!(cpu.index, 0x123);
    assert_eq!(cpu.pc, 0);
    assert_eq!(cpu.delay_timer, 3);
}

#[test]
fn decimal_store_and_load_through_cycles() {
    // V0 = 195; index = 0x300; store digits; load V0..V2.
    let mut cpu = loaded(&[0x60, 0xC3, 0xA3, 0x00, 0xF0, 0x33, 0xF2, 0x65]);
    for _ in 0..4 {
        cpu.cycle();
    }
    assert_eq!(&cpu.registers[0..3], &[1, 9, 5]);
}

#[test]
fn any_memory_image_can_be_run() {
    let mut cpu = Chip8::new();
    let mut seed: u32 = 0x1234_5678;
    for cell in cpu.memory.iter_mut() {
        seed = seed.wrapping_mul(1_664_525).wrapping_add(1_013_904_223);
        *cell = (seed >> 24) as u8;
    }
    for round in 0..20_000 {
        if round % 7 == 0 {
            cpu.update_key(round % 16, round % 3);
        }
        cpu.cycle();
    }
}

#[test]
fn nested_calls_through_cycles() {
    let mut program = vec![0u8; 0x204];
    // 0x200: call 0x300; 0x202: V3 = 3
    program[0..4].copy_from_slice(&[0x23, 0x00, 0x63, 0x03]);
    // 0x300: call 0x400; 0x302: V2 = 2; 0x304: return
    program[0x100..0x106].copy_from_slice(&[0x24, 0x00, 0x62, 0x02, 0x00, 0xEE]);
    // 0x400: V1 = 1; 0x402: return
    program[0x200..0x204].copy_from_slice(&[0x61, 0x01, 0x00, 0xEE]);
    let mut cpu = loaded(&program);
    cpu.cycle();
    cpu.cycle();
    assert_eq!(cpu.sp, 2);
    assert_eq!(cpu.pc, 0x400);
    cpu.cycle();
    cpu.cycle();
    assert_eq!(cpu.pc, 0x302);
    assert_eq!(cpu.sp, 1);
    cpu.cycle();
    cpu.cycle();
    assert_eq!(cpu.pc, 0x202);
    assert_eq!(cpu.sp, 0);
    cpu.cycle();
    assert_eq!(&cpu.registers[1..4], &[1, 2, 3]);
}

#[test]
fn pixels_written_by_the_machine_are_zero_or_on() {
    let mut cpu = loaded(&[0xD0, 0x15, 0xD1, 0x25, 0xD0, 0x15]);
    cpu.index = 0x50;
    cpu.registers[1] = 2;
    cpu.registers[2] = 1;
    for _ in 0..3 {
        cpu.cycle();
        assert!(cpu.get_display().iter().all(|&cell| cell == 0 || cell == PIXEL_ON));
    }
}

#[test]
fn keypad_is_not_changed_by_cycles() {
    let mut cpu = loaded(&[0xF1, 0x0A, 0xE1, 0x9E, 0xE1, 0xA1, 0x00, 0xE0]);
    cpu.update_key(9, 1);
    let keypad = cpu.keypad;
    for _ in 0..4 {
        cpu.cycle();
        assert_eq!(cpu.keypad, keypad);
    }
    assert_eq!(cpu.registers[1], 9);
}
