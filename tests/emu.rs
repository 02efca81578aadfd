use chip8_core::{decode, Emu, EmuError, Instruction, HEIGHT, START_ADDRESS, WIDTH};

const FONT: [u8; 80] = [
    0xF0, 0x90, 0x90, 0x90, 0xF0, 0x20, 0x60, 0x20, 0x20, 0x70, 0xF0, 0x10, 0xF0, 0x80, 0xF0, 0xF0,
    0x10, 0xF0, 0x10, 0xF0, 0x90, 0x90, 0xF0, 0x10, 0x10, 0xF0, 0x80, 0xF0, 0x10, 0xF0, 0xF0, 0x80,
    0xF0, 0x90, 0xF0, 0xF0, 0x10, 0x20, 0x40, 0x40, 0xF0, 0x90, 0xF0, 0x90, 0xF0, 0xF0, 0x90, 0xF0,
    0x10, 0xF0, 0xF0, 0x90, 0xF0, 0x90, 0x90, 0xE0, 0x90, 0xE0, 0x90, 0xE0, 0xF0, 0x80, 0x80, 0x80,
    0xF0, 0xE0, 0x90, 0x90, 0x90, 0xE0, 0xF0, 0x80, 0xF0, 0x80, 0xF0, 0xF0, 0x80, 0xF0, 0x80, 0x80,
];

fn machine(program: &[u8]) -> Emu {
    let mut emu = Emu::new();
    emu.load(program).unwrap();
    emu
}

fn run(emu: &mut Emu, steps: usize) {
    for _ in 0..steps {
        emu.step_with(0).unwrap();
    }
}

#[test]
fn three_instruction_program_then_underflow() {
    let mut emu = machine(&[0x6A, 0x05, 0x7A, 0x03, 0x00, 0xEE]);
    run(&mut emu, 2);
    assert_eq!(emu.register(0xA), 8);
    assert_eq!(emu.pc(), 0x204);
    assert_eq!(emu.step_with(0), Err(EmuError::StackUnderflow));
    assert_eq!(emu.pc(), 0x204);
}

#[test]
fn oversized_program_is_refused() {
    let mut emu = Emu::new();
    assert_eq!(emu.load(&vec![0xAB; 4000]), Err(EmuError::ProgramTooLarge));
    assert_eq!(emu.memory(0x200), 0);
    assert_eq!(emu.load(&vec![0xAB; 3585]), Err(EmuError::ProgramTooLarge));
    assert_eq!(emu.load(&vec![0xAB; 3584]), Ok(()));
    assert_eq!(emu.memory(0x200), 0xAB);
    assert_eq!(emu.memory(0xFFF), 0xAB);
}

#[test]
fn initial_state_holds_font_and_load_address() {
    let emu = Emu::new();
    for (a, b) in FONT.iter().enumerate() {
        assert_eq!(emu.memory(a), *b);
    }
    assert_eq!(emu.memory(0x50), 0);
    assert_eq!(emu.pc(), START_ADDRESS);
    assert_eq!(emu.stack_depth(), 0);
    assert_eq!(emu.index_register(), 0);
    assert!(emu.get_display().iter().all(|p| !p));
}

#[test]
fn reset_restores_initial_state() {
    let mut emu = machine(&[0x6A, 0x05, 0x22, 0x00, 0xA1, 0x23, 0xF5, 0x15]);
    run(&mut emu, 2);
    emu.keypress(4, true);
    emu.reset();
    for (a, b) in FONT.iter().enumerate() {
        assert_eq!(emu.memory(a), *b);
    }
    assert_eq!(emu.memory(0x200), 0);
    assert_eq!(emu.register(0xA), 0);
    assert_eq!(emu.pc(), 0x200);
    assert_eq!(emu.stack_depth(), 0);
}

#[test]
fn add_immediate_wraps_and_keeps_flag() {
    let mut emu = machine(&[0x6F, 0x07, 0x6A, 0xFF, 0x7A, 0x02]);
    run(&mut emu, 3);
    assert_eq!(emu.register(0xA), 1);
    assert_eq!(emu.register(0xF), 7);
}

#[test]
fn add_registers_sets_carry() {
    let mut emu = machine(&[0x60, 200, 0x61, 100, 0x80, 0x14, 0x62, 10, 0x63, 20, 0x82, 0x34]);
    run(&mut emu, 3);
    assert_eq!(emu.register(0), 44);
    assert_eq!(emu.register(0xF), 1);
    run(&mut emu, 3);
    assert_eq!(emu.register(2), 30);
    assert_eq!(emu.register(0xF), 0);
}

#[test]
fn add_registers_at_exact_overflow() {
    let mut emu = machine(&[0x60, 128, 0x61, 128, 0x80, 0x14]);
    run(&mut emu, 3);
    assert_eq!(emu.register(0), 0);
    assert_eq!(emu.register(0xF), 1);
}

#[test]
fn subtract_sets_no_borrow_flag() {
    // equal operands: no borrow
    let mut emu = machine(&[0x60, 9, 0x61, 9, 0x80, 0x15]);
    run(&mut emu, 3);
    assert_eq!(emu.register(0), 0);
    assert_eq!(emu.register(0xF), 1);
    // 0 - 1 borrows
    let mut emu = machine(&[0x60, 0, 0x61, 1, 0x80, 0x15]);
    run(&mut emu, 3);
    assert_eq!(emu.register(0), 255);
    assert_eq!(emu.register(0xF), 0);
}

#[test]
fn reverse_subtract_sets_no_borrow_flag() {
    let mut emu = machine(&[0x60, 3, 0x61, 10, 0x80, 0x17]);
    run(&mut emu, 3);
    assert_eq!(emu.register(0), 7);
    assert_eq!(emu.register(0xF), 1);
    let mut emu = machine(&[0x60, 1, 0x61, 0, 0x80, 0x17]);
    run(&mut emu, 3);
    assert_eq!(emu.register(0), 255);
    assert_eq!(emu.register(0xF), 0);
}

#[test]
fn shifts_put_dropped_bit_in_flag() {
    let mut emu = machine(&[0x60, 0b1000_0101, 0x80, 0x06]);
    run(&mut emu, 2);
    assert_eq!(emu.register(0), 0b0100_0010);
    assert_eq!(emu.register(0xF), 1);
    let mut emu = machine(&[0x60, 0b1000_0100, 0x80, 0x06]);
    run(&mut emu, 2);
    assert_eq!(emu.register(0xF), 0);
    let mut emu = machine(&[0x60, 0b1000_0101, 0x80, 0x0E]);
    run(&mut emu, 2);
    assert_eq!(emu.register(0), 0b0000_1010);
    assert_eq!(emu.register(0xF), 1);
    let mut emu = machine(&[0x60, 0b0111_1111, 0x80, 0x0E]);
    run(&mut emu, 2);
    assert_eq!(emu.register(0), 0b1111_1110);
    assert_eq!(emu.register(0xF), 0);
}

#[test]
fn flag_written_after_result() {
    // 8FF4 with VF = 200: the sum wraps, and the carry replaces it
    let mut emu = machine(&[0x6F, 200, 0x8F, 0xF4]);
    run(&mut emu, 2);
    assert_eq!(emu.register(0xF), 1);
}

#[test]
fn logic_and_move() {
    let mut emu = machine(&[
        0x60, 0b1100, 0x61, 0b1010, 0x82, 0x00, 0x82, 0x11, 0x83, 0x00, 0x83, 0x12, 0x84, 0x00, 0x84,
        0x13, 0x85, 0x10,
    ]);
    run(&mut emu, 9);
    assert_eq!(emu.register(2), 0b1110);
    assert_eq!(emu.register(3), 0b1000);
    assert_eq!(emu.register(4), 0b0110);
    assert_eq!(emu.register(5), 0b1010);
}

#[test]
fn draw_twice_restores_display() {
    // I = 0 (glyph "0"), draw at (V0, V1) = (62, 30), wrapping round both edges
    let mut emu = machine(&[0x60, 62, 0x61, 30, 0xA0, 0x00, 0xD0, 0x15, 0xD0, 0x15]);
    run(&mut emu, 4);
    assert_eq!(emu.register(0xF), 0);
    let shown: Vec<bool> = emu.get_display().to_vec();
    assert_eq!(shown.len(), WIDTH * HEIGHT);
    // top row of "0" is 0xF0: four pixels at x = 62, 63, 0, 1 on row 30
    assert!(shown[30 * WIDTH + 62]);
    assert!(shown[30 * WIDTH + 63]);
    assert!(shown[30 * WIDTH]);
    assert!(shown[30 * WIDTH + 1]);
    assert!(!shown[30 * WIDTH + 2]);
    // the fifth row wraps to row 2
    assert!(shown[2 * WIDTH + 62]);
    assert_eq!(shown.iter().filter(|p| **p).count(), 14);
    run(&mut emu, 1);
    assert_eq!(emu.register(0xF), 1);
    assert!(emu.get_display().iter().all(|p| !p));
}

#[test]
fn draw_of_empty_sprite_reports_no_collision() {
    let mut emu = machine(&[0xA1, 0x00, 0xD0, 0x05, 0xD0, 0x05]);
    run(&mut emu, 3);
    assert_eq!(emu.register(0xF), 0);
    assert!(emu.get_display().iter().all(|p| !p));
}

#[test]
fn draw_out_of_memory_fails() {
    let mut emu = machine(&[0xAF, 0xFE, 0xD0, 0x03]);
    run(&mut emu, 1);
    assert_eq!(emu.step_with(0), Err(EmuError::MemoryOutOfBounds));
    assert_eq!(emu.pc(), 0x202);
}

#[test]
fn clear_screen() {
    let mut emu = machine(&[0xD0, 0x05, 0x00, 0xE0]);
    run(&mut emu, 1);
    assert!(emu.get_display().iter().any(|p| *p));
    run(&mut emu, 1);
    assert!(emu.get_display().iter().all(|p| !p));
}

#[test]
fn call_then_return() {
    let mut emu = machine(&[0x22, 0x06, 0x00, 0x00, 0x00, 0x00, 0x00, 0xEE]);
    run(&mut emu, 1);
    assert_eq!(emu.pc(), 0x206);
    assert_eq!(emu.stack_depth(), 1);
    run(&mut emu, 1);
    assert_eq!(emu.pc(), 0x202);
    assert_eq!(emu.stack_depth(), 0);
}

#[test]
fn stack_overflow_on_seventeenth_call() {
    let mut emu = machine(&[0x22, 0x00]);
    run(&mut emu, 16);
    assert_eq!(emu.stack_depth(), 16);
    assert_eq!(emu.step_with(0), Err(EmuError::StackOverflow));
    assert_eq!(emu.stack_depth(), 16);
}

#[test]
fn push_and_pop() {
    let mut emu = Emu::new();
    assert_eq!(emu.pop(), Err(EmuError::StackUnderflow));
    assert_eq!(emu.push(0x345), Ok(()));
    assert_eq!(emu.push(0x678), Ok(()));
    assert_eq!(emu.pop(), Ok(0x678));
    assert_eq!(emu.pop(), Ok(0x345));
    for k in 0..16 {
        assert_eq!(emu.push(k), Ok(()));
    }
    assert_eq!(emu.push(99), Err(EmuError::StackOverflow));
}

#[test]
fn wait_for_key() {
    let mut emu = machine(&[0xF5, 0x0A, 0x00, 0x00]);
    run(&mut emu, 5);
    assert_eq!(emu.pc(), 0x200);
    emu.keypress(9, true);
    emu.keypress(3, true);
    run(&mut emu, 1);
    assert_eq!(emu.register(5), 3);
    assert_eq!(emu.pc(), 0x202);
}

#[test]
fn skip_on_key_state() {
    let mut emu = machine(&[0x60, 0x07, 0xE0, 0x9E, 0xE0, 0xA1, 0x00, 0x00, 0x00, 0x00]);
    emu.keypress(7, true);
    run(&mut emu, 2);
    assert_eq!(emu.pc(), 0x206);
    let mut emu = machine(&[0x60, 0x07, 0xE0, 0x9E, 0xE0, 0xA1, 0x00, 0x00, 0x00, 0x00]);
    run(&mut emu, 3);
    assert_eq!(emu.pc(), 0x208);
}

#[test]
fn key_out_of_range_fails() {
    let mut emu = machine(&[0x60, 0x10, 0xE0, 0x9E]);
    run(&mut emu, 1);
    assert_eq!(emu.step_with(0), Err(EmuError::InvalidKey));
}

#[test]
fn conditional_skips() {
    // 3XNN taken, 4XNN not taken, 5XY0 taken, 9XY0 not taken
    let mut emu = machine(&[
        0x60, 0x11, 0x61, 0x11, 0x30, 0x11, 0x00, 0x00, 0x40, 0x11, 0x50, 0x10, 0x00, 0x00, 0x90,
        0x10,
    ]);
    run(&mut emu, 3);
    assert_eq!(emu.pc(), 0x208);
    run(&mut emu, 1);
    assert_eq!(emu.pc(), 0x20A);
    run(&mut emu, 1);
    assert_eq!(emu.pc(), 0x20E);
    run(&mut emu, 1);
    assert_eq!(emu.pc(), 0x210);
}

#[test]
fn jumps() {
    let mut emu = machine(&[0x13, 0x45]);
    run(&mut emu, 1);
    assert_eq!(emu.pc(), 0x345);
    let mut emu = machine(&[0x60, 0x10, 0xB3, 0x00]);
    run(&mut emu, 2);
    assert_eq!(emu.pc(), 0x310);
}

#[test]
fn fetch_past_memory_fails() {
    let mut emu = machine(&[0x1F, 0xFF]);
    run(&mut emu, 1);
    assert_eq!(emu.fetch(), Err(EmuError::MemoryOutOfBounds));
    assert_eq!(emu.step_with(0), Err(EmuError::MemoryOutOfBounds));
    assert_eq!(emu.pc(), 0xFFF);
}

#[test]
fn fetch_is_big_endian() {
    let emu = machine(&[0xA2, 0xF0]);
    assert_eq!(emu.fetch(), Ok(0xA2F0));
}

#[test]
fn invalid_opcode_fails() {
    let mut emu = machine(&[0x50, 0x01]);
    assert_eq!(emu.step_with(0), Err(EmuError::InvalidOpcode));
    let mut emu = machine(&[0xFF, 0xFF]);
    assert_eq!(emu.step_with(0), Err(EmuError::InvalidOpcode));
    assert_eq!(emu.pc(), 0x200);
}

#[test]
fn decode_examples() {
    assert_eq!(decode(0x0000), Some(Instruction::Nop));
    assert_eq!(decode(0x00EE), Some(Instruction::Return));
    assert_eq!(decode(0x7A03), Some(Instruction::AddImm { x: 0xA, nn: 3 }));
    assert_eq!(decode(0xD123), Some(Instruction::Draw { x: 1, y: 2, n: 3 }));
    assert_eq!(decode(0x8AB7), Some(Instruction::SubRev { x: 0xA, y: 0xB }));
    assert_eq!(decode(0xF365), Some(Instruction::LoadRegs { x: 3 }));
    assert_eq!(decode(0x8008), None);
    assert_eq!(decode(0xE000), None);
    assert_eq!(decode(0x0123), None);
}

#[test]
fn index_instructions() {
    let mut emu = machine(&[0xAF, 0xFF, 0x60, 0x03, 0xF0, 0x1E, 0x61, 0x1A, 0xF1, 0x29]);
    run(&mut emu, 3);
    assert_eq!(emu.index_register(), 0x1002);
    run(&mut emu, 2);
    assert_eq!(emu.index_register(), 50);
}

#[test]
fn index_add_wraps_at_sixteen_bits() {
    let mut emu = Emu::new();
    // ANNN reaches only 0xFFF, so climb past 0xFFFF with repeated FX1E
    let mut program = vec![0xAF, 0xFF, 0x60, 0xFF];
    for _ in 0..241 {
        program.extend_from_slice(&[0xF0, 0x1E]);
    }
    emu.load(&program).unwrap();
    run(&mut emu, 2 + 241);
    assert_eq!(emu.index_register(), ((0xFFFu32 + 241 * 255) % 0x10000) as u16);
}

#[test]
fn decimal_digits() {
    let mut emu = machine(&[0x60, 234, 0xA3, 0x00, 0xF0, 0x33]);
    run(&mut emu, 3);
    assert_eq!(emu.memory(0x300), 2);
    assert_eq!(emu.memory(0x301), 3);
    assert_eq!(emu.memory(0x302), 4);
    let mut emu = machine(&[0x60, 7, 0xAF, 0xFE, 0xF0, 0x33]);
    run(&mut emu, 2);
    assert_eq!(emu.step_with(0), Err(EmuError::MemoryOutOfBounds));
}

#[test]
fn register_block_transfers() {
    let mut emu = machine(&[
        0x60, 1, 0x61, 2, 0x62, 3, 0x63, 4, 0xA4, 0x00, 0xF2, 0x55, 0x60, 0, 0x61, 0, 0x62, 0, 0x63,
        0, 0xF2, 0x65,
    ]);
    run(&mut emu, 6);
    assert_eq!(emu.memory(0x400), 1);
    assert_eq!(emu.memory(0x401), 2);
    assert_eq!(emu.memory(0x402), 3);
    assert_eq!(emu.memory(0x403), 0);
    run(&mut emu, 5);
    assert_eq!(emu.register(0), 1);
    assert_eq!(emu.register(1), 2);
    assert_eq!(emu.register(2), 3);
    assert_eq!(emu.register(3), 0);
    let mut emu = machine(&[0xAF, 0xFE, 0xF2, 0x55]);
    run(&mut emu, 1);
    assert_eq!(emu.step_with(0), Err(EmuError::MemoryOutOfBounds));
}

#[test]
fn timers() {
    let mut emu = machine(&[0x60, 2, 0xF0, 0x15, 0xF0, 0x18, 0xF1, 0x07]);
    run(&mut emu, 3);
    assert_eq!(emu.delay_timer(), 2);
    assert_eq!(emu.sound_timer(), 2);
    emu.tick_delay_timer();
    emu.tick_sound_timer();
    run(&mut emu, 1);
    assert_eq!(emu.register(1), 1);
    for _ in 0..3 {
        emu.tick_delay_timer();
        emu.tick_sound_timer();
    }
    assert_eq!(emu.delay_timer(), 0);
    assert_eq!(emu.sound_timer(), 0);
}

#[test]
fn random_is_masked() {
    let mut emu = machine(&[0xC0, 0x0F, 0xC1, 0x00, 0xC2, 0xF0]);
    emu.step_with(0xAB).unwrap();
    emu.step_with(0xAB).unwrap();
    emu.step_with(0xAB).unwrap();
    assert_eq!(emu.register(0), 0x0B);
    assert_eq!(emu.register(1), 0);
    assert_eq!(emu.register(2), 0xA0);
}

#[test]
fn tick_runs_one_instruction() {
    let mut emu = machine(&[0xC3, 0x0F, 0x64, 0x09]);
    emu.tick().unwrap();
    assert!(emu.register(3) <= 0x0F);
    emu.tick().unwrap();
    assert_eq!(emu.register(4), 9);
    assert_eq!(emu.pc(), 0x204);
}
