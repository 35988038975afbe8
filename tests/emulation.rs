use feo_core::cpu::{execute, execute_with_random};
use feo_core::emulation::{DISPLAY_SIZE, START_ADDRESS};
use feo_core::instruction::{decode, Instruction};
use feo_core::{Emulation, EmulationError, SCREEN_WIDTH};

const FONT: [u8; 16] = [
    0xF0, 0x90, 0x90, 0x90, 0xF0, 0x20, 0x60, 0x20, 0x20, 0x70, 0xF0, 0x10, 0xF0, 0x80, 0xF0, 0xF0,
];

fn words(ops: &[u16]) -> Vec<u8> {
    let mut bytes = Vec::new();
    for op in ops {
        bytes.push((op >> 8) as u8);
        bytes.push((op & 0xFF) as u8);
    }
    bytes
}

fn machine_with(ops: &[u16]) -> Emulation {
    let mut emu = Emulation::new();
    emu.load(&words(ops)).unwrap();
    emu
}

fn exec(emu: &mut Emulation, op: u16) {
    execute_with_random(emu, op, 0).unwrap();
}

fn set_reg(emu: &mut Emulation, x: u16, value: u8) {
    exec(emu, 0x6000 | (x << 8) | value as u16);
}

fn set_index(emu: &mut Emulation, address: u16) {
    exec(emu, 0xA000 | address);
}

// writes `bytes` to memory at `address` through registers 0 to n-1
fn poke(emu: &mut Emulation, address: u16, bytes: &[u8]) {
    for (i, b) in bytes.iter().enumerate() {
        set_reg(emu, i as u16, *b);
    }
    set_index(emu, address);
    exec(emu, 0xF055 | ((bytes.len() as u16 - 1) << 8));
}

fn reg(emu: &Emulation, x: usize) -> u8 {
    emu.registers()[x]
}

fn lit(emu: &Emulation, x: usize, y: usize) -> bool {
    emu.get_display()[x + SCREEN_WIDTH * y]
}

#[test]
fn new_machine_starts_at_0x200_with_font() {
    let emu = Emulation::new();
    assert_eq!(emu.program_counter(), 0x200);
    assert_eq!(&emu.ram()[..16], &FONT[..]);
    assert_eq!(emu.ram()[79], 0x80);
    assert_eq!(emu.ram()[80], 0);
    assert_eq!(emu.ram().len(), 4096);
    assert!(emu.get_display().iter().all(|p| !p));
    assert_eq!(emu.get_display().len(), DISPLAY_SIZE);
    assert_eq!(emu.stack_pointer(), 0);
    assert_eq!(emu.index_register(), 0);
    assert!(emu.keys().iter().all(|k| !k));
    assert!(emu.registers().iter().all(|r| *r == 0));
}

#[test]
fn load_then_reset_restores_memory_and_font() {
    let mut emu = Emulation::new();
    emu.load(&[0x12, 0x34, 0x56]).unwrap();
    assert_eq!(emu.ram()[0x200], 0x12);
    assert_eq!(emu.ram()[0x202], 0x56);
    poke(&mut emu, 3, &[0xAA]);
    assert_eq!(emu.ram()[3], 0xAA);
    emu.reset();
    assert_eq!(emu.ram()[0x200], 0);
    assert_eq!(emu.ram()[0x202], 0);
    assert_eq!(&emu.ram()[..16], &FONT[..]);
    assert_eq!(emu.program_counter(), START_ADDRESS);
    assert_eq!(reg(&emu, 0), 0);
}

#[test]
fn load_accepts_rom_that_fills_memory() {
    let mut emu = Emulation::new();
    let rom = vec![7u8; 4096 - 512];
    assert_eq!(emu.load(&rom), Ok(()));
    assert_eq!(emu.ram()[4095], 7);
}

#[test]
fn load_rejects_oversized_rom() {
    let mut emu = Emulation::new();
    let rom = vec![7u8; 4096 - 511];
    assert_eq!(emu.load(&rom), Err(EmulationError::RomTooLarge { len: 3585 }));
    assert_eq!(emu.ram()[0x200], 0);
}

#[test]
fn decode_names_instructions() {
    assert_eq!(decode(0x8124), Some(Instruction::AddReg { x: 1, y: 2 }));
    assert_eq!(decode(0xD12F), Some(Instruction::Draw { x: 1, y: 2, n: 15 }));
    assert_eq!(decode(0xA123), Some(Instruction::SetIndex { nnn: 0x123 }));
    assert_eq!(decode(0xF30A), Some(Instruction::WaitKey { x: 3 }));
    assert_eq!(decode(0x00EE), Some(Instruction::Return));
    assert_eq!(decode(0x5121), None);
    assert_eq!(decode(0x8128), None);
    assert_eq!(decode(0xE1FF), None);
    assert_eq!(decode(0x0123), None);
}

#[test]
fn add_with_carry_sets_flag() {
    let mut emu = Emulation::new();
    set_reg(&mut emu, 0, 0xFF);
    set_reg(&mut emu, 1, 0x01);
    exec(&mut emu, 0x8014);
    assert_eq!(reg(&emu, 0), 0x00);
    assert_eq!(reg(&emu, 0xF), 1);
    set_reg(&mut emu, 0, 0x10);
    exec(&mut emu, 0x8014);
    assert_eq!(reg(&emu, 0), 0x11);
    assert_eq!(reg(&emu, 0xF), 0);
}

#[test]
fn subtraction_flags_follow_borrow() {
    let mut emu = Emulation::new();
    set_reg(&mut emu, 0, 3);
    set_reg(&mut emu, 1, 5);
    exec(&mut emu, 0x8015);
    assert_eq!(reg(&emu, 0), 254);
    assert_eq!(reg(&emu, 0xF), 0);

    set_reg(&mut emu, 0, 5);
    set_reg(&mut emu, 1, 3);
    exec(&mut emu, 0x8015);
    assert_eq!(reg(&emu, 0), 2);
    assert_eq!(reg(&emu, 0xF), 1);

    set_reg(&mut emu, 0, 5);
    set_reg(&mut emu, 1, 3);
    exec(&mut emu, 0x8017);
    assert_eq!(reg(&emu, 0), 254);
    assert_eq!(reg(&emu, 0xF), 0);

    set_reg(&mut emu, 0, 3);
    set_reg(&mut emu, 1, 3);
    exec(&mut emu, 0x8017);
    assert_eq!(reg(&emu, 0), 0);
    assert_eq!(reg(&emu, 0xF), 1);
}

#[test]
fn shift_left_captures_high_bit() {
    let mut emu = Emulation::new();
    set_reg(&mut emu, 0, 0b1000_0001);
    exec(&mut emu, 0x800E);
    assert_eq!(reg(&emu, 0), 0b0000_0010);
    assert_eq!(reg(&emu, 0xF), 1);
}

#[test]
fn shift_right_captures_low_bit() {
    let mut emu = Emulation::new();
    set_reg(&mut emu, 2, 0b0000_0011);
    exec(&mut emu, 0x8206);
    assert_eq!(reg(&emu, 2), 0b0000_0001);
    assert_eq!(reg(&emu, 0xF), 1);
    exec(&mut emu, 0x8206);
    exec(&mut emu, 0x8206);
    assert_eq!(reg(&emu, 2), 0);
    assert_eq!(reg(&emu, 0xF), 0);
}

#[test]
fn bitwise_and_immediate_operations() {
    let mut emu = Emulation::new();
    set_reg(&mut emu, 1, 0b1100);
    set_reg(&mut emu, 2, 0b1010);
    exec(&mut emu, 0x8121);
    assert_eq!(reg(&emu, 1), 0b1110);
    exec(&mut emu, 0x8122);
    assert_eq!(reg(&emu, 1), 0b1010);
    exec(&mut emu, 0x8123);
    assert_eq!(reg(&emu, 1), 0);
    exec(&mut emu, 0x71FF);
    exec(&mut emu, 0x7102);
    assert_eq!(reg(&emu, 1), 1);
    assert_eq!(reg(&emu, 0xF), 0);
    exec(&mut emu, 0x8310);
    assert_eq!(reg(&emu, 3), 1);
}

#[test]
fn sprite_draw_twice_restores_display() {
    let mut emu = Emulation::new();
    set_reg(&mut emu, 0, 10);
    set_reg(&mut emu, 1, 5);
    // glyph of 0 from the font
    set_index(&mut emu, 0);
    exec(&mut emu, 0xD015);
    assert!(lit(&emu, 10, 5));
    assert!(lit(&emu, 13, 5));
    assert!(!lit(&emu, 11, 6));
    assert_eq!(reg(&emu, 0xF), 0);
    exec(&mut emu, 0xD015);
    assert_eq!(reg(&emu, 0xF), 1);
    assert!(emu.get_display().iter().all(|p| !p));
}

#[test]
fn sprite_wraps_horizontally() {
    let mut emu = Emulation::new();
    poke(&mut emu, 0x300, &[0b1100_0000]);
    set_index(&mut emu, 0x300);
    set_reg(&mut emu, 0, 63);
    set_reg(&mut emu, 1, 0);
    exec(&mut emu, 0xD011);
    assert!(lit(&emu, 63, 0));
    assert!(lit(&emu, 0, 0));
    assert!(!lit(&emu, 1, 0));
    assert_eq!(emu.get_display().iter().filter(|p| **p).count(), 2);
}

#[test]
fn sprite_wraps_vertically() {
    let mut emu = Emulation::new();
    poke(&mut emu, 0x300, &[0x80, 0x80]);
    set_index(&mut emu, 0x300);
    set_reg(&mut emu, 0, 70);
    set_reg(&mut emu, 1, 31);
    exec(&mut emu, 0xD012);
    assert!(lit(&emu, 6, 31));
    assert!(lit(&emu, 6, 0));
}

#[test]
fn collision_flag_only_on_lit_to_unlit() {
    let mut emu = Emulation::new();
    poke(&mut emu, 0x300, &[0b1000_0000, 0b0100_0000]);
    set_index(&mut emu, 0x300);
    set_reg(&mut emu, 0, 0);
    set_reg(&mut emu, 1, 0);
    exec(&mut emu, 0xD011);
    assert_eq!(reg(&emu, 0xF), 0);
    // a different pixel: no collision
    set_index(&mut emu, 0x301);
    exec(&mut emu, 0xD011);
    assert_eq!(reg(&emu, 0xF), 0);
    assert!(lit(&emu, 0, 0));
    assert!(lit(&emu, 1, 0));
    // the first pixel again: turned off, collision
    set_index(&mut emu, 0x300);
    exec(&mut emu, 0xD011);
    assert_eq!(reg(&emu, 0xF), 1);
    assert!(!lit(&emu, 0, 0));
    assert!(lit(&emu, 1, 0));
}

#[test]
fn sprite_past_memory_end_is_refused() {
    let mut emu = Emulation::new();
    set_index(&mut emu, 0);
    exec(&mut emu, 0xD001);
    assert!(lit(&emu, 0, 0));
    set_index(&mut emu, 0xFFE);
    assert_eq!(
        execute_with_random(&mut emu, 0xD013, 0),
        Err(EmulationError::MemoryOutOfRange { start: 0xFFE, len: 3 })
    );
    assert!(lit(&emu, 0, 0));
}

#[test]
fn sprite_of_no_rows_clears_flag_and_reads_nothing() {
    let mut emu = Emulation::new();
    set_index(&mut emu, 0);
    exec(&mut emu, 0xD001);
    set_reg(&mut emu, 0xF, 1);
    // index far past the end of memory
    set_index(&mut emu, 0xFFF);
    set_reg(&mut emu, 0, 0xFF);
    for _ in 0..20 {
        exec(&mut emu, 0xF01E);
    }
    assert!(emu.index_register() as usize > 4096);
    exec(&mut emu, 0xD000);
    assert_eq!(reg(&emu, 0xF), 0);
    assert!(lit(&emu, 0, 0));
    assert_eq!(emu.get_display().iter().filter(|p| **p).count(), 4);
}

#[test]
fn clear_screen_unlights_everything() {
    let mut emu = Emulation::new();
    set_index(&mut emu, 0);
    exec(&mut emu, 0xD005);
    assert!(emu.get_display().iter().any(|p| *p));
    exec(&mut emu, 0x00E0);
    assert!(emu.get_display().iter().all(|p| !p));
}

#[test]
fn bcd_of_255() {
    let mut emu = Emulation::new();
    set_reg(&mut emu, 4, 255);
    set_index(&mut emu, 0x400);
    exec(&mut emu, 0xF433);
    assert_eq!(&emu.ram()[0x400..0x403], &[2, 5, 5]);
    set_reg(&mut emu, 4, 7);
    exec(&mut emu, 0xF433);
    assert_eq!(&emu.ram()[0x400..0x403], &[0, 0, 7]);
}

#[test]
fn bcd_past_memory_end_is_refused() {
    let mut emu = Emulation::new();
    set_index(&mut emu, 0xFFE);
    assert_eq!(
        execute_with_random(&mut emu, 0xF033, 0),
        Err(EmulationError::MemoryOutOfRange { start: 0xFFE, len: 3 })
    );
}

#[test]
fn font_glyph_index_is_five_times_digit() {
    let mut emu = Emulation::new();
    for d in 0u8..16 {
        set_reg(&mut emu, 2, d);
        exec(&mut emu, 0xF229);
        assert_eq!(emu.index_register(), 5 * d as u16);
    }
}

#[test]
fn store_and_load_registers() {
    let mut emu = Emulation::new();
    for i in 0..16u16 {
        set_reg(&mut emu, i, i as u8 + 1);
    }
    set_index(&mut emu, 0x500);
    exec(&mut emu, 0xF255);
    assert_eq!(&emu.ram()[0x500..0x504], &[1, 2, 3, 0]);
    set_reg(&mut emu, 0, 9);
    set_index(&mut emu, 0x500);
    exec(&mut emu, 0xF055);
    set_reg(&mut emu, 0, 8);
    set_index(&mut emu, 0x503);
    exec(&mut emu, 0xF055);
    set_index(&mut emu, 0x500);
    exec(&mut emu, 0xF365);
    assert_eq!(&emu.registers()[..5], &[9, 2, 3, 8, 5]);
}

#[test]
fn store_past_memory_end_is_refused() {
    let mut emu = Emulation::new();
    set_index(&mut emu, 0xFFF);
    assert_eq!(
        execute_with_random(&mut emu, 0xF155, 0),
        Err(EmulationError::MemoryOutOfRange { start: 0xFFF, len: 2 })
    );
    assert_eq!(
        execute_with_random(&mut emu, 0xF165, 0),
        Err(EmulationError::MemoryOutOfRange { start: 0xFFF, len: 2 })
    );
    assert_eq!(execute_with_random(&mut emu, 0xF055, 0), Ok(()));
}

#[test]
fn index_add_wraps() {
    let mut emu = Emulation::new();
    set_index(&mut emu, 0xFFF);
    set_reg(&mut emu, 0, 0xFF);
    for _ in 0..241 {
        exec(&mut emu, 0xF01E);
    }
    // 0xFFF + 241 * 0xFF = 0x1000E
    assert_eq!(emu.index_register(), 0x000E);
}

#[test]
fn wait_key_blocks_until_pressed() {
    let mut emu = machine_with(&[0xF50A, 0x0000]);
    for _ in 0..3 {
        emu.tick().unwrap();
        assert_eq!(emu.program_counter(), 0x200);
    }
    emu.key_press(9, true);
    emu.key_press(4, true);
    emu.tick().unwrap();
    assert_eq!(emu.program_counter(), 0x202);
    assert_eq!(reg(&emu, 5), 4);
}

#[test]
fn skip_on_key_state() {
    let mut emu = Emulation::new();
    set_reg(&mut emu, 0, 3);
    exec(&mut emu, 0x1202);
    exec(&mut emu, 0xE09E);
    assert_eq!(emu.program_counter(), 0x202);
    exec(&mut emu, 0xE0A1);
    assert_eq!(emu.program_counter(), 0x204);
    emu.key_press(3, true);
    assert!(emu.keys()[3]);
    exec(&mut emu, 0xE09E);
    assert_eq!(emu.program_counter(), 0x206);
    emu.key_press(3, false);
    exec(&mut emu, 0xE09E);
    assert_eq!(emu.program_counter(), 0x206);
}

#[test]
fn key_beyond_keypad_is_refused() {
    let mut emu = Emulation::new();
    set_reg(&mut emu, 1, 16);
    assert_eq!(
        execute_with_random(&mut emu, 0xE19E, 0),
        Err(EmulationError::KeyOutOfRange { key: 16 })
    );
}

#[test]
fn skips_compare_registers_and_immediates() {
    let mut emu = Emulation::new();
    exec(&mut emu, 0x1300);
    set_reg(&mut emu, 1, 0x42);
    set_reg(&mut emu, 2, 0x42);
    exec(&mut emu, 0x3142);
    assert_eq!(emu.program_counter(), 0x302);
    exec(&mut emu, 0x4142);
    assert_eq!(emu.program_counter(), 0x302);
    exec(&mut emu, 0x5120);
    assert_eq!(emu.program_counter(), 0x304);
    exec(&mut emu, 0x9120);
    assert_eq!(emu.program_counter(), 0x304);
    set_reg(&mut emu, 2, 1);
    exec(&mut emu, 0x9120);
    assert_eq!(emu.program_counter(), 0x306);
}

#[test]
fn jumps_calls_and_returns() {
    let mut emu = machine_with(&[0x2206, 0x0000, 0x1ABC, 0x00EE]);
    emu.tick().unwrap();
    assert_eq!(emu.program_counter(), 0x206);
    assert_eq!(emu.stack_pointer(), 1);
    assert_eq!(emu.stack()[0], 0x202);
    emu.tick().unwrap();
    assert_eq!(emu.program_counter(), 0x202);
    assert_eq!(emu.stack_pointer(), 0);
    set_reg(&mut emu, 0, 0x10);
    exec(&mut emu, 0xB300);
    assert_eq!(emu.program_counter(), 0x310);
}

#[test]
fn deep_calls_overflow_the_stack() {
    let mut emu = machine_with(&[0x2200]);
    for _ in 0..16 {
        emu.tick().unwrap();
    }
    assert_eq!(emu.stack_pointer(), 16);
    assert_eq!(emu.tick(), Err(EmulationError::StackOverflow));
    assert_eq!(emu.stack_pointer(), 16);
}

#[test]
fn unknown_opcode_reports_value_and_address() {
    let mut emu = machine_with(&[0x0000, 0x5121]);
    emu.tick().unwrap();
    assert_eq!(
        emu.tick(),
        Err(EmulationError::UnknownOpcode { opcode: 0x5121, address: 0x202 })
    );
}

#[test]
fn fetch_past_memory_end_is_refused() {
    let mut emu = Emulation::new();
    exec(&mut emu, 0x1FFF);
    assert_eq!(emu.tick(), Err(EmulationError::MemoryOutOfRange { start: 0xFFF, len: 2 }));
    assert_eq!(emu.program_counter(), 0xFFF);
}

#[test]
fn random_byte_is_masked() {
    let mut emu = Emulation::new();
    execute_with_random(&mut emu, 0xC30F, 0xAB).unwrap();
    assert_eq!(reg(&emu, 3), 0x0B);
    set_reg(&mut emu, 4, 0x77);
    execute(&mut emu, 0xC400).unwrap();
    assert_eq!(reg(&emu, 4), 0);
    for _ in 0..32 {
        execute(&mut emu, 0xC4F0).unwrap();
        assert_eq!(reg(&emu, 4) & 0x0F, 0);
    }
}

#[test]
fn random_bytes_vary() {
    let mut emu = Emulation::new();
    let mut seen = [false; 256];
    for _ in 0..64 {
        execute(&mut emu, 0xC5FF).unwrap();
        seen[reg(&emu, 5) as usize] = true;
    }
    assert!(seen.iter().filter(|s| **s).count() > 1);
}

#[test]
fn timers_count_down_to_zero() {
    let mut emu = Emulation::new();
    set_reg(&mut emu, 0, 2);
    exec(&mut emu, 0xF015);
    set_reg(&mut emu, 0, 1);
    exec(&mut emu, 0xF018);
    assert_eq!((emu.delay_timer(), emu.sound_timer()), (2, 1));
    emu.tick_timers();
    assert_eq!((emu.delay_timer(), emu.sound_timer()), (1, 0));
    exec(&mut emu, 0xF107);
    assert_eq!(reg(&emu, 1), 1);
    emu.tick_timers();
    emu.tick_timers();
    assert_eq!((emu.delay_timer(), emu.sound_timer()), (0, 0));
}

#[test]
fn end_to_end_add_then_return_underflows() {
    let mut emu = machine_with(&[0x6005, 0x6105, 0x8014, 0x00EE]);
    emu.tick().unwrap();
    emu.tick().unwrap();
    emu.tick().unwrap();
    assert_eq!(reg(&emu, 0), 10);
    assert_eq!(reg(&emu, 0xF), 0);
    assert_eq!(emu.tick(), Err(EmulationError::StackUnderflow));
}

#[test]
fn tick_with_random_runs_deterministically() {
    let mut emu = machine_with(&[0xC0FF, 0xC1FF]);
    emu.tick_with_random(0x12).unwrap();
    emu.tick_with_random(0x34).unwrap();
    assert_eq!(reg(&emu, 0), 0x12);
    assert_eq!(reg(&emu, 1), 0x34);
    assert_eq!(emu.program_counter(), 0x204);
}
