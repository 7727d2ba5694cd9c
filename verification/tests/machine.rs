use std::cell::RefCell;
use std::rc::Rc;

use chip8::chip8::Chip8;
use chip8::display::{DisplayDriver, SCREEN_PIXELS, WIDTH};
use chip8::error::Chip8Error;

/// Test driver that keeps the last frame it was handed.
struct RecordingDriver {
    frames: Rc<RefCell<Vec<Vec<bool>>>>,
}

impl DisplayDriver for RecordingDriver {
    fn draw_pixels(&mut self, data: [bool; SCREEN_PIXELS]) {
        self.frames.borrow_mut().push(data.to_vec());
    }
}

fn machine_with(rom: &[u8]) -> (Chip8<RecordingDriver>, Rc<RefCell<Vec<Vec<bool>>>>) {
    let frames = Rc::new(RefCell::new(Vec::new()));
    let driver = RecordingDriver { frames: frames.clone() };
    let mut machine = Chip8::new(driver);
    machine.load_default_font();
    machine.load_rom(rom).unwrap();
    (machine, frames)
}

fn words(rom: &[u16]) -> Vec<u8> {
    let mut bytes = Vec::new();
    for word in rom {
        bytes.push((word >> 8) as u8);
        bytes.push((word & 0xFF) as u8);
    }
    bytes
}

#[test]
fn test_add_immediate_wraps_without_flag() {
    // V0 = 5; V1 = 10; V0 += 250 (to 255); V0 += 10 (wraps to 9).
    let rom = words(&[0x6005, 0x610A, 0x70FA, 0x700A]);
    let (mut machine, _) = machine_with(&rom);
    machine.cycle().unwrap();
    machine.cycle().unwrap();
    machine.cycle().unwrap();
    assert_eq!(machine.cpu().v_registers()[0], 255);
    assert_eq!(machine.cpu().v_registers()[1], 10);
    // Add-immediate never touches the flag register.
    assert_eq!(machine.cpu().v_registers()[15], 0);
    machine.cycle().unwrap();
    assert_eq!(machine.cpu().v_registers()[0], 9);
    assert_eq!(machine.cpu().v_registers()[15], 0);
}

#[test]
fn test_register_add_sets_carry_flag() {
    // V0 = 0xFF; V1 = 0x01; V0 += V1: result 0x00, carry flag set.
    let rom = words(&[0x60FF, 0x6101, 0x8014]);
    let (mut machine, _) = machine_with(&rom);
    for _ in 0..3 {
        machine.cycle().unwrap();
    }
    assert_eq!(machine.cpu().v_registers()[0], 0x00);
    assert_eq!(machine.cpu().v_registers()[15], 1);
}

#[test]
fn test_register_subtract_sets_borrow_flag() {
    // V0 = 0x01; V1 = 0x02; V0 -= V1: result 0xFF, flag 0 (a borrow).
    let rom = words(&[0x6001, 0x6102, 0x8015]);
    let (mut machine, _) = machine_with(&rom);
    for _ in 0..3 {
        machine.cycle().unwrap();
    }
    assert_eq!(machine.cpu().v_registers()[0], 0xFF);
    assert_eq!(machine.cpu().v_registers()[15], 0);
}

#[test]
fn test_shift_left_and_right_flags() {
    // V0 = 0x81; V0 <<= 1: 0x02 with flag 1.
    let rom = words(&[0x6081, 0x800E]);
    let (mut machine, _) = machine_with(&rom);
    machine.cycle().unwrap();
    machine.cycle().unwrap();
    assert_eq!(machine.cpu().v_registers()[0], 0x02);
    assert_eq!(machine.cpu().v_registers()[15], 1);

    // V0 = 0x81; V0 >>= 1: 0x40 with flag 1.
    let rom = words(&[0x6081, 0x8006]);
    let (mut machine, _) = machine_with(&rom);
    machine.cycle().unwrap();
    machine.cycle().unwrap();
    assert_eq!(machine.cpu().v_registers()[0], 0x40);
    assert_eq!(machine.cpu().v_registers()[15], 1);
}

#[test]
fn test_jump_call_and_return() {
    // 0x200: call 0x206; 0x206: return.
    let rom = words(&[0x2206, 0x0000, 0x0000, 0x00EE]);
    let (mut machine, _) = machine_with(&rom);
    machine.cycle().unwrap();
    assert_eq!(machine.cpu().program_counter(), 0x206);
    machine.cycle().unwrap();
    assert_eq!(machine.cpu().program_counter(), 0x202);
}

#[test]
fn test_return_on_empty_stack_is_fatal() {
    let rom = words(&[0x00EE]);
    let (mut machine, _) = machine_with(&rom);
    assert_eq!(machine.cycle(), Err(Chip8Error::StackUnderflow));
    // The machine halted in place: nothing moved.
    assert_eq!(machine.cpu().program_counter(), 0x200);
}

#[test]
fn test_deep_call_nesting_overflows_the_stack() {
    // Sixteen nested calls succeed; the seventeenth is fatal.
    let mut rom = Vec::new();
    for level in 0..17u16 {
        let target = 0x200 + 2 * (level + 1);
        rom.push(0x2000 | target);
    }
    let rom = words(&rom);
    let (mut machine, _) = machine_with(&rom);
    for _ in 0..16 {
        machine.cycle().unwrap();
    }
    assert_eq!(machine.cycle(), Err(Chip8Error::StackOverflow));
}

#[test]
fn test_unknown_opcode_is_fatal() {
    let rom = words(&[0x0123]);
    let (mut machine, _) = machine_with(&rom);
    assert_eq!(
        machine.cycle(),
        Err(Chip8Error::UnknownOpcode { address: 0x200, opcode: 0x0123 })
    );
}

#[test]
fn test_fetch_past_end_of_memory_is_fatal() {
    let rom = words(&[0x1FFF]);
    let (mut machine, _) = machine_with(&rom);
    machine.cycle().unwrap();
    assert_eq!(machine.cpu().program_counter(), 0xFFF);
    assert_eq!(
        machine.cycle(),
        Err(Chip8Error::OutOfBounds { address: 0xFFF })
    );
}

#[test]
fn test_skip_if_key_down() {
    // V0 = 5; skip next if key 5 held; V1 = 1 (skipped); V1 = 2.
    let rom = words(&[0x6005, 0xE09E, 0x6101, 0x6102]);
    let (mut machine, _) = machine_with(&rom);
    machine.key_down(5);
    for _ in 0..3 {
        machine.cycle().unwrap();
    }
    assert_eq!(machine.cpu().v_registers()[1], 2);
    assert_eq!(machine.cpu().program_counter(), 0x208);
}

#[test]
fn test_block_until_key_release() {
    // V1 receives the released key.
    let rom = words(&[0xF10A]);
    let (mut machine, _) = machine_with(&rom);
    machine.precycle();
    machine.cycle().unwrap();
    // No release yet: the program counter did not move.
    assert_eq!(machine.cpu().program_counter(), 0x200);
    machine.precycle();
    machine.cycle().unwrap();
    assert_eq!(machine.cpu().program_counter(), 0x200);
    // A key goes down and up; the next cycle advances and records it.
    machine.precycle();
    machine.key_down(5);
    machine.key_up();
    machine.cycle().unwrap();
    assert_eq!(machine.cpu().program_counter(), 0x202);
    assert_eq!(machine.cpu().v_registers()[1], 5);
}

#[test]
fn test_timers_tick_down_and_stop_at_zero() {
    // V0 = 3; delay = V0; then read the delay timer into V1 three times.
    let rom = words(&[0x6003, 0xF015, 0xF107, 0xF107, 0xF107]);
    let (mut machine, _) = machine_with(&rom);
    machine.cycle().unwrap();
    machine.cycle().unwrap();
    machine.timer_cycle();
    machine.timer_cycle();
    machine.cycle().unwrap();
    assert_eq!(machine.cpu().v_registers()[1], 1);
    machine.timer_cycle();
    machine.cycle().unwrap();
    assert_eq!(machine.cpu().v_registers()[1], 0);
    // Ticking on and on never drives the timer below zero.
    for _ in 0..10 {
        machine.timer_cycle();
    }
    machine.cycle().unwrap();
    assert_eq!(machine.cpu().v_registers()[1], 0);
}

#[test]
fn test_store_bcd_and_load_registers() {
    // V0 = 251; I = 0x300; store BCD digits; load V0..V2 back.
    let rom = words(&[0x60FB, 0xA300, 0xF033, 0xF265]);
    let (mut machine, _) = machine_with(&rom);
    for _ in 0..4 {
        machine.cycle().unwrap();
    }
    assert_eq!(machine.cpu().v_registers()[0], 2);
    assert_eq!(machine.cpu().v_registers()[1], 5);
    assert_eq!(machine.cpu().v_registers()[2], 1);
    assert_eq!(machine.cpu().i_register(), 0x300);
}

#[test]
fn test_store_and_load_register_range() {
    // V0..V2 = 7, 8, 9; store them at 0x320; zero V0..V2; load them back.
    let rom = words(&[
        0x6007, 0x6108, 0x6209, 0xA320, 0xF255, 0x6000, 0x6100, 0x6200, 0xF265,
    ]);
    let (mut machine, _) = machine_with(&rom);
    for _ in 0..9 {
        machine.cycle().unwrap();
    }
    assert_eq!(machine.cpu().v_registers()[0], 7);
    assert_eq!(machine.cpu().v_registers()[1], 8);
    assert_eq!(machine.cpu().v_registers()[2], 9);
    assert_eq!(machine.cpu().i_register(), 0x320);
}

#[test]
fn test_store_past_end_of_memory_is_fatal() {
    // I = 0xFFF wants three BCD cells: out of bounds at 0xFFF.
    let rom = words(&[0x6001, 0xAFFF, 0xF033]);
    let (mut machine, _) = machine_with(&rom);
    machine.cycle().unwrap();
    machine.cycle().unwrap();
    assert_eq!(
        machine.cycle(),
        Err(Chip8Error::OutOfBounds { address: 0xFFF })
    );
}

#[test]
fn test_add_register_to_index_flags_past_addressable_range() {
    // I = 0xFFF; V0 = 2; I += V0: 0x1001 > 0xFFF sets the flag register.
    let rom = words(&[0xAFFF, 0x6002, 0xF01E]);
    let (mut machine, _) = machine_with(&rom);
    for _ in 0..3 {
        machine.cycle().unwrap();
    }
    assert_eq!(machine.cpu().i_register(), 0x1001);
    assert_eq!(machine.cpu().v_registers()[15], 1);
}

#[test]
fn test_random_masked_with_zero_is_zero() {
    // V0 = 0xFF, then V0 = random & 0x00: always 0, whatever was drawn.
    let rom = words(&[0x60FF, 0xC000]);
    let (mut machine, _) = machine_with(&rom);
    machine.cycle().unwrap();
    machine.cycle().unwrap();
    assert_eq!(machine.cpu().v_registers()[0], 0);
}

#[test]
fn test_font_glyph_index() {
    // V0 = 0xA; I = font base + 5 * 0xA.
    let rom = words(&[0x600A, 0xF029]);
    let (mut machine, _) = machine_with(&rom);
    machine.cycle().unwrap();
    machine.cycle().unwrap();
    assert_eq!(machine.cpu().i_register(), 0x050 + 5 * 0xA);
}

#[test]
fn test_draw_twice_reports_collision_and_blanks_screen() {
    // Sprite byte 0xFF stored at 0x340, drawn twice at (0, 0).
    let rom = words(&[
        0x60FF, // V0 = 0xFF
        0xA340, // I = 0x340
        0xF055, // memory[0x340] = V0
        0x6100, // V1 = 0 (x)
        0x6200, // V2 = 0 (y)
        0xD121, // draw 1 row at (V1, V2)
        0xD121, // draw the same row again
    ]);
    let (mut machine, frames) = machine_with(&rom);
    for _ in 0..6 {
        machine.cycle().unwrap();
    }
    assert_eq!(machine.cpu().v_registers()[15], 0);
    {
        let recorded = frames.borrow();
        let frame = recorded.last().unwrap();
        let lit: usize = frame.iter().filter(|pixel| **pixel).count();
        assert_eq!(lit, 8);
        for column in 0..8 {
            assert!(frame[column]);
        }
    }
    machine.cycle().unwrap();
    assert_eq!(machine.cpu().v_registers()[15], 1);
    let recorded = frames.borrow();
    let frame = recorded.last().unwrap();
    assert!(frame.iter().all(|pixel| !pixel));
}

#[test]
fn test_two_disjoint_draws_report_no_collision() {
    let rom = words(&[
        0x60FF, // V0 = 0xFF
        0xA340, // I = 0x340
        0xF055, // memory[0x340] = V0
        0x6100, // V1 = 0
        0x6200, // V2 = 0
        0xD121, // draw at (0, 0)
        0x6108, // V1 = 8
        0xD121, // draw at (8, 0)
    ]);
    let (mut machine, frames) = machine_with(&rom);
    for _ in 0..8 {
        machine.cycle().unwrap();
    }
    assert_eq!(machine.cpu().v_registers()[15], 0);
    let recorded = frames.borrow();
    let frame = recorded.last().unwrap();
    let lit: usize = frame.iter().filter(|pixel| **pixel).count();
    assert_eq!(lit, 16);
}

#[test]
fn test_clear_screen_blanks_the_frame() {
    let rom = words(&[
        0x60FF, 0xA340, 0xF055, 0x6100, 0x6200, 0xD121, // draw one row
        0x00E0, // clear
    ]);
    let (mut machine, frames) = machine_with(&rom);
    for _ in 0..7 {
        machine.cycle().unwrap();
    }
    let recorded = frames.borrow();
    let frame = recorded.last().unwrap();
    assert!(frame.iter().all(|pixel| !pixel));
    assert_eq!(frame.len(), WIDTH * 32);
}

#[test]
fn test_draw_reads_the_loaded_font() {
    // Draw glyph 0 (five rows of 0xF0 shapes) at (0, 0).
    let rom = words(&[
        0x6000, // V0 = 0
        0xF029, // I = glyph for V0
        0x6100, // V1 = 0
        0xD115, // draw 5 rows at (V1, V1)
    ]);
    let (mut machine, frames) = machine_with(&rom);
    for _ in 0..4 {
        machine.cycle().unwrap();
    }
    let recorded = frames.borrow();
    let frame = recorded.last().unwrap();
    // Glyph 0 is 0xF0, 0x90, 0x90, 0x90, 0xF0.
    let expected_rows: [u8; 5] = [0xF0, 0x90, 0x90, 0x90, 0xF0];
    for (row, bits) in expected_rows.iter().enumerate() {
        for column in 0..8 {
            let expected = bits & (0x80 >> column) != 0;
            assert_eq!(frame[row * WIDTH + column], expected);
        }
    }
}
