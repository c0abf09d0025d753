use chip8::display::{clear, draw_sprite, GFX_SIZE, GFX_SIZE_COL};
use chip8::font::CHIP8_FONTSET;
use chip8::keyboard::{keypad_index, ESCAPE_CHAR, STOP_CHAR};
use chip8::opcode::{decode, Instruction};
use chip8::{Chip8, ExecError, HostEvent, KeyBoard, LoadError, StepReport};

fn machine_with(program: &[u8]) -> Chip8 {
    let mut chip8 = Chip8::new();
    chip8.load_game(program).unwrap();
    chip8
}

#[test]
fn new_is_power_on_state() {
    let chip8 = Chip8::new();
    assert_eq!(&CHIP8_FONTSET[..], &chip8.memory[..80]);
    assert!(chip8.memory[80..].iter().all(|b| *b == 0));
    assert_eq!([0u8; 16], chip8.v);
    assert_eq!([0u16; 16], chip8.stack);
    assert_eq!([0u8; GFX_SIZE], chip8.gfx);
    assert_eq!(0x200, chip8.pc);
    assert_eq!(0, chip8.sp);
    assert_eq!(0, chip8.i);
    assert_eq!(0, chip8.delay_timer);
    assert_eq!(0, chip8.sound_timer);
    assert!(!chip8.draw_flag);
}

#[test]
fn load_game_copies_image_to_0x200() {
    let mut chip8 = Chip8::new();
    assert_eq!(Ok(()), chip8.load_game(&[0x12, 0x34, 0x56]));
    assert_eq!([0x12, 0x34, 0x56, 0x00], chip8.memory[0x200..0x204]);
    assert_eq!(0xF0, chip8.memory[0]);
    assert_eq!(0, chip8.memory[0x1FF]);
}

#[test]
fn load_game_accepts_largest_image() {
    let mut chip8 = Chip8::new();
    let image = vec![0xAB; 4096 - 0x200];
    assert_eq!(Ok(()), chip8.load_game(&image));
    assert_eq!(0xAB, chip8.memory[0x200]);
    assert_eq!(0xAB, chip8.memory[0xFFF]);
    assert_eq!(0, chip8.memory[0x1FF]);
}

#[test]
fn load_game_refuses_image_too_large() {
    let mut chip8 = Chip8::new();
    let image = vec![0xAB; 4096 - 0x200 + 1];
    assert_eq!(Err(LoadError::ImageTooLarge), chip8.load_game(&image));
    assert!(chip8.memory[0x200..].iter().all(|b| *b == 0));
}

#[test]
fn load_game_empty_image_changes_nothing() {
    let mut chip8 = Chip8::new();
    assert_eq!(Ok(()), chip8.load_game(&[]));
    assert!(chip8.memory[0x200..].iter().all(|b| *b == 0));
}

#[test]
fn decode_reads_every_field() {
    assert_eq!(Some(Instruction::ClearScreen), decode(0x00E0));
    assert_eq!(Some(Instruction::Return), decode(0x00EE));
    assert_eq!(Some(Instruction::Jump { addr: 0xABC }), decode(0x1ABC));
    assert_eq!(Some(Instruction::Call { addr: 0xFFF }), decode(0x2FFF));
    assert_eq!(Some(Instruction::SkipEqByte { x: 0xA, nn: 0xBC }), decode(0x3ABC));
    assert_eq!(Some(Instruction::SkipEqReg { x: 6, y: 7 }), decode(0x5670));
    assert_eq!(Some(Instruction::ShiftLeft { x: 1 }), decode(0x812E));
    assert_eq!(Some(Instruction::Draw { x: 1, y: 2, n: 5 }), decode(0xD125));
    assert_eq!(Some(Instruction::SkipKeyUp { x: 3 }), decode(0xE3A1));
    assert_eq!(Some(Instruction::LoadRegs { x: 0xF }), decode(0xFF65));
}

#[test]
fn decode_refuses_unknown_words() {
    for op in [
        0x0000u16, 0x00E1, 0x0123, 0x5671, 0x567F, 0x8008, 0x812F, 0x9671, 0xE19F, 0xE100, 0xF000,
        0xF1FF, 0xF156,
    ] {
        assert_eq!(None, decode(op), "word {:#06x}", op);
    }
}

#[test]
fn unknown_opcode_is_reported_with_the_word() {
    let mut chip8 = Chip8::new();
    let k = KeyBoard::new();
    assert_eq!(Err(ExecError::UnknownOpcode(0x5671)), chip8.decode_execute(0x5671, &k));
    assert_eq!(Err(ExecError::UnknownOpcode(0x8128)), chip8.decode_execute(0x8128, &k));
    assert_eq!(Err(ExecError::UnknownOpcode(0x0000)), chip8.decode_execute(0x0000, &k));
    assert_eq!(Err(ExecError::UnknownOpcode(0xE1FF)), chip8.decode_execute(0xE1FF, &k));
    assert_eq!(Err(ExecError::UnknownOpcode(0xF1FF)), chip8.decode_execute(0xF1FF, &k));
    assert_eq!(0x200, chip8.pc);
}

#[test]
fn load_byte_sets_register_and_advances_by_two() {
    for x in 0..16u8 {
        for nn in [0x00u8, 0x01, 0x7F, 0x80, 0xFF] {
            let mut chip8 = machine_with(&[0x60 + x, nn]);
            let k = KeyBoard::new();
            let report = chip8.emulate_cycle(&k).unwrap();
            assert_eq!(nn, chip8.v[x as usize]);
            assert_eq!(0x202, chip8.pc);
            assert_eq!(StepReport { framebuffer_changed: false, beep_edge: false }, report);
        }
    }
}

#[test]
fn add_with_carry_for_every_pair() {
    let k = KeyBoard::new();
    for vx in 0..=255u16 {
        for vy in [0u16, 1, 0x7F, 0x80, 0xFF, 255 - vx, (256 - vx) % 256] {
            let mut chip8 = machine_with(&[0x81, 0x24]);
            chip8.v[1] = vx as u8;
            chip8.v[2] = vy as u8;
            chip8.emulate_cycle(&k).unwrap();
            assert_eq!(((vx + vy) % 256) as u8, chip8.v[1]);
            assert_eq!(if vx + vy >= 256 { 1 } else { 0 }, chip8.v[0xF]);
        }
    }
}

#[test]
fn sub_with_borrow_for_every_pair() {
    let k = KeyBoard::new();
    for vx in 0..=255i32 {
        for vy in [0i32, 1, 0x7F, 0x80, 0xFF, vx, (vx + 1) % 256] {
            let mut chip8 = machine_with(&[0x81, 0x25]);
            chip8.v[1] = vx as u8;
            chip8.v[2] = vy as u8;
            chip8.emulate_cycle(&k).unwrap();
            assert_eq!((vx - vy).rem_euclid(256) as u8, chip8.v[1]);
            assert_eq!(if vx < vy { 1 } else { 0 }, chip8.v[0xF]);
        }
    }
}

#[test]
fn flag_register_as_destination_keeps_the_result() {
    let mut chip8 = Chip8::new();
    let k = KeyBoard::new();
    chip8.v[0xF] = 1;
    chip8.v[0] = 0;
    chip8.decode_execute(0x8F04, &k).unwrap();
    assert_eq!(1, chip8.v[0xF]);
    chip8.v[0xF] = 0xF0;
    chip8.v[0] = 0x20;
    chip8.decode_execute(0x8F04, &k).unwrap();
    assert_eq!(0x10, chip8.v[0xF]);
    chip8.v[0xF] = 0xFF;
    chip8.decode_execute(0x8F06, &k).unwrap();
    assert_eq!(0, chip8.v[0xF]);
    chip8.v[0xF] = 0xFF;
    chip8.decode_execute(0x8F0E, &k).unwrap();
    assert_eq!(2, chip8.v[0xF]);
}

#[test]
fn flag_register_as_operand_is_read_before_it_is_written() {
    let mut chip8 = Chip8::new();
    let k = KeyBoard::new();
    chip8.v[1] = 0xFF;
    chip8.v[0xF] = 0x02;
    chip8.decode_execute(0x81F4, &k).unwrap();
    assert_eq!(0x01, chip8.v[1]);
    assert_eq!(1, chip8.v[0xF]);
}

#[test]
fn store_then_load_restores_registers() {
    for x in 0..16usize {
        let mut chip8 = Chip8::new();
        let k = KeyBoard::new();
        chip8.i = 0x300;
        for j in 0..16 {
            chip8.v[j] = (0xA0 + j) as u8;
        }
        let saved = chip8.v;
        chip8.decode_execute(0xF055 | ((x as u16) << 8), &k).unwrap();
        for j in 0..=x {
            assert_eq!(saved[j], chip8.memory[0x300 + j]);
        }
        assert_eq!(0, chip8.memory[0x300 + x + 1]);
        chip8.v = [0; 16];
        chip8.decode_execute(0xF065 | ((x as u16) << 8), &k).unwrap();
        for j in 0..16 {
            assert_eq!(if j <= x { saved[j] } else { 0 }, chip8.v[j]);
        }
        assert_eq!(0x300, chip8.i);
        assert_eq!(0x204, chip8.pc);
    }
}

#[test]
fn clearing_twice_is_clearing_once() {
    let mut chip8 = Chip8::new();
    let k = KeyBoard::new();
    chip8.gfx = [1; GFX_SIZE];
    chip8.decode_execute(0x00E0, &k).unwrap();
    let once = chip8.gfx;
    chip8.decode_execute(0x00E0, &k).unwrap();
    assert_eq!(once, chip8.gfx);
    assert_eq!([0u8; GFX_SIZE], chip8.gfx);
    assert_eq!(0x204, chip8.pc);
}

#[test]
fn sixteen_calls_fit_and_the_seventeenth_overflows() {
    let mut chip8 = Chip8::new();
    let k = KeyBoard::new();
    for n in 0..16u16 {
        assert_eq!(Ok(()), chip8.decode_execute(0x2300 + n * 2, &k));
        assert_eq!(n + 1, chip8.sp);
        assert_eq!(0x300 + n * 2, chip8.pc);
    }
    assert_eq!(0x200, chip8.stack[0]);
    assert_eq!(0x300, chip8.stack[1]);
    assert_eq!(0x31C, chip8.stack[15]);
    let before_stack = chip8.stack;
    assert_eq!(Err(ExecError::StackOverflow), chip8.decode_execute(0x2400, &k));
    assert_eq!(16, chip8.sp);
    assert_eq!(0x31E, chip8.pc);
    assert_eq!(before_stack, chip8.stack);
}

#[test]
fn return_on_empty_stack_underflows() {
    let mut chip8 = Chip8::new();
    let k = KeyBoard::new();
    assert_eq!(Err(ExecError::StackUnderflow), chip8.decode_execute(0x00EE, &k));
    assert_eq!(0, chip8.sp);
    assert_eq!(0x200, chip8.pc);
}

#[test]
fn return_with_stack_pointer_beyond_the_stack_is_refused() {
    let mut chip8 = Chip8::new();
    let k = KeyBoard::new();
    chip8.sp = 17;
    assert_eq!(Err(ExecError::StackOverflow), chip8.decode_execute(0x00EE, &k));
    assert_eq!(Err(ExecError::StackOverflow), chip8.decode_execute(0x2300, &k));
    assert_eq!(17, chip8.sp);
    assert_eq!(0x200, chip8.pc);
}

#[test]
fn call_then_return_lands_after_the_call() {
    let mut chip8 = machine_with(&[0x23, 0x00]);
    chip8.memory[0x300] = 0x00;
    chip8.memory[0x301] = 0xEE;
    let k = KeyBoard::new();
    chip8.emulate_cycle(&k).unwrap();
    assert_eq!(0x300, chip8.pc);
    assert_eq!(1, chip8.sp);
    chip8.emulate_cycle(&k).unwrap();
    assert_eq!(0x202, chip8.pc);
    assert_eq!(0, chip8.sp);
}

#[test]
fn cycle_clears_a_lit_screen() {
    let mut chip8 = machine_with(&[0x00, 0xE0]);
    let k = KeyBoard::new();
    chip8.gfx = [1; GFX_SIZE];
    let report = chip8.emulate_cycle(&k).unwrap();
    assert_eq!([0u8; GFX_SIZE], chip8.gfx);
    assert!(report.framebuffer_changed);
    assert!(!report.beep_edge);
    assert_eq!(0x202, chip8.pc);
    assert!(chip8.draw_flag());
    assert!(!chip8.draw_flag());
}

#[test]
fn cycle_stores_decimal_digits() {
    let mut chip8 = machine_with(&[0xF5, 0x33]);
    let k = KeyBoard::new();
    chip8.i = 0x300;
    chip8.v[5] = 128;
    let report = chip8.emulate_cycle(&k).unwrap();
    assert_eq!([1, 2, 8], chip8.memory[0x300..0x303]);
    assert!(!report.framebuffer_changed);
    assert_eq!(0x202, chip8.pc);
}

#[test]
fn decimal_digits_of_edge_values() {
    let k = KeyBoard::new();
    for (value, digits) in [(0u8, [0u8, 0, 0]), (9, [0, 0, 9]), (10, [0, 1, 0]), (99, [0, 9, 9]),
        (100, [1, 0, 0]), (255, [2, 5, 5])]
    {
        let mut chip8 = Chip8::new();
        chip8.i = 0xFFD;
        chip8.v[0] = value;
        chip8.decode_execute(0xF033, &k).unwrap();
        assert_eq!(digits, chip8.memory[0xFFD..0x1000]);
    }
}

#[test]
fn cycle_draws_glyph_over_lit_region() {
    let mut chip8 = machine_with(&[0xD1, 0x25]);
    let k = KeyBoard::new();
    chip8.v[1] = 0x01;
    chip8.v[2] = 0x02;
    chip8.i = 0x8 * 5;
    for y in 0..10 {
        for x in 3..10 {
            chip8.gfx[y * GFX_SIZE_COL + x] = 1;
        }
    }
    let mut des = chip8.gfx;
    // Glyph 8 is F0 90 F0 90 F0: columns 1 to 4 of rows 2 to 6.
    for (row, bits) in [0xF0u8, 0x90, 0xF0, 0x90, 0xF0].iter().enumerate() {
        for col in 0..8 {
            if bits & (0x80 >> col) != 0 {
                des[(2 + row) * GFX_SIZE_COL + 1 + col] ^= 1;
            }
        }
    }
    let report = chip8.emulate_cycle(&k).unwrap();
    assert_eq!(des, chip8.gfx);
    assert_eq!(1, chip8.v[0xF]);
    assert_eq!(1, chip8.gfx[2 * GFX_SIZE_COL + 1]);
    assert_eq!(1, chip8.gfx[2 * GFX_SIZE_COL + 2]);
    assert_eq!(0, chip8.gfx[2 * GFX_SIZE_COL + 3]);
    assert_eq!(0, chip8.gfx[2 * GFX_SIZE_COL + 4]);
    assert_eq!(0, chip8.gfx[3 * GFX_SIZE_COL + 2]);
    assert_eq!(1, chip8.gfx[3 * GFX_SIZE_COL + 3]);
    assert!(report.framebuffer_changed);
    assert_eq!(0x202, chip8.pc);
    assert_eq!(0x28, chip8.i);
}

#[test]
fn draw_without_overlap_reports_no_collision() {
    let mut chip8 = Chip8::new();
    let k = KeyBoard::new();
    chip8.v[0xF] = 7;
    chip8.i = 0;
    chip8.decode_execute(0xD125, &k).unwrap();
    assert_eq!(0, chip8.v[0xF]);
    assert!(chip8.pixel(0, 0));
    assert!(chip8.pixel(3, 0));
    assert!(!chip8.pixel(4, 0));
    assert!(!chip8.pixel(1, 1));
    assert!(chip8.pixel(0, 4));
    assert!(!chip8.pixel(0, 5));
    assert!(chip8.draw_flag);
}

#[test]
fn draw_wraps_around_both_edges() {
    let mut chip8 = Chip8::new();
    let k = KeyBoard::new();
    chip8.memory[0x300] = 0xFF;
    chip8.memory[0x301] = 0x81;
    chip8.i = 0x300;
    chip8.v[0] = 60;
    chip8.v[1] = 31;
    chip8.decode_execute(0xD012, &k).unwrap();
    let mut des = [0u8; GFX_SIZE];
    for x in [60, 61, 62, 63, 0, 1, 2, 3] {
        des[31 * GFX_SIZE_COL + x] = 1;
    }
    des[60] = 1;
    des[3] = 1;
    assert_eq!(des, chip8.gfx);
    assert_eq!(0, chip8.v[0xF]);
}

#[test]
fn draw_takes_coordinates_modulo_the_screen() {
    let mut a = Chip8::new();
    let mut b = Chip8::new();
    let k = KeyBoard::new();
    a.v[0] = 64 + 5;
    a.v[1] = 32 * 3 + 7;
    b.v[0] = 5;
    b.v[1] = 7;
    a.decode_execute(0xD015, &k).unwrap();
    b.decode_execute(0xD015, &k).unwrap();
    assert_eq!(a.gfx, b.gfx);
    assert_eq!(1, a.gfx[7 * GFX_SIZE_COL + 5]);
}

#[test]
fn drawing_a_sprite_twice_erases_it_and_collides() {
    let mut chip8 = Chip8::new();
    let k = KeyBoard::new();
    chip8.i = 0xA * 5;
    chip8.v[0] = 10;
    chip8.v[1] = 10;
    chip8.decode_execute(0xD015, &k).unwrap();
    assert_eq!(0, chip8.v[0xF]);
    chip8.decode_execute(0xD015, &k).unwrap();
    assert_eq!(1, chip8.v[0xF]);
    assert_eq!([0u8; GFX_SIZE], chip8.gfx);
}

#[test]
fn draw_of_zero_rows_changes_no_pixel() {
    let mut chip8 = Chip8::new();
    let k = KeyBoard::new();
    chip8.i = 0x1000;
    chip8.v[0xF] = 9;
    assert_eq!(Ok(()), chip8.decode_execute(0xD010, &k));
    assert_eq!([0u8; GFX_SIZE], chip8.gfx);
    assert_eq!(0, chip8.v[0xF]);
    assert!(chip8.draw_flag);
}

#[test]
fn draw_sprite_and_clear_on_a_bare_framebuffer() {
    let mut gfx = [0u8; GFX_SIZE];
    let mut memory = [0u8; 4096];
    memory[10] = 0b1010_0000;
    assert!(!draw_sprite(&mut gfx, &memory, 10, 0, 0, 1));
    assert_eq!([1, 0, 1, 0], gfx[0..4]);
    memory[10] = 0b1100_0000;
    assert!(draw_sprite(&mut gfx, &memory, 10, 0, 0, 1));
    assert_eq!([0, 1, 1, 0], gfx[0..4]);
    clear(&mut gfx);
    assert_eq!([0u8; GFX_SIZE], gfx);
}

#[test]
fn memory_faults_leave_the_machine_unchanged() {
    let k = KeyBoard::new();
    for (opcode, i) in [(0xD015u16, 0xFFCu16), (0xF033, 0xFFE), (0xF355, 0xFFD), (0xF365, 0xFFD),
        (0xD011, 0x1000), (0xF055, 0x1000), (0xF065, 0xFFFF)]
    {
        let mut chip8 = Chip8::new();
        chip8.i = i;
        chip8.v[0] = 3;
        chip8.v[3] = 0x42;
        let memory = chip8.memory;
        assert_eq!(Err(ExecError::MemoryOutOfBounds), chip8.decode_execute(opcode, &k));
        assert_eq!(memory, chip8.memory);
        assert_eq!([0u8; GFX_SIZE], chip8.gfx);
        assert_eq!(0x200, chip8.pc);
        assert_eq!(0x42, chip8.v[3]);
        assert!(!chip8.draw_flag);
    }
}

#[test]
fn memory_accesses_at_the_last_address_succeed() {
    let k = KeyBoard::new();
    for (opcode, i) in [(0xD015u16, 0xFFBu16), (0xF033, 0xFFD), (0xF355, 0xFFC), (0xF365, 0xFFC)] {
        let mut chip8 = Chip8::new();
        chip8.i = i;
        assert_eq!(Ok(()), chip8.decode_execute(opcode, &k));
        assert_eq!(0x202, chip8.pc);
    }
}

#[test]
fn fetch_outside_memory_is_refused() {
    let k = KeyBoard::new();
    for pc in [0xFFFu16, 0x1000, 0xFFFF] {
        let mut chip8 = Chip8::new();
        chip8.pc = pc;
        chip8.delay_timer = 5;
        assert_eq!(None, chip8.fetch());
        assert_eq!(Err(ExecError::MemoryOutOfBounds), chip8.emulate_cycle(&k));
        assert_eq!(pc, chip8.pc);
        assert_eq!(5, chip8.delay_timer);
    }
    let mut chip8 = Chip8::new();
    chip8.pc = 0xFFE;
    chip8.memory[0xFFE] = 0x12;
    chip8.memory[0xFFF] = 0x34;
    assert_eq!(Some(0x1234), chip8.fetch());
    assert_eq!(Ok(StepReport { framebuffer_changed: false, beep_edge: false }), chip8.emulate_cycle(&k));
    assert_eq!(0x234, chip8.pc);
}

#[test]
fn glyph_address_and_invalid_sprite_index() {
    let k = KeyBoard::new();
    for c in 0..=0xFu8 {
        let mut chip8 = Chip8::new();
        chip8.v[4] = c;
        chip8.decode_execute(0xF429, &k).unwrap();
        assert_eq!(c as u16 * 5, chip8.i);
    }
    let mut chip8 = Chip8::new();
    chip8.v[4] = 0x10;
    chip8.i = 0x123;
    assert_eq!(Err(ExecError::InvalidSpriteIndex), chip8.decode_execute(0xF429, &k));
    assert_eq!(0x123, chip8.i);
    assert_eq!(0x200, chip8.pc);
}

#[test]
fn failed_cycle_leaves_timers_alone() {
    let mut chip8 = machine_with(&[0x00, 0x00]);
    let k = KeyBoard::new();
    chip8.delay_timer = 3;
    chip8.sound_timer = 1;
    assert_eq!(Err(ExecError::UnknownOpcode(0x0000)), chip8.emulate_cycle(&k));
    assert_eq!(3, chip8.delay_timer);
    assert_eq!(1, chip8.sound_timer);
    assert_eq!(0x200, chip8.pc);
}

#[test]
fn timers_count_down_and_stop_at_zero() {
    let mut chip8 = machine_with(&[0x12, 0x00]);
    let k = KeyBoard::new();
    chip8.delay_timer = 2;
    chip8.sound_timer = 3;
    let mut beeps = Vec::new();
    for _ in 0..5 {
        beeps.push(chip8.emulate_cycle(&k).unwrap().beep_edge);
    }
    assert_eq!(vec![false, false, true, false, false], beeps);
    assert_eq!(0, chip8.delay_timer);
    assert_eq!(0, chip8.sound_timer);
}

#[test]
fn timer_set_by_an_instruction_counts_down_in_the_same_cycle() {
    let mut chip8 = machine_with(&[0xF1, 0x18, 0xF2, 0x15, 0xF3, 0x07]);
    let k = KeyBoard::new();
    chip8.v[1] = 1;
    chip8.v[2] = 9;
    let report = chip8.emulate_cycle(&k).unwrap();
    assert!(report.beep_edge);
    assert_eq!(0, chip8.sound_timer);
    chip8.emulate_cycle(&k).unwrap();
    assert_eq!(8, chip8.delay_timer);
    chip8.emulate_cycle(&k).unwrap();
    assert_eq!(8, chip8.v[3]);
    assert_eq!(7, chip8.delay_timer);
}

#[test]
fn step_uses_the_given_random_byte() {
    let k = KeyBoard::new();
    let mut chip8 = machine_with(&[0xC3, 0x0F]);
    assert_eq!(Ok(StepReport { framebuffer_changed: false, beep_edge: false }), chip8.step(&k, 0xA5));
    assert_eq!(0x05, chip8.v[3]);
    assert_eq!(0x202, chip8.pc);
    let mut chip8 = Chip8::new();
    chip8.execute(0xC3F0, &k, 0xA5).unwrap();
    assert_eq!(0xA0, chip8.v[3]);
}

#[test]
fn random_byte_is_masked_and_varies() {
    let k = KeyBoard::new();
    let mut seen = [false; 256];
    for _ in 0..4000 {
        let mut chip8 = machine_with(&[0xC0, 0xFF]);
        chip8.emulate_cycle(&k).unwrap();
        seen[chip8.v[0] as usize] = true;
    }
    assert!(seen.iter().filter(|s| **s).count() > 128);
    for _ in 0..100 {
        let mut chip8 = Chip8::new();
        chip8.decode_execute(0xC0F0, &k).unwrap();
        assert_eq!(0, chip8.v[0] & 0x0F);
    }
}

#[test]
fn wait_key_takes_the_lowest_pressed_key() {
    let mut chip8 = Chip8::new();
    let mut k = KeyBoard::new();
    k.key[0xC] = 1;
    k.key[0x3] = 0xFF;
    k.key[0xF] = 1;
    chip8.decode_execute(0xF10A, &k).unwrap();
    assert_eq!(3, chip8.v[1]);
    assert_eq!(0x202, chip8.pc);
}

#[test]
fn waiting_cycle_refetches_the_same_instruction() {
    let mut chip8 = machine_with(&[0xF1, 0x0A]);
    let mut k = KeyBoard::new();
    chip8.delay_timer = 2;
    for _ in 0..3 {
        chip8.emulate_cycle(&k).unwrap();
        assert_eq!(0x200, chip8.pc);
    }
    assert_eq!(0, chip8.delay_timer);
    k.key[0] = 1;
    chip8.v[1] = 9;
    chip8.emulate_cycle(&k).unwrap();
    assert_eq!(0, chip8.v[1]);
    assert_eq!(0x202, chip8.pc);
}

#[test]
fn key_number_above_the_keypad_is_never_pressed() {
    let mut chip8 = Chip8::new();
    let mut k = KeyBoard::new();
    k.key = [1; 16];
    chip8.v[1] = 0x10;
    chip8.decode_execute(0xE19E, &k).unwrap();
    assert_eq!(0x202, chip8.pc);
    chip8.decode_execute(0xE1A1, &k).unwrap();
    assert_eq!(0x206, chip8.pc);
    chip8.v[1] = 0xFF;
    chip8.decode_execute(0xE19E, &k).unwrap();
    assert_eq!(0x208, chip8.pc);
}

#[test]
fn index_and_program_counter_wrap_at_sixteen_bits() {
    let mut chip8 = Chip8::new();
    let k = KeyBoard::new();
    chip8.i = 0xFFFF;
    chip8.v[3] = 2;
    chip8.decode_execute(0xF31E, &k).unwrap();
    assert_eq!(1, chip8.i);
    chip8.pc = 0xFFFF;
    chip8.decode_execute(0x6000, &k).unwrap();
    assert_eq!(1, chip8.pc);
    chip8.v[0] = 0xFF;
    chip8.decode_execute(0xBFFF, &k).unwrap();
    assert_eq!(0x10FE, chip8.pc);
}

#[test]
fn dump_copies_the_state() {
    let image: Vec<u8> = (0..0x80u8).collect();
    let mut chip8 = machine_with(&image);
    chip8.v[3] = 0x33;
    chip8.stack[2] = 0x456;
    chip8.sp = 3;
    chip8.i = 0x789;
    chip8.pc = 0x20A;
    chip8.delay_timer = 4;
    chip8.sound_timer = 5;
    let s = chip8.dump();
    assert_eq!(&image[..0x70], &s.memory[..]);
    assert_eq!(chip8.v, s.v);
    assert_eq!(chip8.stack, s.stack);
    assert_eq!((3, 0x789, 0x20A, 4, 5), (s.sp, s.i, s.pc, s.delay_timer, s.sound_timer));
    assert_eq!(0x20A, chip8.pc);
}

#[test]
fn draw_flag_reads_and_lowers() {
    let mut chip8 = Chip8::new();
    let k = KeyBoard::new();
    assert!(!chip8.draw_flag());
    chip8.decode_execute(0xD001, &k).unwrap();
    assert!(chip8.draw_flag());
    assert!(!chip8.draw_flag());
    chip8.decode_execute(0x6000, &k).unwrap();
    assert!(!chip8.draw_flag());
}

#[test]
fn keyboard_new_is_released() {
    let k = KeyBoard::new();
    assert!(!k.fin_flag);
    assert_eq!([0u8; 16], k.key);
}

#[test]
fn keypad_layout() {
    let layout = [
        ('x', 0x0), ('1', 0x1), ('2', 0x2), ('3', 0x3), ('q', 0x4), ('w', 0x5), ('e', 0x6),
        ('a', 0x7), ('s', 0x8), ('d', 0x9), ('z', 0xA), ('c', 0xB), ('4', 0xC), ('r', 0xD),
        ('f', 0xE), ('v', 0xF),
    ];
    for (c, key) in layout {
        assert_eq!(Some(key), keypad_index(c));
    }
    for c in ['X', '5', ' ', '0', 'p', ESCAPE_CHAR] {
        assert_eq!(None, keypad_index(c));
    }
}

#[test]
fn stroke_replaces_the_latch() {
    let mut k = KeyBoard::new();
    assert!(!k.set_stroke(Some('q')));
    let mut expected = [0u8; 16];
    expected[4] = 1;
    assert_eq!(expected, k.key);
    assert!(!k.set_stroke(Some('v')));
    let mut expected = [0u8; 16];
    expected[0xF] = 1;
    assert_eq!(expected, k.key);
    assert!(!k.set_stroke(Some('p')));
    assert_eq!([0u8; 16], k.key);
    k.key[2] = 1;
    assert!(!k.set_stroke(None));
    assert_eq!([0u8; 16], k.key);
    assert!(!k.fin_flag);
    k.key[2] = 1;
    assert!(k.set_stroke(Some(STOP_CHAR)));
    assert!(k.fin_flag);
    assert_eq!([0u8; 16], k.key);
    assert!(!k.set_stroke(Some('1')));
    assert!(k.fin_flag);
}

#[test]
fn events_press_and_release_single_keys() {
    let mut k = KeyBoard::new();
    k.apply(HostEvent::KeyDown('w'));
    k.apply(HostEvent::KeyDown('x'));
    let mut expected = [0u8; 16];
    expected[5] = 1;
    expected[0] = 1;
    assert_eq!(expected, k.key);
    k.apply(HostEvent::KeyUp('w'));
    expected[5] = 0;
    assert_eq!(expected, k.key);
    k.apply(HostEvent::KeyDown('p'));
    k.apply(HostEvent::KeyUp('p'));
    assert_eq!(expected, k.key);
    assert!(!k.fin_flag);
    k.apply(HostEvent::KeyUp(ESCAPE_CHAR));
    assert!(!k.fin_flag);
    k.apply(HostEvent::KeyDown(ESCAPE_CHAR));
    assert!(k.fin_flag);
    assert_eq!(expected, k.key);
    let mut k = KeyBoard::new();
    k.apply(HostEvent::Quit);
    assert!(k.fin_flag);
    assert_eq!([0u8; 16], k.key);
}
