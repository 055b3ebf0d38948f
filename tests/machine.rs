use chip8::{Chip8, ExecutionError, Key, RAM_SIZE, SCREEN_HEIGHT, SCREEN_SIZE, SCREEN_WIDTH};

const ORIGIN: u16 = 0x200;

fn words(ops: &[u16]) -> Vec<u8> {
    let mut bytes = Vec::new();
    for op in ops {
        bytes.push((op >> 8) as u8);
        bytes.push((op & 0xFF) as u8);
    }
    bytes
}

fn machine(program: &[u8]) -> Chip8 {
    let mut c = Chip8::new(ORIGIN);
    c.load_program(program);
    c
}

fn ticks(c: &mut Chip8, n: usize) {
    for _ in 0..n {
        assert!(c.can_clock());
        assert_eq!(c.clock_with_random(0), Ok(()));
    }
}

/// Runs `ops`, then stores V0..VF at 0x300 and returns them.
fn registers_after(ops: &[u16]) -> Vec<u8> {
    let mut all = ops.to_vec();
    all.push(0xA300);
    all.push(0xFF55);
    let mut c = machine(&words(&all));
    ticks(&mut c, all.len());
    c.get_ram()[0x300..0x310].to_vec()
}

#[test]
fn load_immediate_sets_register() {
    for x in 0..16u16 {
        let r = registers_after(&[0x6000 | (x << 8) | 0xAB]);
        assert_eq!(r[x as usize], 0xAB);
    }
}

#[test]
fn add_with_carry_sets_flag() {
    let r = registers_after(&[0x61C8, 0x6264, 0x8124]);
    assert_eq!(r[1], 44);
    assert_eq!(r[0xF], 1);
}

#[test]
fn add_without_carry_clears_flag() {
    let r = registers_after(&[0x6F01, 0x6114, 0x621E, 0x8124]);
    assert_eq!(r[1], 50);
    assert_eq!(r[0xF], 0);
}

#[test]
fn add_exactly_255_has_no_carry() {
    let r = registers_after(&[0x61FF, 0x6200, 0x8124]);
    assert_eq!(r[1], 255);
    assert_eq!(r[0xF], 0);
}

#[test]
fn subtract_sets_flag_when_no_borrow() {
    let r = registers_after(&[0x611E, 0x620A, 0x8125]);
    assert_eq!(r[1], 20);
    assert_eq!(r[0xF], 1);
}

#[test]
fn subtract_with_borrow_wraps() {
    let r = registers_after(&[0x610A, 0x621E, 0x8125]);
    assert_eq!(r[1], 236);
    assert_eq!(r[0xF], 0);
}

#[test]
fn subtract_equal_values_clears_flag() {
    let r = registers_after(&[0x6180, 0x6280, 0x8125]);
    assert_eq!(r[1], 0);
    assert_eq!(r[0xF], 0);
}

#[test]
fn shift_right_moves_low_bit_to_flag() {
    let r = registers_after(&[0x6105, 0x8126]);
    assert_eq!(r[1], 2);
    assert_eq!(r[0xF], 1);
    let r = registers_after(&[0x6104, 0x8106]);
    assert_eq!(r[1], 2);
    assert_eq!(r[0xF], 0);
}

#[test]
fn shift_left_keeps_high_bit_unnormalized() {
    let r = registers_after(&[0x61C1, 0x810E]);
    assert_eq!(r[1], 0x82);
    assert_eq!(r[0xF], 0x80);
}

#[test]
fn reverse_subtract_compares_unsigned_bytes() {
    // Vy = 0x10, Vx = 0xF0: Vy < Vx.
    let r = registers_after(&[0x61F0, 0x6210, 0x8127]);
    assert_eq!(r[1], 0x20);
    assert_eq!(r[0xF], 0);
    // Vy = 0x80, Vx = 1: Vy > Vx.
    let r = registers_after(&[0x6101, 0x6280, 0x8127]);
    assert_eq!(r[1], 0x7F);
    assert_eq!(r[0xF], 1);
    // Vy = 0x7F, Vx = 0xFF wraps without overflow.
    let r = registers_after(&[0x61FF, 0x627F, 0x8127]);
    assert_eq!(r[1], 0x80);
    assert_eq!(r[0xF], 0);
    // Vy = 5, Vx = 3.
    let r = registers_after(&[0x6103, 0x6205, 0x8127]);
    assert_eq!(r[1], 2);
    assert_eq!(r[0xF], 1);
    // Vy = 3, Vx = 5.
    let r = registers_after(&[0x6105, 0x6203, 0x8127]);
    assert_eq!(r[1], 254);
    assert_eq!(r[0xF], 0);
}

#[test]
fn logic_operations() {
    let r = registers_after(&[0x61CC, 0x62AA, 0x8320, 0x8311, 0x6455, 0x8422, 0x65F0, 0x8523]);
    assert_eq!(r[1], 0xCC);
    assert_eq!(r[3], 0xCC | 0xAA);
    assert_eq!(r[4], 0x55 & 0xAA);
    assert_eq!(r[5], 0xF0 ^ 0xAA);
}

#[test]
fn add_immediate_wraps_without_flag() {
    let r = registers_after(&[0x6F07, 0x61F0, 0x7120]);
    assert_eq!(r[1], 0x10);
    assert_eq!(r[0xF], 7);
}

#[test]
fn bcd_of_234() {
    let mut c = machine(&words(&[0x65EA, 0xA300, 0xF533]));
    ticks(&mut c, 3);
    let ram = c.get_ram();
    assert_eq!(ram[0x300], 2);
    assert_eq!(ram[0x301], 3);
    assert_eq!(ram[0x302], 4);
}

#[test]
fn bcd_of_small_values() {
    let mut c = machine(&words(&[0x6507, 0xA300, 0xF533]));
    ticks(&mut c, 3);
    assert_eq!(&c.get_ram()[0x300..0x303], &[0, 0, 7]);
}

#[test]
fn store_then_load_round_trip() {
    let ops = [
        0x6011, 0x6122, 0x6233, 0x6344, // V0..V3
        0xA400, 0xF355, // store V0..V3 at 0x400
        0x6000, 0x6100, 0x6200, 0x6300, // zero V0..V3
        0xA400, 0xF365, // load them back
        0xA500, 0xF355, // store again at 0x500 to observe
    ];
    let mut c = machine(&words(&ops));
    ticks(&mut c, ops.len());
    let ram = c.get_ram();
    assert_eq!(&ram[0x400..0x404], &[0x11, 0x22, 0x33, 0x44]);
    assert_eq!(&ram[0x500..0x504], &[0x11, 0x22, 0x33, 0x44]);
    assert_eq!(ram[0x404], 0);
}

#[test]
fn draw_clips_at_right_edge() {
    // V0 = 60, V1 = 0, I = 0x20A, draw one row; the sprite byte 0xFF follows.
    let mut program = words(&[0x603C, 0x6100, 0xA20A, 0xD011, 0x1208]);
    program.push(0xFF);
    let mut c = machine(&program);
    c.get_display().set_is_updated(false);
    ticks(&mut c, 4);
    let display = c.get_display();
    assert!(display.is_updated());
    let data = display.data();
    assert_eq!(data.len(), SCREEN_SIZE);
    for i in 0..SCREEN_SIZE {
        let expected = if i >= 60 && i < 64 { 1 } else { 0 };
        assert_eq!(data[i], expected, "cell {}", i);
    }
}

/// Draws `sprite` at (0, 0), then skips `6A01` when VF == 1.
fn flag_after_draw(sprite: u8) -> u16 {
    let mut program = words(&[0xA20A, 0xD011, 0x3F01, 0x6A01, 0x6B02]);
    program.push(sprite);
    let mut c = machine(&program);
    ticks(&mut c, 4);
    c.get_last_instruction().raw()
}

#[test]
fn draw_flag_reflects_only_the_last_pixel() {
    // The last pixel of 0x81 is on: VF == 0, no skip.
    assert_eq!(flag_after_draw(0x81), 0x6A01);
    // The last pixel of 0x80 stays off: VF == 1, skip.
    assert_eq!(flag_after_draw(0x80), 0x6B02);
}

#[test]
fn drawing_twice_erases() {
    let mut program = words(&[0xA206, 0xD001, 0xD001]);
    program.push(0xC3);
    let mut c = machine(&program);
    ticks(&mut c, 2);
    assert_eq!(&c.get_display().data()[0..8], &[1, 1, 0, 0, 0, 0, 1, 1]);
    ticks(&mut c, 1);
    assert!(c.get_display().data().iter().all(|b| *b == 0));
}

#[test]
fn draw_clips_at_bottom_edge() {
    // V1 = 31: of a two-row sprite only the first row lands.
    let mut program = words(&[0x6000, 0x611F, 0xA20A, 0xD012, 0x1208]);
    program.push(0x80);
    program.push(0x80);
    let mut c = machine(&program);
    ticks(&mut c, 4);
    let data = c.get_display().data();
    assert_eq!(data[31 * 64], 1);
    assert_eq!(data[0], 0);
    assert_eq!(data.iter().filter(|b| **b != 0).count(), 1);
}

#[test]
fn clear_screen_blanks_and_marks_dirty() {
    let mut program = words(&[0xA206, 0xD001, 0x00E0]);
    program.push(0xFF);
    let mut c = machine(&program);
    ticks(&mut c, 2);
    assert!(c.get_display().data().iter().any(|b| *b != 0));
    c.get_display().set_is_updated(false);
    ticks(&mut c, 1);
    let display = c.get_display();
    assert!(display.is_updated());
    assert!(display.data().iter().all(|b| *b == 0));
    assert!(display.is_empty(0, 0));
}

#[test]
fn call_then_return_resumes_after_call() {
    let mut c = machine(&words(&[0x2206, 0x6A07, 0x0000, 0x00EE]));
    ticks(&mut c, 2);
    assert_eq!(c.get_last_instruction().raw(), 0x00EE);
    ticks(&mut c, 1);
    assert_eq!(c.get_last_instruction().raw(), 0x6A07);
}

#[test]
fn wait_for_key_blocks_then_resolves() {
    let mut c = machine(&words(&[0xF30A, 0xA300, 0xF355]));
    for _ in 0..5 {
        ticks(&mut c, 1);
        assert_eq!(c.get_last_instruction().raw(), 0xF30A);
    }
    c.set_key_pressed(Key::Key5, true);
    assert!(c.is_key_pressed(Key::Key5));
    ticks(&mut c, 1);
    assert_eq!(c.get_last_instruction().raw(), 0xF30A);
    c.set_key_pressed(Key::Key5, false);
    assert!(!c.is_key_pressed(Key::Key5));
    // The first tick sees the release, the second commits the key.
    ticks(&mut c, 2);
    assert_eq!(c.get_last_instruction().raw(), 0xF30A);
    ticks(&mut c, 1);
    assert_eq!(c.get_last_instruction().raw(), 0xA300);
    ticks(&mut c, 1);
    assert_eq!(c.get_ram()[0x303], 5);
}

#[test]
fn group_five_with_nonzero_low_nibble_is_a_skip() {
    let mut c = machine(&words(&[0x5001, 0x6A01, 0x6B02]));
    assert_eq!(c.clock_with_random(0), Ok(()));
    assert_eq!(c.clock_with_random(0), Ok(()));
    assert_eq!(c.get_last_instruction().raw(), 0x6B02);
}

#[test]
fn unknown_opcodes_in_groups_e_and_f_fail() {
    let mut c = machine(&words(&[0xE0FF]));
    assert_eq!(c.clock(), Err(ExecutionError::UnknownOpCode(0xE0FF, ORIGIN)));
    let mut c = machine(&words(&[0x6000, 0xF0FF]));
    ticks(&mut c, 1);
    assert_eq!(c.clock(), Err(ExecutionError::UnknownOpCode(0xF0FF, ORIGIN + 2)));
    assert_eq!(c.get_last_instruction().raw(), 0xF0FF);
}

#[test]
fn unmapped_codes_in_groups_zero_and_eight_are_ignored() {
    let r = registers_after(&[0x6105, 0x0123, 0x812F]);
    assert_eq!(r[1], 5);
    assert_eq!(r[0xF], 0);
}

#[test]
fn skips_on_register_comparisons() {
    let mut c = machine(&words(&[0x6105, 0x3105, 0x0000, 0x4106, 0x0000, 0x6205, 0x9120, 0x6A0A]));
    ticks(&mut c, 5);
    assert_eq!(c.get_last_instruction().raw(), 0x9120);
    ticks(&mut c, 1);
    assert_eq!(c.get_last_instruction().raw(), 0x6A0A);
}

#[test]
fn jumps() {
    let mut c = machine(&words(&[0x1206, 0x0000, 0x0000, 0x6004, 0xB208, 0x0000, 0x6A01]));
    ticks(&mut c, 3);
    assert_eq!(c.get_last_instruction().raw(), 0xB208);
    ticks(&mut c, 1);
    assert_eq!(c.get_last_instruction().raw(), 0x6A01);
}

#[test]
fn random_byte_is_masked() {
    let mut c = machine(&words(&[0xC10F, 0xA300, 0xF155]));
    assert_eq!(c.clock_with_random(0xAB), Ok(()));
    ticks(&mut c, 2);
    assert_eq!(c.get_ram()[0x301], 0x0B);
    let mut c = machine(&words(&[0xC100, 0xA300, 0xF155]));
    assert_eq!(c.clock(), Ok(()));
    ticks(&mut c, 2);
    assert_eq!(c.get_ram()[0x301], 0);
}

#[test]
fn timers_count_down_each_tick() {
    let mut c = machine(&words(&[0x6103, 0xF115, 0xF118, 0xF207, 0xA300, 0xF255]));
    ticks(&mut c, 3);
    assert!(c.play_sound());
    ticks(&mut c, 3);
    // Delay was 3 after the second tick, 2 after the third and 1 when Fx07
    // ran; the sound timer ran out on the sixth tick.
    assert_eq!(c.get_ram()[0x302], 1);
    assert!(!c.play_sound());
}

#[test]
fn sound_stops_when_timer_runs_out() {
    let mut c = machine(&words(&[0x6101, 0xF118, 0x1204]));
    ticks(&mut c, 2);
    assert!(c.play_sound());
    ticks(&mut c, 1);
    assert!(!c.play_sound());
}

#[test]
fn index_register_operations() {
    let mut c = machine(&words(&[0x6003, 0xF029, 0x6A2A, 0xF055]));
    ticks(&mut c, 4);
    // I = 3 * 5 = 15: V0 is stored there.
    assert_eq!(c.get_ram()[15], 3);
    let mut c = machine(&words(&[0x6110, 0xA300, 0xF11E, 0xF155]));
    ticks(&mut c, 4);
    assert_eq!(c.get_ram()[0x310], 0);
    assert_eq!(c.get_ram()[0x311], 0x10);
}

#[test]
fn key_skips() {
    let mut c = machine(&words(&[0x6107, 0xE19E, 0x0000, 0xE1A1, 0x6A01]));
    c.set_key_pressed(Key::Key7, true);
    ticks(&mut c, 3);
    assert_eq!(c.get_last_instruction().raw(), 0xE1A1);
    ticks(&mut c, 1);
    assert_eq!(c.get_last_instruction().raw(), 0x6A01);
}

#[test]
fn stack_overflow_is_refused() {
    // Each instruction calls itself.
    let mut c = machine(&words(&[0x2200]));
    ticks(&mut c, 16);
    assert!(!c.can_clock());
}

#[test]
fn return_on_empty_stack_is_refused() {
    let c = machine(&words(&[0x00EE]));
    assert!(!c.can_clock());
}

#[test]
fn fetch_past_memory_is_refused() {
    let mut c = machine(&words(&[0x1FFF]));
    ticks(&mut c, 1);
    assert!(!c.can_clock());
}

#[test]
fn new_machine_state() {
    let mut c = Chip8::new(ORIGIN);
    assert_eq!(c.get_ram().len(), RAM_SIZE);
    assert!(c.get_ram().iter().all(|b| *b == 0));
    assert!(!c.play_sound());
    assert_eq!(c.get_last_instruction().raw(), 0);
    let d = c.get_display();
    assert_eq!(d.width(), SCREEN_WIDTH);
    assert_eq!(d.height(), SCREEN_HEIGHT);
    assert!(d.is_updated());
}

#[test]
fn reset_clears_memory_and_restarts() {
    let mut c = machine(&words(&[0x6A05, 0x1202]));
    ticks(&mut c, 2);
    c.set_key_pressed(Key::A, true);
    c.reset();
    assert!(c.get_ram().iter().all(|b| *b == 0));
    assert!(!c.is_key_pressed(Key::A));
    assert!(c.get_display().is_updated());
    c.load_program(&words(&[0x6B01]));
    ticks(&mut c, 1);
    assert_eq!(c.get_last_instruction().raw(), 0x6B01);
}

#[test]
fn reset_ends_a_pending_key_wait() {
    let mut c = machine(&words(&[0xF00A]));
    ticks(&mut c, 1);
    c.reset();
    // A key going down after the reset is not taken by a stale wait: the
    // next Fx0A starts a fresh wait and keeps blocking.
    c.load_program(&words(&[0xF00A, 0x6A01]));
    c.set_key_pressed(Key::Key5, true);
    c.set_key_pressed(Key::Key5, false);
    ticks(&mut c, 3);
    assert_eq!(c.get_last_instruction().raw(), 0xF00A);
}

#[test]
fn load_program_copies_bytes_at_origin() {
    let c = machine(&[1, 2, 3]);
    assert_eq!(&c.get_ram()[0x1FF..0x204], &[0, 1, 2, 3, 0]);
}
