use chip8::instruction::Instruction;
use chip8::machine::{Chip8, Chip8Error, Effect};
use chip8::timer::{DelayTimer, MainTimer};

const NO_KEYS: [bool; 16] = [false; 16];
const SECOND: u64 = 1_000_000_000;

fn run(program: &[u8], cycles: usize) -> Chip8 {
    let mut m = Chip8::new(program);
    for _ in 0..cycles {
        m.step(&NO_KEYS, 0, 0).unwrap();
    }
    m
}

fn lit_pixels(m: &Chip8) -> usize {
    let mut n = 0;
    for x in 0..64 {
        for y in 0..32 {
            if m.pixel(x, y) {
                n += 1;
            }
        }
    }
    n
}

#[test]
fn load_sets_register() {
    let m = run(&[0x6A, 0x42], 1);
    assert_eq!(m.register(0xA), 0x42);
    assert_eq!(m.program_counter(), 0x202);
}

#[test]
fn add_immediate_wraps_and_keeps_vf() {
    let m = run(&[0x6F, 0x07, 0x61, 0xFF, 0x71, 0x02], 3);
    assert_eq!(m.register(1), 0x01);
    assert_eq!(m.register(0xF), 0x07);
}

#[test]
fn add_with_carry_sets_flag() {
    let m = run(&[0x60, 0xFF, 0x61, 0x01, 0x80, 0x14], 3);
    assert_eq!(m.register(0), 0x00);
    assert_eq!(m.register(0xF), 1);
    let m = run(&[0x60, 0x01, 0x61, 0x01, 0x80, 0x14], 3);
    assert_eq!(m.register(0), 0x02);
    assert_eq!(m.register(0xF), 0);
}

#[test]
fn sub_with_borrow_sets_flag() {
    let m = run(&[0x60, 0x01, 0x61, 0x02, 0x80, 0x15], 3);
    assert_eq!(m.register(0), 0xFF);
    assert_eq!(m.register(0xF), 1);
    let m = run(&[0x60, 0x01, 0x61, 0x03, 0x80, 0x17], 3);
    assert_eq!(m.register(0), 0x02);
    assert_eq!(m.register(0xF), 0);
}

#[test]
fn shift_right_moves_low_bit_to_vf() {
    let m = run(&[0x60, 0x03, 0x80, 0x06], 2);
    assert_eq!(m.register(0), 0x01);
    assert_eq!(m.register(0xF), 1);
}

#[test]
fn shift_left_moves_high_bit_to_vf() {
    let m = run(&[0x60, 0x81, 0x80, 0x0E], 2);
    assert_eq!(m.register(0), 0x02);
    assert_eq!(m.register(0xF), 1);
}

#[test]
fn bitwise_operations() {
    let m = run(&[0x60, 0xF0, 0x61, 0x3C, 0x62, 0xF0, 0x63, 0xF0, 0x80, 0x11, 0x82, 0x12, 0x83, 0x13], 7);
    assert_eq!(m.register(0), 0xFC);
    assert_eq!(m.register(2), 0x30);
    assert_eq!(m.register(3), 0xCC);
}

#[test]
fn bcd_of_255() {
    let m = run(&[0x60, 0xFF, 0xA3, 0x00, 0xF0, 0x33], 3);
    assert_eq!(m.memory_at(0x300), 2);
    assert_eq!(m.memory_at(0x301), 5);
    assert_eq!(m.memory_at(0x302), 5);
}

#[test]
fn bcd_wraps_at_top_of_memory() {
    let m = run(&[0x60, 0x7B, 0xAF, 0xFF, 0xF0, 0x33], 3);
    assert_eq!(m.memory_at(0xFFF), 1);
    assert_eq!(m.memory_at(0x000), 2);
    assert_eq!(m.memory_at(0x001), 3);
}

#[test]
fn store_and_load_registers_wrap() {
    let m = run(&[0x60, 0x01, 0x61, 0x02, 0xAF, 0xFF, 0xF1, 0x55, 0x60, 0x00, 0x61, 0x00, 0xF1, 0x65], 7);
    assert_eq!(m.memory_at(0xFFF), 1);
    assert_eq!(m.memory_at(0x000), 2);
    assert_eq!(m.register(0), 1);
    assert_eq!(m.register(1), 2);
    assert_eq!(m.index(), 0xFFF);
}

#[test]
fn draw_twice_restores_display() {
    let mut m = run(&[0x60, 0x05, 0x61, 0x03, 0xA0, 0x00, 0xD0, 0x15, 0xD0, 0x15], 3);
    assert_eq!(m.step(&NO_KEYS, 0, 0), Ok(Effect::Redraw));
    assert_eq!(lit_pixels(&m), 14);
    assert!(m.pixel(5, 3));
    assert!(!m.pixel(6, 4));
    assert_eq!(m.step(&NO_KEYS, 0, 0), Ok(Effect::Redraw));
    assert_eq!(lit_pixels(&m), 0);
}

#[test]
fn draw_wraps_at_edges() {
    let m = run(&[0x60, 0x3F, 0x61, 0x1F, 0xA2, 0x08, 0xD0, 0x11, 0xFF], 4);
    assert!(m.pixel(63, 31));
    for x in 0..7 {
        assert!(m.pixel(x, 31));
    }
    assert!(!m.pixel(7, 31));
    assert!(!m.pixel(63, 0));
    assert_eq!(lit_pixels(&m), 8);
    assert_eq!(m.register(0xF), 0);
}

#[test]
fn clear_screen_blanks_display() {
    let mut m = run(&[0xA0, 0x00, 0xD0, 0x05, 0x00, 0xE0], 2);
    assert!(lit_pixels(&m) > 0);
    assert_eq!(m.step(&NO_KEYS, 0, 0), Ok(Effect::Clear));
    assert_eq!(lit_pixels(&m), 0);
}

#[test]
fn return_on_empty_stack_underflows() {
    let mut m = Chip8::new(&[0x00, 0xEE]);
    assert_eq!(m.step(&NO_KEYS, 0, 0), Err(Chip8Error::StackUnderflow));
    assert_eq!(m.program_counter(), 0x200);
    assert_eq!(m.stack_pointer(), 0);
}

#[test]
fn call_and_return() {
    let m = run(&[0x22, 0x06, 0x00, 0x00, 0x00, 0x00, 0x00, 0xEE], 2);
    assert_eq!(m.program_counter(), 0x202);
    assert_eq!(m.stack_pointer(), 0);
}

#[test]
fn nested_calls_overflow() {
    let mut m = Chip8::new(&[0x22, 0x00]);
    for _ in 0..15 {
        assert_eq!(m.step(&NO_KEYS, 0, 0), Ok(Effect::Nothing));
    }
    assert_eq!(m.stack_pointer(), 15);
    assert_eq!(m.step(&NO_KEYS, 0, 0), Err(Chip8Error::StackOverflow));
    assert_eq!(m.stack_pointer(), 15);
}

#[test]
fn skips_compare_registers_and_keys() {
    let m = run(&[0x60, 0x05, 0x30, 0x05], 2);
    assert_eq!(m.program_counter(), 0x206);
    let m = run(&[0x60, 0x05, 0x40, 0x05], 2);
    assert_eq!(m.program_counter(), 0x204);
    let m = run(&[0x60, 0x05, 0x61, 0x05, 0x50, 0x10], 3);
    assert_eq!(m.program_counter(), 0x208);
    let m = run(&[0x60, 0x05, 0x90, 0x10], 2);
    assert_eq!(m.program_counter(), 0x206);
    let mut keys = [false; 16];
    keys[5] = true;
    let mut m = run(&[0x60, 0x05, 0xE0, 0x9E], 1);
    m.step(&keys, 0, 0).unwrap();
    assert_eq!(m.program_counter(), 0x206);
    let mut m = run(&[0x60, 0x05, 0xE0, 0xA1], 1);
    m.step(&keys, 0, 0).unwrap();
    assert_eq!(m.program_counter(), 0x204);
}

#[test]
fn jumps_and_index() {
    let m = run(&[0x13, 0x00], 1);
    assert_eq!(m.program_counter(), 0x300);
    let m = run(&[0x60, 0x04, 0xB3, 0x00], 2);
    assert_eq!(m.program_counter(), 0x304);
    let m = run(&[0xA1, 0x00, 0x60, 0x10, 0xF0, 0x1E], 3);
    assert_eq!(m.index(), 0x110);
    let m = run(&[0x60, 0x1B, 0xF0, 0x29], 2);
    assert_eq!(m.index(), 55);
}

#[test]
fn random_masks_with_operand() {
    let mut m = Chip8::new(&[]);
    let r = m.execute(Instruction::Random { x: 3, nn: 0x0F }, &NO_KEYS, 0, 0xAB);
    assert_eq!(r, Ok(Effect::Nothing));
    assert_eq!(m.register(3), 0x0B);
    let mut m = Chip8::new(&[0xC0, 0x0F]);
    assert_eq!(m.do_command(&NO_KEYS, 0), Ok(Effect::Nothing));
    assert_eq!(m.register(0) & 0xF0, 0);
}

#[test]
fn countdown_reaches_zero() {
    let mut m = run(&[0x60, 0x05, 0xF0, 0x15, 0xF1, 0x07, 0xF2, 0x07], 1);
    m.step(&NO_KEYS, 10, 0).unwrap();
    m.update_timer(10 + 2 * SECOND);
    assert_eq!(m.delay_value(), 3);
    m.update_timer(10 + 5 * SECOND);
    m.step(&NO_KEYS, 10 + 5 * SECOND, 0).unwrap();
    assert_eq!(m.register(1), 0);
    m.update_timer(10 + 500 * SECOND);
    m.step(&NO_KEYS, 10 + 500 * SECOND, 0).unwrap();
    assert_eq!(m.register(2), 0);
}

#[test]
fn end_of_program_stops() {
    let mut m = run(&[0x1F, 0xFE], 1);
    assert_eq!(m.program_counter(), 0xFFE);
    assert_eq!(m.do_command(&NO_KEYS, 0), Err(Chip8Error::EndOfProgram));
    assert_eq!(m.program_counter(), 0xFFE);
}

#[test]
fn unknown_sub_operation_is_no_op() {
    let m = run(&[0x60, 0x07, 0x80, 0x08, 0xE0, 0x00, 0xF0, 0xFF, 0x01, 0x23, 0xF0, 0x0A, 0xF0, 0x18], 7);
    assert_eq!(m.register(0), 0x07);
    assert_eq!(m.program_counter(), 0x20E);
}

#[test]
fn decode_families() {
    assert_eq!(Instruction::decode(0x8124), Instruction::AddWithCarry { x: 1, y: 2 });
    assert_eq!(Instruction::decode(0xD12F), Instruction::Draw { x: 1, y: 2, n: 15 });
    assert_eq!(Instruction::decode(0xBABC), Instruction::JumpWithOffset { addr: 0xABC });
    assert_eq!(Instruction::decode(0x8128), Instruction::Unknown { word: 0x8128 });
    assert_eq!(Instruction::decode(0x00E0), Instruction::ClearScreen);
    assert_eq!(Instruction::decode(0xF565), Instruction::LoadRegisters { x: 5 });
}

#[test]
fn new_loads_font_and_program() {
    let m = Chip8::new(&[0x12, 0x34]);
    assert_eq!(m.memory_at(0), 0xF0);
    assert_eq!(m.memory_at(79), 0x80);
    assert_eq!(m.memory_at(0x200), 0x12);
    assert_eq!(m.memory_at(0x201), 0x34);
    assert_eq!(m.memory_at(0x202), 0);
    assert_eq!(m.program_counter(), 0x200);
}

#[test]
fn delay_timer_counts_whole_seconds() {
    let mut t = DelayTimer::new();
    assert_eq!(t.get(), 0);
    t.set(3, 100);
    t.update(100 + SECOND - 1);
    assert_eq!(t.get(), 3);
    t.update(100 + SECOND + SECOND / 2);
    assert_eq!(t.get(), 2);
    t.update(100 + 2 * SECOND);
    assert_eq!(t.get(), 1);
    t.update(100 + 1000 * SECOND);
    assert_eq!(t.get(), 0);
    t.update(100 + 2000 * SECOND);
    assert_eq!(t.get(), 0);
}

#[test]
fn main_timer_interval() {
    let mut t = MainTimer::new(360, 0);
    assert_eq!(t.interval_nanos(), 2_777_777);
    t.reset(5);
    assert_eq!(t.interval_nanos(), 2_777_777);
}
