use std::collections::HashMap;

use chip8::chip8::Chip8;
use chip8::chip8_instruction_set::Instruction;
use chip8::cli::CliColor;
use chip8::state::Fault;

const GLYPHS: [u8; 80] = [
    0xf0, 0x90, 0x90, 0x90, 0xf0, 0x20, 0x60, 0x20, 0x20, 0x70, 0xf0, 0x10, 0xf0, 0x80, 0xf0, 0xf0,
    0x10, 0xf0, 0x10, 0xf0, 0x90, 0x90, 0xf0, 0x10, 0x10, 0xf0, 0x80, 0xf0, 0x10, 0xf0, 0xf0, 0x80,
    0xf0, 0x90, 0xf0, 0xf0, 0x10, 0x20, 0x40, 0x40, 0xf0, 0x90, 0xf0, 0x90, 0xf0, 0xf0, 0x90, 0xf0,
    0x10, 0xf0, 0xf0, 0x90, 0xf0, 0x90, 0x90, 0xe0, 0x90, 0xe0, 0x90, 0xe0, 0xf0, 0x80, 0x80, 0x80,
    0xf0, 0xe0, 0x90, 0x90, 0x90, 0xe0, 0xf0, 0x80, 0xf0, 0x80, 0xf0, 0xf0, 0x80, 0xf0, 0x80, 0x80,
];

fn keymap() -> HashMap<u64, u8> {
    let mut map = HashMap::new();
    for key in 0..16u8 {
        map.insert(key as u64, key);
    }
    map
}

fn machine_with(program: &[u8]) -> Chip8 {
    let mut machine = Chip8::new(4096, 16, 1, CliColor::new(255, 255, 25, 25), keymap());
    machine.load(program);
    machine
}

fn run(machine: &mut Chip8, steps: usize) {
    for _ in 0..steps {
        assert_eq!(machine.tick_with(0), Ok(()));
    }
}

fn lit_count(machine: &Chip8) -> usize {
    let mut count = 0;
    for y in 0..32 {
        for x in 0..64 {
            if machine.is_lit(x, y) {
                count += 1;
            }
        }
    }
    count
}

#[test]
fn new_machine_is_zeroed() {
    let machine = Chip8::new(1024, 4, 3, CliColor::new(1, 2, 3, 4), keymap());
    assert_eq!(machine.memory_size(), 1024);
    assert_eq!(machine.instruction_pointer(), 0x200);
    assert_eq!(machine.stack_depth(), 0);
    assert_eq!(machine.memory_at(0), Some(0));
    assert_eq!(machine.memory_at(1023), Some(0));
    assert_eq!(machine.memory_at(1024), None);
    assert_eq!(machine.get_screen_size(), (192, 96));
    for key in 0..16 {
        assert!(!machine.is_pressed(key));
    }
}

#[test]
fn load_resets_the_machine() {
    let mut machine = machine_with(&[
        0x60, 0x07, 0x61, 0x09, 0xF0, 0x15, 0xF1, 0x18, 0xF0, 0x29, 0x22, 0x0C, 0xD0, 0x15,
    ]);
    run(&mut machine, 7);
    machine.set_pressed(3, true);
    assert_eq!(machine.stack_depth(), 1);
    assert!(lit_count(&machine) > 0);

    machine.load(&[0xAB, 0xCD, 0xEF]);
    assert_eq!(machine.instruction_pointer(), 0x200);
    assert_eq!(machine.address_register(), 0);
    assert_eq!(machine.delay_timer(), 0);
    assert_eq!(machine.sound_timer(), 0);
    assert_eq!(machine.stack_depth(), 0);
    for index in 0..16 {
        assert_eq!(machine.register(index), 0);
    }
    assert_eq!(lit_count(&machine), 0);
    for (address, glyph) in GLYPHS.iter().enumerate() {
        assert_eq!(machine.memory_at(address), Some(*glyph));
    }
    for address in 80..0x200 {
        assert_eq!(machine.memory_at(address), Some(0));
    }
    assert_eq!(machine.memory_at(0x200), Some(0xAB));
    assert_eq!(machine.memory_at(0x201), Some(0xCD));
    assert_eq!(machine.memory_at(0x202), Some(0xEF));
    for address in 0x203..4096 {
        assert_eq!(machine.memory_at(address), Some(0));
    }
    assert!(machine.is_pressed(3));
}

#[test]
fn zero_words_only_advance_the_pointer() {
    let mut machine = machine_with(&[0x00]);
    for step in 1..=100u16 {
        assert_eq!(machine.tick(), Ok(()));
        assert_eq!(machine.instruction_pointer(), 0x200 + 2 * step);
    }
    assert_eq!(machine.address_register(), 0);
    assert_eq!(machine.delay_timer(), 0);
    assert_eq!(machine.sound_timer(), 0);
    assert_eq!(machine.stack_depth(), 0);
    assert_eq!(lit_count(&machine), 0);
    for index in 0..16 {
        assert_eq!(machine.register(index), 0);
    }
    for (address, glyph) in GLYPHS.iter().enumerate() {
        assert_eq!(machine.memory_at(address), Some(*glyph));
    }
    for address in 80..4096 {
        assert_eq!(machine.memory_at(address), Some(0));
    }
}

#[test]
fn undecodable_word_only_advances_the_pointer() {
    let mut machine = machine_with(&[0x51, 0x21, 0x60, 0x05]);
    assert_eq!(machine.tick(), Ok(()));
    assert_eq!(machine.instruction_pointer(), 0x202);
    assert_eq!(machine.register(1), 0);
    assert_eq!(machine.tick(), Ok(()));
    assert_eq!(machine.register(0), 5);
}

#[test]
fn add_with_carry_wraps_and_sets_flag() {
    let mut machine = machine_with(&[0x60, 0xFF, 0x61, 0x01, 0x80, 0x14]);
    run(&mut machine, 3);
    assert_eq!(machine.register(0), 0x00);
    assert_eq!(machine.register(0xF), 1);

    let mut machine = machine_with(&[0x6F, 0x09, 0x60, 0x10, 0x61, 0x22, 0x80, 0x14]);
    run(&mut machine, 4);
    assert_eq!(machine.register(0), 0x32);
    assert_eq!(machine.register(0xF), 0);
}

#[test]
fn subtract_with_carry_reports_no_borrow_as_one() {
    let mut machine = machine_with(&[0x60, 0x01, 0x61, 0x02, 0x80, 0x15]);
    run(&mut machine, 3);
    assert_eq!(machine.register(0), 0xFF);
    assert_eq!(machine.register(0xF), 0);

    let mut machine = machine_with(&[0x60, 0x09, 0x61, 0x02, 0x80, 0x15]);
    run(&mut machine, 3);
    assert_eq!(machine.register(0), 0x07);
    assert_eq!(machine.register(0xF), 1);

    let mut machine = machine_with(&[0x60, 0x05, 0x61, 0x05, 0x80, 0x15]);
    run(&mut machine, 3);
    assert_eq!(machine.register(0), 0x00);
    assert_eq!(machine.register(0xF), 1);
}

#[test]
fn reversed_subtract_takes_first_from_second() {
    let mut machine = machine_with(&[0x60, 0x01, 0x61, 0x0A, 0x80, 0x17]);
    run(&mut machine, 3);
    assert_eq!(machine.register(0), 0x09);
    assert_eq!(machine.register(1), 0x0A);
    assert_eq!(machine.register(0xF), 1);

    let mut machine = machine_with(&[0x60, 0x0A, 0x61, 0x01, 0x80, 0x17]);
    run(&mut machine, 3);
    assert_eq!(machine.register(0), 0xF7);
    assert_eq!(machine.register(0xF), 0);
}

#[test]
fn shifts_report_the_bit_shifted_out() {
    let mut machine = machine_with(&[0x61, 0x05, 0x80, 0x16]);
    run(&mut machine, 2);
    assert_eq!(machine.register(0), 0x02);
    assert_eq!(machine.register(1), 0x05);
    assert_eq!(machine.register(0xF), 1);

    let mut machine = machine_with(&[0x61, 0x81, 0x80, 0x1E]);
    run(&mut machine, 2);
    assert_eq!(machine.register(0), 0x02);
    assert_eq!(machine.register(0xF), 1);

    let mut machine = machine_with(&[0x6F, 0x07, 0x61, 0x42, 0x80, 0x1E]);
    run(&mut machine, 3);
    assert_eq!(machine.register(0), 0x84);
    assert_eq!(machine.register(0xF), 0);
}

#[test]
fn flag_register_as_destination_holds_the_flag() {
    let mut machine = machine_with(&[0x6F, 0xFF, 0x61, 0x02, 0x8F, 0x14]);
    run(&mut machine, 3);
    assert_eq!(machine.register(0xF), 1);
}

#[test]
fn register_transfers_and_bitwise_operations() {
    let mut machine = machine_with(&[
        0x60, 0xF0, 0x61, 0x3C, 0x82, 0x00, 0x82, 0x11, 0x83, 0x00, 0x83, 0x12, 0x84, 0x00, 0x84,
        0x13, 0x75, 0xFE, 0x75, 0x05,
    ]);
    run(&mut machine, 10);
    assert_eq!(machine.register(2), 0xFC);
    assert_eq!(machine.register(3), 0x30);
    assert_eq!(machine.register(4), 0xCC);
    assert_eq!(machine.register(5), 0x03);
    assert_eq!(machine.register(0xF), 0);
    assert_eq!(machine.instruction_pointer(), 0x214);
}

#[test]
fn skip_if_equal_advances_by_four() {
    let mut machine = machine_with(&[0x62, 0x10, 0x32, 0x10]);
    run(&mut machine, 1);
    let before = machine.instruction_pointer();
    run(&mut machine, 1);
    assert_eq!(machine.instruction_pointer(), before + 4);

    let mut machine = machine_with(&[0x62, 0x11, 0x32, 0x10]);
    run(&mut machine, 1);
    let before = machine.instruction_pointer();
    run(&mut machine, 1);
    assert_eq!(machine.instruction_pointer(), before + 2);
}

#[test]
fn other_skips_follow_their_conditions() {
    let mut machine = machine_with(&[0x42, 0x10]);
    run(&mut machine, 1);
    assert_eq!(machine.instruction_pointer(), 0x204);
    let mut machine = machine_with(&[0x42, 0x00]);
    run(&mut machine, 1);
    assert_eq!(machine.instruction_pointer(), 0x202);

    let mut machine = machine_with(&[0x51, 0x20]);
    run(&mut machine, 1);
    assert_eq!(machine.instruction_pointer(), 0x204);
    let mut machine = machine_with(&[0x61, 0x01, 0x51, 0x20]);
    run(&mut machine, 2);
    assert_eq!(machine.instruction_pointer(), 0x204);

    let mut machine = machine_with(&[0x91, 0x20]);
    run(&mut machine, 1);
    assert_eq!(machine.instruction_pointer(), 0x202);
    let mut machine = machine_with(&[0x61, 0x01, 0x91, 0x20]);
    run(&mut machine, 2);
    assert_eq!(machine.instruction_pointer(), 0x206);
}

#[test]
fn key_skips_test_the_key_in_the_register() {
    let mut machine = machine_with(&[0x60, 0x07, 0xE0, 0x9E, 0xE0, 0xA1]);
    run(&mut machine, 3);
    assert_eq!(machine.instruction_pointer(), 0x208);

    let mut machine = machine_with(&[0x60, 0x07, 0xE0, 0x9E, 0x00, 0x00, 0xE0, 0xA1]);
    machine.set_pressed(7, true);
    run(&mut machine, 2);
    assert_eq!(machine.instruction_pointer(), 0x206);
    run(&mut machine, 1);
    assert_eq!(machine.instruction_pointer(), 0x208);
    machine.set_pressed(7, false);
    assert!(!machine.is_pressed(7));
}

#[test]
fn key_query_above_fifteen_is_a_fault() {
    let mut machine = machine_with(&[0x60, 0x10, 0xE0, 0x9E]);
    run(&mut machine, 1);
    assert_eq!(machine.tick(), Err(Fault::KeyOutOfRange));
    assert_eq!(machine.instruction_pointer(), 0x202);
    let mut machine = machine_with(&[0x60, 0xFF, 0xE0, 0xA1]);
    run(&mut machine, 1);
    assert_eq!(machine.tick(), Err(Fault::KeyOutOfRange));
}

#[test]
fn wait_for_key_holds_until_a_key_is_pressed() {
    let mut machine = machine_with(&[0x00, 0x00, 0xF3, 0x0A]);
    run(&mut machine, 1);
    for _ in 0..50 {
        assert_eq!(machine.tick(), Ok(()));
        assert_eq!(machine.instruction_pointer(), 0x202);
        assert_eq!(machine.register(3), 0);
    }
    machine.set_pressed(0x5, true);
    assert_eq!(machine.tick(), Ok(()));
    assert_eq!(machine.register(3), 0x05);
    assert_eq!(machine.instruction_pointer(), 0x204);
}

#[test]
fn wait_for_key_takes_the_lowest_pressed_key() {
    let mut machine = machine_with(&[0xF0, 0x0A]);
    machine.set_pressed(0xC, true);
    machine.set_pressed(0x2, true);
    machine.set_pressed(0x9, true);
    run(&mut machine, 1);
    assert_eq!(machine.register(0), 0x2);
}

#[test]
fn bulk_store_and_fill_round_trip() {
    let mut machine = machine_with(&[
        0x60, 0x11, 0x61, 0x22, 0x62, 0x33, 0x63, 0x44, 0x64, 0x55, 0xA3, 0x00, 0xF3, 0x55, 0x60,
        0x00, 0x61, 0x00, 0x62, 0x00, 0x63, 0x00, 0xA3, 0x00, 0xF3, 0x65,
    ]);
    run(&mut machine, 7);
    assert_eq!(machine.address_register(), 0x304);
    assert_eq!(machine.memory_at(0x300), Some(0x11));
    assert_eq!(machine.memory_at(0x301), Some(0x22));
    assert_eq!(machine.memory_at(0x302), Some(0x33));
    assert_eq!(machine.memory_at(0x303), Some(0x44));
    assert_eq!(machine.memory_at(0x304), Some(0x00));
    run(&mut machine, 4);
    for index in 0..4 {
        assert_eq!(machine.register(index), 0);
    }
    run(&mut machine, 2);
    assert_eq!(machine.register(0), 0x11);
    assert_eq!(machine.register(1), 0x22);
    assert_eq!(machine.register(2), 0x33);
    assert_eq!(machine.register(3), 0x44);
    assert_eq!(machine.register(4), 0x55);
    assert_eq!(machine.address_register(), 0x304);
}

#[test]
fn binary_coded_decimal_is_stored_hundreds_first() {
    let mut machine = machine_with(&[0x60, 0xFE, 0xA3, 0x00, 0xF0, 0x33]);
    run(&mut machine, 3);
    assert_eq!(machine.memory_at(0x300), Some(2));
    assert_eq!(machine.memory_at(0x301), Some(5));
    assert_eq!(machine.memory_at(0x302), Some(4));
    assert_eq!(machine.address_register(), 0x300);

    let mut machine = machine_with(&[0x60, 0x07, 0xA3, 0x00, 0xF0, 0x33]);
    run(&mut machine, 3);
    assert_eq!(machine.memory_at(0x300), Some(0));
    assert_eq!(machine.memory_at(0x301), Some(0));
    assert_eq!(machine.memory_at(0x302), Some(7));
}

#[test]
fn address_register_instructions() {
    let mut machine = machine_with(&[0xA2, 0x34, 0x60, 0xFF, 0xF0, 0x1E, 0x61, 0x0B, 0xF1, 0x29]);
    run(&mut machine, 1);
    assert_eq!(machine.address_register(), 0x234);
    run(&mut machine, 2);
    assert_eq!(machine.address_register(), 0x333);
    run(&mut machine, 2);
    assert_eq!(machine.address_register(), 55);
}

#[test]
fn jump_lands_on_the_target() {
    let mut machine = machine_with(&[0x12, 0x08, 0x60, 0x01, 0x60, 0x02, 0x60, 0x03, 0x61, 0x09]);
    run(&mut machine, 1);
    assert_eq!(machine.instruction_pointer(), 0x208);
    run(&mut machine, 1);
    assert_eq!(machine.register(0), 0);
    assert_eq!(machine.register(1), 9);
}

#[test]
fn jump_with_offset_adds_register_zero() {
    let mut machine = machine_with(&[0x60, 0x06, 0xB2, 0x10]);
    run(&mut machine, 2);
    assert_eq!(machine.instruction_pointer(), 0x216);
}

#[test]
fn call_and_return() {
    let mut machine = machine_with(&[0x22, 0x06, 0x61, 0x01, 0x00, 0x00, 0x62, 0x02, 0x00, 0xEE]);
    run(&mut machine, 1);
    assert_eq!(machine.instruction_pointer(), 0x206);
    assert_eq!(machine.stack_depth(), 1);
    run(&mut machine, 2);
    assert_eq!(machine.register(2), 2);
    assert_eq!(machine.instruction_pointer(), 0x202);
    assert_eq!(machine.stack_depth(), 0);
    run(&mut machine, 1);
    assert_eq!(machine.register(1), 1);
}

#[test]
fn return_on_empty_stack_is_a_fault() {
    let mut machine = machine_with(&[0x60, 0x09, 0x00, 0xEE]);
    run(&mut machine, 1);
    assert_eq!(machine.tick(), Err(Fault::StackUnderflow));
    assert_eq!(machine.instruction_pointer(), 0x202);
    assert_eq!(machine.register(0), 9);
    assert_eq!(machine.tick(), Err(Fault::StackUnderflow));
}

#[test]
fn call_on_full_stack_is_a_fault() {
    let mut machine = Chip8::new(4096, 2, 1, CliColor::new(255, 255, 255, 255), keymap());
    machine.load(&[0x22, 0x00]);
    assert_eq!(machine.tick(), Ok(()));
    assert_eq!(machine.tick(), Ok(()));
    assert_eq!(machine.stack_depth(), 2);
    assert_eq!(machine.tick(), Err(Fault::StackOverflow));
    assert_eq!(machine.stack_depth(), 2);
    assert_eq!(machine.instruction_pointer(), 0x200);
}

#[test]
fn access_beyond_memory_is_a_fault() {
    let mut machine = Chip8::new(0x204, 16, 1, CliColor::new(255, 255, 255, 255), keymap());
    machine.load(&[0x00, 0x00, 0x00, 0x00]);
    assert_eq!(machine.tick(), Ok(()));
    assert_eq!(machine.tick(), Ok(()));
    assert_eq!(machine.instruction_pointer(), 0x204);
    assert_eq!(machine.tick(), Err(Fault::MemoryOutOfBounds));
    assert_eq!(machine.instruction_pointer(), 0x204);

    let mut machine = Chip8::new(0x210, 16, 1, CliColor::new(255, 255, 255, 255), keymap());
    machine.load(&[0x60, 0x7B, 0xA2, 0x0E, 0xF0, 0x33]);
    assert_eq!(machine.tick(), Ok(()));
    assert_eq!(machine.tick(), Ok(()));
    assert_eq!(machine.tick(), Err(Fault::MemoryOutOfBounds));
    assert_eq!(machine.memory_at(0x20E), Some(0));
    assert_eq!(machine.memory_at(0x20F), Some(0));
    assert_eq!(machine.instruction_pointer(), 0x204);

    machine.load(&[0xA2, 0x0E, 0xF2, 0x55, 0xF2, 0x65, 0xD0, 0x03]);
    assert_eq!(machine.tick(), Ok(()));
    assert_eq!(machine.tick(), Err(Fault::MemoryOutOfBounds));
    assert_eq!(machine.execute(&Instruction::FillRegisters(2), 0), Err(Fault::MemoryOutOfBounds));
    assert_eq!(machine.execute(&Instruction::DrawSprite(0, 0, 3), 0), Err(Fault::MemoryOutOfBounds));
    assert_eq!(machine.execute(&Instruction::DrawSprite(0, 0, 2), 0), Ok(()));
}

#[test]
fn random_byte_is_masked() {
    let mut machine = machine_with(&[0xC0, 0x0F, 0xC1, 0x00, 0xC2, 0xF0]);
    assert_eq!(machine.tick(), Ok(()));
    assert_eq!(machine.register(0) & 0xF0, 0);
    assert_eq!(machine.tick(), Ok(()));
    assert_eq!(machine.register(1), 0);
    assert_eq!(machine.tick(), Ok(()));
    assert_eq!(machine.register(2) & 0x0F, 0);
    assert_eq!(machine.instruction_pointer(), 0x206);
}

#[test]
fn random_source_gives_more_than_one_byte() {
    let mut seen = [false; 256];
    let mut program = Vec::new();
    for _ in 0..1024 {
        program.push(0xC0);
        program.push(0xFF);
    }
    let mut machine = machine_with(&program);
    for _ in 0..1024 {
        assert_eq!(machine.tick(), Ok(()));
        seen[machine.register(0) as usize] = true;
    }
    assert!(seen.iter().filter(|s| **s).count() > 1);
}

#[test]
fn injected_random_byte_is_used() {
    let mut machine = machine_with(&[0xC0, 0x3C, 0xC1, 0xFF]);
    assert_eq!(machine.tick_with(0xA5), Ok(()));
    assert_eq!(machine.register(0), 0x24);
    assert_eq!(machine.tick_with(0x5A), Ok(()));
    assert_eq!(machine.register(1), 0x5A);
}

#[test]
fn timers_are_written_read_and_counted_down() {
    let mut machine = machine_with(&[0x60, 0x02, 0xF0, 0x15, 0x61, 0x09, 0xF1, 0x18, 0xF2, 0x07]);
    run(&mut machine, 4);
    assert_eq!(machine.delay_timer(), 2);
    assert_eq!(machine.sound_timer(), 9);
    machine.decrement_time();
    assert_eq!(machine.delay_timer(), 1);
    run(&mut machine, 1);
    assert_eq!(machine.register(2), 1);
    machine.decrement_time();
    assert_eq!(machine.delay_timer(), 0);
    machine.decrement_time();
    assert_eq!(machine.delay_timer(), 0);
    assert_eq!(machine.sound_timer(), 9);
}

#[test]
fn sprite_overwrites_what_it_covers() {
    let mut machine = machine_with(&[0x60, 0x02, 0x61, 0x03, 0x62, 0x01, 0xF2, 0x29, 0xD0, 0x15, 0xD0, 0x15]);
    run(&mut machine, 5);
    let rows = [0x20u8, 0x60, 0x20, 0x20, 0x70];
    for y in 0..32usize {
        for x in 0..64usize {
            let expected = x >= 2 && x < 10 && y >= 3 && y < 8 && (rows[y - 3] >> (7 - (x - 2))) & 1 == 1;
            assert_eq!(machine.is_lit(x, y), expected);
        }
    }
    assert_eq!(lit_count(&machine), 8);
    run(&mut machine, 1);
    assert_eq!(lit_count(&machine), 8);
    assert_eq!(machine.register(0xF), 0);
    assert_eq!(machine.instruction_pointer(), 0x20C);
}

#[test]
fn sprite_puts_out_pixels_under_clear_bits() {
    let mut machine = machine_with(&[0x60, 0x08, 0xF0, 0x29, 0x61, 0x00, 0xD1, 0x15, 0xA3, 0x00, 0xD1, 0x15]);
    run(&mut machine, 4);
    assert_eq!(lit_count(&machine), 4 + 2 + 4 + 2 + 4);
    run(&mut machine, 2);
    assert_eq!(lit_count(&machine), 0);
}

#[test]
fn sprite_is_clipped_at_the_screen_edges() {
    let mut machine = machine_with(&[0x60, 0x3E, 0x61, 0x1E, 0x62, 0x00, 0xF2, 0x29, 0xD0, 0x15]);
    run(&mut machine, 5);
    assert!(machine.is_lit(62, 30));
    assert!(machine.is_lit(63, 30));
    assert!(machine.is_lit(62, 31));
    assert!(!machine.is_lit(63, 31));
    assert_eq!(lit_count(&machine), 3);
}

#[test]
fn sprite_rows_wrap_at_256() {
    let mut machine = machine_with(&[0x60, 0x00, 0x61, 0xFE, 0x62, 0x00, 0xF2, 0x29, 0xD0, 0x15]);
    run(&mut machine, 5);
    assert!(machine.is_lit(0, 0));
    assert!(!machine.is_lit(1, 0));
    assert!(machine.is_lit(3, 0));
    assert!(machine.is_lit(0, 1));
    assert!(!machine.is_lit(1, 1));
    assert!(machine.is_lit(0, 2));
    assert!(machine.is_lit(1, 2));
    assert_eq!(lit_count(&machine), 2 + 2 + 4);
}

#[test]
fn clear_screen_puts_out_every_pixel() {
    let mut machine = machine_with(&[0xD0, 0x05, 0x00, 0xE0]);
    run(&mut machine, 1);
    assert_eq!(lit_count(&machine), 14);
    run(&mut machine, 1);
    assert_eq!(lit_count(&machine), 0);
    assert_eq!(machine.instruction_pointer(), 0x204);
}

#[test]
fn screen_buffer_is_scaled_and_packed() {
    let mut machine = Chip8::new(4096, 16, 2, CliColor::new(255, 255, 25, 25), keymap());
    machine.load(&[0x60, 0x01, 0xA2, 0x06, 0xD0, 0x01, 0x80, 0x00]);
    assert_eq!(machine.get_screen_size(), (128, 64));
    for _ in 0..3 {
        assert_eq!(machine.tick(), Ok(()));
    }
    assert!(machine.is_lit(1, 1));
    let buffer = machine.get_screen_buffer();
    assert_eq!(buffer.len(), 128 * 64);
    for y in 0..64usize {
        for x in 0..128usize {
            let lit = (x == 2 || x == 3) && (y == 2 || y == 3);
            let expected = if lit { 0xFFFF1919u32 } else { 0xFF000000u32 };
            assert_eq!(buffer[y * 128 + x], expected);
        }
    }
}

#[test]
fn screen_buffer_of_scale_zero_is_empty() {
    let machine = Chip8::new(4096, 16, 0, CliColor::new(255, 255, 25, 25), keymap());
    assert_eq!(machine.get_screen_size(), (0, 0));
    assert_eq!(machine.get_screen_buffer().len(), 0);
}

#[test]
fn disassembly_covers_every_slot_from_the_load_offset() {
    let mut machine = Chip8::new(0x207, 16, 1, CliColor::new(255, 255, 255, 255), keymap());
    machine.load(&[0x00, 0xE0, 0x51, 0x21, 0x6A, 0x42, 0x12]);
    let listing = machine.disassemble();
    assert_eq!(
        listing,
        vec![Some(Instruction::ClearScreen), None, Some(Instruction::StoreToReg(0xA, 0x42))]
    );
    assert_eq!(machine.instruction_pointer(), 0x200);

    let machine = machine_with(&[]);
    let listing = machine.disassemble();
    assert_eq!(listing.len(), (4096 - 0x200) / 2);
    assert!(listing.iter().all(|slot| *slot == Some(Instruction::ExecSubroutineML(0))));

    let small = Chip8::new(0x100, 16, 1, CliColor::new(255, 255, 255, 255), keymap());
    assert_eq!(small.disassemble().len(), 0);
}

#[test]
fn physical_keys_follow_the_key_map() {
    let map = HashMap::from([(81u64, 0x4u8), (87, 0x5), (1000, 0xF)]);
    let mut machine = Chip8::new(4096, 16, 1, CliColor::new(255, 255, 25, 25), map);
    machine.set_pressed(87, true);
    machine.set_pressed(5, true);
    machine.set_pressed(1000, true);
    for key in 0..16u8 {
        assert_eq!(machine.is_pressed(key), key == 0x5 || key == 0xF);
    }
    machine.set_pressed(1000, false);
    machine.set_pressed(81, false);
    for key in 0..16u8 {
        assert_eq!(machine.is_pressed(key), key == 0x5);
    }
}

#[test]
fn logical_keys_are_set_directly() {
    let mut machine = Chip8::new(4096, 16, 1, CliColor::new(255, 255, 25, 25), HashMap::new());
    machine.set_pressed(3, true);
    assert!(!machine.is_pressed(3));
    machine.set_key(3, true);
    machine.set_key(15, true);
    machine.set_key(3, false);
    for key in 0..16u8 {
        assert_eq!(machine.is_pressed(key), key == 15);
    }
    machine.load(&[0xF1, 0x0A]);
    assert_eq!(machine.tick(), Ok(()));
    assert_eq!(machine.register(1), 15);
}

#[test]
fn glyph_table_survives_a_program_that_stores_above_it() {
    let mut machine = machine_with(&[0x60, 0xFF, 0xA3, 0x00, 0xF0, 0x33, 0xFF, 0x55, 0x80, 0x04]);
    run(&mut machine, 5);
    for (address, glyph) in GLYPHS.iter().enumerate() {
        assert_eq!(machine.memory_at(address), Some(*glyph));
    }
    assert_eq!(machine.memory_size(), 4096);
}

#[test]
fn execute_runs_one_instruction() {
    let mut machine = machine_with(&[]);
    assert_eq!(machine.execute(&Instruction::StoreToReg(3, 7), 0), Ok(()));
    assert_eq!(machine.register(3), 7);
    assert_eq!(machine.instruction_pointer(), 0x202);
    assert_eq!(machine.execute(&Instruction::JumpToAddress(0x400), 0), Ok(()));
    assert_eq!(machine.instruction_pointer(), 0x400);
    assert_eq!(machine.execute(&Instruction::ExecSubroutineML(0x300), 0), Ok(()));
    assert_eq!(machine.instruction_pointer(), 0x402);
    assert_eq!(machine.execute(&Instruction::RandWithMask(4, 0xF0), 0xFF), Ok(()));
    assert_eq!(machine.register(4), 0xF0);
}

#[test]
fn color_keeps_its_channels() {
    assert_eq!(CliColor::new(255, 255, 25, 25).channels(), (255, 255, 25, 25));
    assert_eq!(CliColor::new(1, 2, 3, 4).channels(), (1, 2, 3, 4));
}

#[test]
fn address_register_wraps_at_sixteen_bits() {
    let mut program = vec![0x60, 0xFF, 0xAF, 0xFF];
    for _ in 0..241 {
        program.push(0xF0);
        program.push(0x1E);
    }
    let mut machine = machine_with(&program);
    run(&mut machine, 2 + 240);
    assert_eq!(machine.address_register(), 0xFFFF - 240);
    run(&mut machine, 1);
    assert_eq!(machine.address_register(), 14);
}

#[test]
fn instruction_pointer_beyond_sixteen_bits_is_a_fault() {
    let mut machine = Chip8::new(0x1_0010, 16, 1, CliColor::new(255, 255, 255, 255), keymap());
    machine.load(&[]);
    run(&mut machine, (0xFFFE - 0x200) / 2);
    assert_eq!(machine.instruction_pointer(), 0xFFFE);
    assert_eq!(machine.tick(), Err(Fault::MemoryOutOfBounds));
    assert_eq!(machine.instruction_pointer(), 0xFFFE);
}
