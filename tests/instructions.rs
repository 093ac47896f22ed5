use rip8::machine::{Chip8, LoadError};
use rip8::model::{Fault, Outcome, NO_KEY};

fn machine() -> Chip8 {
    Chip8::new(Vec::new(), false).unwrap()
}

fn run(c: &mut Chip8, word: u16) -> Outcome {
    c.execute(word, NO_KEY, 0).unwrap()
}

fn set(c: &mut Chip8, x: u16, val: u8) {
    run(c, 0x6000 | (x << 8) | val as u16);
}

#[test]
fn add_with_carry_sets_flag() {
    let mut c = machine();
    set(&mut c, 0, 0xFF);
    set(&mut c, 1, 0x01);
    run(&mut c, 0x8014);
    assert_eq!(c.register(0), 0x00);
    assert_eq!(c.register(15), 1);
}

#[test]
fn add_without_carry_clears_flag() {
    let mut c = machine();
    set(&mut c, 0, 0x01);
    set(&mut c, 1, 0x01);
    set(&mut c, 15, 7);
    run(&mut c, 0x8014);
    assert_eq!(c.register(0), 0x02);
    assert_eq!(c.register(15), 0);
}

#[test]
fn sub_with_borrow_wraps() {
    let mut c = machine();
    set(&mut c, 2, 0x05);
    set(&mut c, 3, 0x0A);
    run(&mut c, 0x8235);
    assert_eq!(c.register(2), 0xFB);
    assert_eq!(c.register(15), 0);
}

#[test]
fn sub_without_borrow() {
    let mut c = machine();
    set(&mut c, 2, 0x0A);
    set(&mut c, 3, 0x05);
    run(&mut c, 0x8235);
    assert_eq!(c.register(2), 0x05);
    assert_eq!(c.register(15), 1);
}

#[test]
fn sub_of_equal_values_has_no_borrow() {
    let mut c = machine();
    set(&mut c, 2, 0x33);
    set(&mut c, 3, 0x33);
    run(&mut c, 0x8235);
    assert_eq!(c.register(2), 0);
    assert_eq!(c.register(15), 1);
}

#[test]
fn reverse_sub_sets_flag_when_no_borrow() {
    let mut c = machine();
    set(&mut c, 4, 0x05);
    set(&mut c, 5, 0x0A);
    run(&mut c, 0x8457);
    assert_eq!(c.register(4), 0x05);
    assert_eq!(c.register(15), 1);
    set(&mut c, 4, 0x0A);
    set(&mut c, 5, 0x05);
    run(&mut c, 0x8457);
    assert_eq!(c.register(4), 0xFB);
    assert_eq!(c.register(15), 0);
}

#[test]
fn shifts_read_the_source_register() {
    let mut c = machine();
    set(&mut c, 1, 0x00);
    set(&mut c, 2, 0x81);
    run(&mut c, 0x8126);
    assert_eq!(c.register(1), 0x40);
    assert_eq!(c.register(15), 1);
    run(&mut c, 0x812E);
    assert_eq!(c.register(1), 0x02);
    assert_eq!(c.register(15), 1);
    set(&mut c, 2, 0x40);
    run(&mut c, 0x812E);
    assert_eq!(c.register(1), 0x80);
    assert_eq!(c.register(15), 0);
    run(&mut c, 0x8126);
    assert_eq!(c.register(1), 0x20);
    assert_eq!(c.register(15), 0);
}

#[test]
fn logic_and_move() {
    let mut c = machine();
    set(&mut c, 0, 0b1100);
    set(&mut c, 1, 0b1010);
    run(&mut c, 0x8011);
    assert_eq!(c.register(0), 0b1110);
    set(&mut c, 0, 0b1100);
    run(&mut c, 0x8012);
    assert_eq!(c.register(0), 0b1000);
    set(&mut c, 0, 0b1100);
    run(&mut c, 0x8013);
    assert_eq!(c.register(0), 0b0110);
    run(&mut c, 0x8010);
    assert_eq!(c.register(0), 0b1010);
}

#[test]
fn add_immediate_wraps_without_flag() {
    let mut c = machine();
    set(&mut c, 3, 0xF0);
    set(&mut c, 15, 9);
    run(&mut c, 0x7320);
    assert_eq!(c.register(3), 0x10);
    assert_eq!(c.register(15), 9);
}

#[test]
fn bcd_of_123() {
    let mut c = machine();
    set(&mut c, 5, 123);
    run(&mut c, 0xA300);
    run(&mut c, 0xF533);
    assert_eq!(c.memory_at(0x300), 1);
    assert_eq!(c.memory_at(0x301), 2);
    assert_eq!(c.memory_at(0x302), 3);
    assert_eq!(c.index(), 0x300);
}

#[test]
fn bcd_past_end_of_memory_faults() {
    let mut c = machine();
    set(&mut c, 5, 255);
    run(&mut c, 0xAFFE);
    let pc = c.pc();
    assert_eq!(c.execute(0xF533, NO_KEY, 0), Err(Fault::MemoryOutOfRange));
    assert_eq!(c.pc(), pc);
    assert_eq!(c.memory_at(0xFFE), 0);
}

#[test]
fn store_then_load_round_trip() {
    let mut c = machine();
    set(&mut c, 0, 1);
    set(&mut c, 1, 2);
    set(&mut c, 2, 3);
    set(&mut c, 3, 4);
    set(&mut c, 4, 99);
    run(&mut c, 0xA300);
    run(&mut c, 0xF355);
    assert_eq!(c.index(), 0x304);
    assert_eq!(c.memory_at(0x300), 1);
    assert_eq!(c.memory_at(0x303), 4);
    assert_eq!(c.memory_at(0x304), 0);
    for x in 0..4u16 {
        set(&mut c, x, 0);
    }
    run(&mut c, 0xA300);
    run(&mut c, 0xF365);
    assert_eq!(c.index(), 0x304);
    assert_eq!(
        [c.register(0), c.register(1), c.register(2), c.register(3)],
        [1, 2, 3, 4]
    );
    assert_eq!(c.register(4), 99);
}

#[test]
fn store_past_end_of_memory_faults() {
    let mut c = machine();
    run(&mut c, 0xAFFE);
    assert_eq!(c.execute(0xF255, NO_KEY, 0), Err(Fault::MemoryOutOfRange));
    assert_eq!(c.execute(0xF265, NO_KEY, 0), Err(Fault::MemoryOutOfRange));
    assert_eq!(c.index(), 0xFFE);
    assert_eq!(c.execute(0xF155, NO_KEY, 0), Ok(Outcome::Executed));
    assert_eq!(c.index(), 0x1000);
}

#[test]
fn skip_on_immediate_is_exhaustive_for_one_register() {
    for content in 0..=255u8 {
        for nn in 0..=255u8 {
            let mut c = machine();
            set(&mut c, 7, content);
            let pc = c.pc();
            run(&mut c, 0x3700 | nn as u16);
            assert_eq!(c.pc(), if content == nn { pc + 4 } else { pc + 2 });
            let pc = c.pc();
            run(&mut c, 0x4700 | nn as u16);
            assert_eq!(c.pc(), if content != nn { pc + 4 } else { pc + 2 });
        }
    }
}

#[test]
fn skip_on_registers() {
    let mut c = machine();
    set(&mut c, 1, 5);
    set(&mut c, 2, 5);
    let pc = c.pc();
    run(&mut c, 0x5120);
    assert_eq!(c.pc(), pc + 4);
    run(&mut c, 0x9120);
    assert_eq!(c.pc(), pc + 6);
    set(&mut c, 2, 6);
    let pc = c.pc();
    run(&mut c, 0x9120);
    assert_eq!(c.pc(), pc + 4);
}

#[test]
fn pc_advances_by_two_for_plain_instructions() {
    let words: [u16; 22] = [
        0x00E0, 0x6A12, 0x7A01, 0x8AB0, 0x8AB1, 0x8AB2, 0x8AB3, 0x8AB4, 0x8AB5, 0x8AB6, 0x8AB7,
        0x8ABE, 0xA123, 0xCA0F, 0xD005, 0xFA07, 0xFA15, 0xFA18, 0xFA1E, 0xFA29, 0xF155, 0xF165,
    ];
    let mut c = machine();
    for word in words {
        let pc = c.pc();
        if word == 0xF155 || word == 0xF165 {
            run(&mut c, 0xA300);
            let pc = c.pc();
            run(&mut c, word);
            assert_eq!(c.pc(), pc + 2);
            continue;
        }
        run(&mut c, word);
        assert_eq!(c.pc(), pc + 2, "word {:04X}", word);
    }
    let pc = c.pc();
    run(&mut c, 0xFA33);
    assert_eq!(c.pc(), pc + 2);
}

#[test]
fn jumps() {
    let mut c = machine();
    run(&mut c, 0x1ABC);
    assert_eq!(c.pc(), 0xABC);
    set(&mut c, 0, 0x10);
    run(&mut c, 0xB300);
    assert_eq!(c.pc(), 0x310);
}

#[test]
fn call_then_return_resumes_after_call() {
    let mut c = Chip8::new(vec![0x22, 0x06, 0x00, 0x00, 0x00, 0x00, 0x00, 0xEE], false).unwrap();
    assert_eq!(c.run_cycle(NO_KEY), Ok(Outcome::Executed));
    assert_eq!(c.pc(), 0x206);
    assert_eq!(c.stack_depth(), 1);
    assert_eq!(c.run_cycle(NO_KEY), Ok(Outcome::Executed));
    assert_eq!(c.pc(), 0x202);
    assert_eq!(c.stack_depth(), 0);
}

#[test]
fn return_with_empty_stack_faults() {
    let mut c = machine();
    assert_eq!(c.execute(0x00EE, NO_KEY, 0), Err(Fault::StackUnderflow));
    assert_eq!(c.pc(), 0x200);
}

#[test]
fn seventeenth_call_overflows() {
    let mut c = machine();
    for _ in 0..16 {
        run(&mut c, 0x2200);
    }
    assert_eq!(c.stack_depth(), 16);
    assert_eq!(c.execute(0x2400, NO_KEY, 0), Err(Fault::StackOverflow));
    assert_eq!(c.stack_depth(), 16);
    assert_eq!(c.pc(), 0x200);
}

#[test]
fn unknown_words_are_skipped() {
    let mut c = machine();
    for word in [0x0000u16, 0x0123, 0x5121, 0x8AB8, 0x912F, 0xE1FF, 0xF1FF] {
        let pc = c.pc();
        assert_eq!(c.execute(word, NO_KEY, 0), Ok(Outcome::UnknownOpcode { word }));
        assert_eq!(c.pc(), pc + 2);
    }
}

#[test]
fn fetch_past_end_of_memory_faults() {
    let mut c = machine();
    run(&mut c, 0x1FFF);
    assert_eq!(c.run_cycle(NO_KEY), Err(Fault::ProgramCounterOutOfRange));
    assert_eq!(c.execute(0x6001, NO_KEY, 0), Err(Fault::ProgramCounterOutOfRange));
    assert_eq!(c.pc(), 0xFFF);
}

#[test]
fn random_is_masked() {
    let mut c = machine();
    c.execute(0xC30F, NO_KEY, 0xAB).unwrap();
    assert_eq!(c.register(3), 0x0B);
    c.execute(0xC300, NO_KEY, 0xAB).unwrap();
    assert_eq!(c.register(3), 0);
}

#[test]
fn random_through_cycle_respects_mask() {
    let mut c = Chip8::new(vec![0x63, 0xFF, 0xC3, 0x00, 0xC4, 0x0F], false).unwrap();
    c.run_cycle(NO_KEY).unwrap();
    assert_eq!(c.register(3), 0xFF);
    c.run_cycle(NO_KEY).unwrap();
    assert_eq!(c.register(3), 0);
    c.run_cycle(NO_KEY).unwrap();
    assert!(c.register(4) <= 0x0F);
}

#[test]
fn index_arithmetic() {
    let mut c = machine();
    set(&mut c, 2, 0x0A);
    run(&mut c, 0xF229);
    assert_eq!(c.index(), 50);
    set(&mut c, 2, 0xFF);
    run(&mut c, 0xF229);
    assert_eq!(c.index(), 1275);
    run(&mut c, 0xAFFF);
    run(&mut c, 0xF21E);
    assert_eq!(c.index(), 0x10FE);
}

#[test]
fn key_skips() {
    let mut c = machine();
    set(&mut c, 1, 0x7);
    let pc = c.pc();
    c.execute(0xE19E, 0x7, 0).unwrap();
    assert_eq!(c.pc(), pc + 4);
    c.execute(0xE1A1, 0x7, 0).unwrap();
    assert_eq!(c.pc(), pc + 6);
    c.execute(0xE19E, NO_KEY, 0).unwrap();
    assert_eq!(c.pc(), pc + 8);
    c.execute(0xE1A1, NO_KEY, 0).unwrap();
    assert_eq!(c.pc(), pc + 12);
    set(&mut c, 1, 0x10);
    let pc = c.pc();
    c.execute(0xE19E, 0x10, 0).unwrap();
    assert_eq!(c.pc(), pc + 2);
}

#[test]
fn wait_for_key_suspends_then_resumes() {
    let mut c = Chip8::new(vec![0xF5, 0x0A], false).unwrap();
    assert_eq!(c.run_cycle(NO_KEY), Ok(Outcome::AwaitingKey));
    assert!(c.awaiting_key());
    assert_eq!(c.pc(), 0x200);
    assert_eq!(c.run_cycle(0x20), Ok(Outcome::AwaitingKey));
    assert_eq!(c.pc(), 0x200);
    assert_eq!(c.run_cycle(0xB), Ok(Outcome::Executed));
    assert!(!c.awaiting_key());
    assert_eq!(c.register(5), 0xB);
    assert_eq!(c.pc(), 0x202);
}

#[test]
fn timers_count_down_to_zero() {
    let mut c = machine();
    set(&mut c, 0, 2);
    run(&mut c, 0xF015);
    set(&mut c, 1, 1);
    run(&mut c, 0xF118);
    assert_eq!(c.delay_timer(), 2);
    assert_eq!(c.sound_timer(), 1);
    c.tick_timers();
    assert_eq!((c.delay_timer(), c.sound_timer()), (1, 0));
    c.tick_timers();
    assert_eq!((c.delay_timer(), c.sound_timer()), (0, 0));
    c.tick_timers();
    assert_eq!((c.delay_timer(), c.sound_timer()), (0, 0));
    run(&mut c, 0xF207);
    assert_eq!(c.register(2), 0);
}

#[test]
fn executing_does_not_tick_timers() {
    let mut c = machine();
    set(&mut c, 0, 9);
    run(&mut c, 0xF015);
    for _ in 0..5 {
        run(&mut c, 0x6100);
    }
    assert_eq!(c.delay_timer(), 9);
    run(&mut c, 0xF307);
    assert_eq!(c.register(3), 9);
}

#[test]
fn load_places_font_and_program() {
    let c = Chip8::new(vec![0x12, 0x34, 0x56], false).unwrap();
    assert_eq!(c.memory_at(0), 0xF0);
    assert_eq!(c.memory_at(5), 0x20);
    assert_eq!(c.memory_at(79), 0x80);
    assert_eq!(c.memory_at(80), 0);
    assert_eq!(c.memory_at(0x200), 0x12);
    assert_eq!(c.memory_at(0x202), 0x56);
    assert_eq!(c.memory_at(0x203), 0);
    assert_eq!(c.pc(), 0x200);
    assert_eq!(c.index(), 0);
    assert_eq!(c.stack_depth(), 0);
    assert!(c.display.iter().all(|p| !p));
}

#[test]
fn largest_program_fits() {
    let c = Chip8::new(vec![0xAB; 4096 - 0x200], false).unwrap();
    assert_eq!(c.memory_at(0xFFF), 0xAB);
}

#[test]
fn oversized_program_is_rejected() {
    assert!(matches!(
        Chip8::new(vec![0; 4096 - 0x200 + 1], false),
        Err(LoadError::ProgramTooLarge)
    ));
}

#[test]
fn demo_program_draws_two_glyphs() {
    let mut c = Chip8::new(vec![0; 5000], true).unwrap();
    assert_eq!(c.memory_at(0x200), 0xD1);
    assert_eq!(c.memory_at(0x207), 0x25);
    for _ in 0..4 {
        assert_eq!(c.run_cycle(NO_KEY), Ok(Outcome::Executed));
    }
    // glyph 0 at (0, 0), glyph 1 at (5, 0)
    assert!(c.display[0] && c.display[3]);
    assert!(!c.display[4]);
    assert!(c.display[64 + 5 + 1]);
    assert_eq!(c.register(15), 0);
}
