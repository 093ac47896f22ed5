use rip8::instruction::{decode, Instruction};
use rip8::machine::Chip8;
use rip8::model::{Fault, Outcome, NO_KEY};

fn run(c: &mut Chip8, word: u16) {
    assert_eq!(c.execute(word, NO_KEY, 0), Ok(Outcome::Executed));
}

fn lit(c: &Chip8) -> usize {
    c.display.iter().filter(|p| **p).count()
}

#[test]
fn drawing_twice_erases_with_collision() {
    let mut c = Chip8::new(Vec::new(), false).unwrap();
    run(&mut c, 0x6003);
    run(&mut c, 0x6104);
    run(&mut c, 0xA000);
    run(&mut c, 0xD015);
    assert_eq!(c.register(15), 0);
    assert_eq!(lit(&c), 14);
    assert!(c.draw_flag);
    run(&mut c, 0xD015);
    assert_eq!(c.register(15), 1);
    assert_eq!(lit(&c), 0);
}

#[test]
fn clear_then_draw_starts_from_blank() {
    let mut c = Chip8::new(Vec::new(), false).unwrap();
    run(&mut c, 0xA000);
    run(&mut c, 0xD005);
    assert_eq!(lit(&c), 14);
    run(&mut c, 0x00E0);
    assert!(c.draw_flag);
    assert_eq!(lit(&c), 0);
    run(&mut c, 0xD005);
    assert_eq!(c.register(15), 0);
    assert_eq!(lit(&c), 14);
    run(&mut c, 0x6100);
    assert!(!c.draw_flag);
}

#[test]
fn draw_wraps_at_right_and_bottom_edges() {
    let mut c = Chip8::new(vec![0xFF], false).unwrap();
    run(&mut c, 0x603E);
    run(&mut c, 0x611F);
    run(&mut c, 0xA200);
    run(&mut c, 0xD011);
    assert_eq!(lit(&c), 8);
    let row = 31 * 64;
    assert!(c.display[row + 62] && c.display[row + 63]);
    for col in 0..6 {
        assert!(c.display[row + col]);
    }
    assert!(!c.display[row + 6]);
    assert_eq!(c.register(15), 0);
}

#[test]
fn draw_coordinates_wrap_modulo_screen() {
    let mut c = Chip8::new(vec![0x80, 0x80], false).unwrap();
    run(&mut c, 0x6042);
    run(&mut c, 0x6125);
    run(&mut c, 0xA200);
    run(&mut c, 0xD012);
    assert!(c.display[5 * 64 + 2]);
    assert!(c.display[6 * 64 + 2]);
    assert_eq!(lit(&c), 2);
}

#[test]
fn sprite_past_end_of_memory_faults() {
    let mut c = Chip8::new(Vec::new(), false).unwrap();
    run(&mut c, 0xAFFD);
    assert_eq!(c.execute(0xD004, NO_KEY, 0), Err(Fault::MemoryOutOfRange));
    assert_eq!(lit(&c), 0);
    run(&mut c, 0xD003);
}

#[test]
fn decode_extracts_fields() {
    assert_eq!(decode(0xD12F), Instruction::Draw { x: 1, y: 2, n: 0xF });
    assert_eq!(decode(0x3A7C), Instruction::SkipEqImm { x: 0xA, nn: 0x7C });
    assert_eq!(decode(0x2BCD), Instruction::Call { nnn: 0xBCD });
    assert_eq!(decode(0x8AB6), Instruction::ShiftRight { x: 0xA, y: 0xB });
    assert_eq!(decode(0xF965), Instruction::Load { x: 9 });
    assert_eq!(decode(0x00E0), Instruction::Clear);
    assert_eq!(decode(0x00EE), Instruction::Return);
    assert_eq!(decode(0x0000), Instruction::Unknown { word: 0 });
    assert_eq!(decode(0x5AB1), Instruction::Unknown { word: 0x5AB1 });
}
