use chip8::display::Framebuffer;
use chip8::{Chip8Error, Keypad, Machine};

fn lit_pixels(screen: &Framebuffer) -> Vec<(usize, usize)> {
    let mut lit = Vec::new();
    for y in 0..32 {
        for x in 0..64 {
            if screen.pixel(x, y) == Some(true) {
                lit.push((x, y));
            }
        }
    }
    lit
}

fn rows_of(machine: &Machine) -> Vec<String> {
    let snapshot = machine.snapshot();
    (0..32)
        .map(|y| (0..64).map(|x| if snapshot[y * 64 + x] { '#' } else { '.' }).collect())
        .collect()
}

#[test]
fn new_screen_is_blank() {
    let screen = Framebuffer::new();
    assert!(lit_pixels(&screen).is_empty());
    assert_eq!(screen.snapshot().len(), 2048);
}

#[test]
fn pixel_outside_the_screen_is_none() {
    let screen = Framebuffer::new();
    assert_eq!(screen.pixel(63, 31), Some(false));
    assert_eq!(screen.pixel(64, 0), None);
    assert_eq!(screen.pixel(0, 32), None);
}

#[test]
fn sprite_bits_go_left_to_right_from_the_high_bit() {
    let mut screen = Framebuffer::new();
    assert!(!screen.draw_sprite(3, 5, &[0b1010_0001]));
    assert_eq!(lit_pixels(&screen), vec![(3, 5), (5, 5), (10, 5)]);
}

#[test]
fn sprite_rows_go_downward() {
    let mut screen = Framebuffer::new();
    assert!(!screen.draw_sprite(0, 0, &[0x80, 0x40, 0x20]));
    assert_eq!(lit_pixels(&screen), vec![(0, 0), (1, 1), (2, 2)]);
}

#[test]
fn drawing_twice_clears_and_collides() {
    let mut screen = Framebuffer::new();
    let sprite = [0xF0, 0x90, 0x90, 0x90, 0xF0];
    assert!(!screen.draw_sprite(10, 10, &sprite));
    assert_eq!(lit_pixels(&screen).len(), 14);
    assert!(screen.draw_sprite(10, 10, &sprite));
    assert!(lit_pixels(&screen).is_empty());
}

#[test]
fn drawing_an_empty_sprite_twice_never_collides() {
    let mut screen = Framebuffer::new();
    assert!(!screen.draw_sprite(10, 10, &[0x00, 0x00]));
    assert!(!screen.draw_sprite(10, 10, &[0x00, 0x00]));
    assert!(!screen.draw_sprite(10, 10, &[]));
    assert!(lit_pixels(&screen).is_empty());
}

#[test]
fn collision_flag_needs_a_lit_pixel_under_a_set_bit() {
    let mut screen = Framebuffer::new();
    assert!(!screen.draw_sprite(0, 0, &[0b1010_0000]));
    assert!(!screen.draw_sprite(0, 0, &[0b0101_0000]));
    assert_eq!(lit_pixels(&screen), vec![(0, 0), (1, 0), (2, 0), (3, 0)]);
    assert!(screen.draw_sprite(0, 0, &[0b0001_1000]));
    assert_eq!(lit_pixels(&screen), vec![(0, 0), (1, 0), (2, 0), (4, 0)]);
}

#[test]
fn sprite_wraps_around_the_right_edge() {
    let mut screen = Framebuffer::new();
    assert!(!screen.draw_sprite(60, 0, &[0xFF]));
    assert_eq!(
        lit_pixels(&screen),
        vec![(0, 0), (1, 0), (2, 0), (3, 0), (60, 0), (61, 0), (62, 0), (63, 0)]
    );
}

#[test]
fn sprite_wraps_around_the_bottom_edge() {
    let mut screen = Framebuffer::new();
    assert!(!screen.draw_sprite(0, 30, &[0x80, 0x80, 0x80, 0x80]));
    assert_eq!(lit_pixels(&screen), vec![(0, 0), (0, 1), (0, 30), (0, 31)]);
}

#[test]
fn coordinates_are_taken_around_the_edges() {
    let mut screen = Framebuffer::new();
    assert!(!screen.draw_sprite(64 + 5, 32 + 7, &[0x80]));
    assert_eq!(lit_pixels(&screen), vec![(5, 7)]);
    // From column 63 and row 31, pixel 6 of the ninth row comes to (5, 7).
    assert!(screen.draw_sprite(255, 255, &[0x01, 0x00, 0x00, 0x00, 0x00, 0x00, 0x00, 0x00, 0x02]));
    assert_eq!(lit_pixels(&screen), vec![(6, 31)]);
}

#[test]
fn sprite_taller_than_the_screen_comes_round_onto_itself() {
    let mut screen = Framebuffer::new();
    let sprite = [0x80u8; 40];
    assert!(screen.draw_sprite(0, 0, &sprite));
    let expected: Vec<(usize, usize)> = (8..32).map(|y| (0, y)).collect();
    assert_eq!(lit_pixels(&screen), expected);
}

#[test]
fn clear_turns_every_pixel_off() {
    let mut screen = Framebuffer::new();
    screen.draw_sprite(0, 0, &[0xFF, 0xFF]);
    screen.clear();
    assert!(lit_pixels(&screen).is_empty());
}

#[test]
fn draw_instruction_reads_the_sprite_at_the_index_register() {
    // V0 := 5; V1 := 3; I := font sprite of 0; draw 5 rows at (V0, V1)
    let program = [0x60, 0x05, 0x61, 0x03, 0xA0, 0x00, 0xD0, 0x15];
    let mut machine = Machine::new();
    assert_eq!(machine.init(&program), Ok(()));
    let keypad = Keypad::new();
    for _ in 0..3 {
        assert!(machine.cycle_with(&keypad, 0).is_ok());
    }
    assert_eq!(machine.cycle_with(&keypad, 0), Ok(22734));
    assert_eq!(machine.register(0xF), Some(0));
    let rows = rows_of(&machine);
    assert_eq!(&rows[3][5..13], "####....");
    assert_eq!(&rows[4][5..13], "#..#....");
    assert_eq!(&rows[5][5..13], "#..#....");
    assert_eq!(&rows[6][5..13], "#..#....");
    assert_eq!(&rows[7][5..13], "####....");
    assert_eq!(rows.iter().map(|r| r.matches('#').count()).sum::<usize>(), 14);
    assert_eq!(machine.pixel(5, 3), Some(true));
    assert_eq!(machine.pixel(6, 4), Some(false));
    assert_eq!(machine.pixel(64, 3), None);
}

#[test]
fn draw_instruction_twice_sets_flag_and_clears() {
    let program = [0x60, 0x05, 0x61, 0x03, 0xA0, 0x00, 0xD0, 0x15, 0xD0, 0x15, 0xD0, 0x15];
    let mut machine = Machine::new();
    assert_eq!(machine.init(&program), Ok(()));
    let keypad = Keypad::new();
    for _ in 0..4 {
        assert!(machine.cycle_with(&keypad, 0).is_ok());
    }
    assert_eq!(machine.register(0xF), Some(0));
    assert!(machine.cycle_with(&keypad, 0).is_ok());
    assert_eq!(machine.register(0xF), Some(1));
    assert!(machine.snapshot().iter().all(|lit| !lit));
    assert!(machine.cycle_with(&keypad, 0).is_ok());
    assert_eq!(machine.register(0xF), Some(0));
    assert_eq!(machine.snapshot().iter().filter(|lit| **lit).count(), 14);
}

#[test]
fn draw_instruction_wraps_at_column_sixty() {
    // V0 := 60; V1 := 0; I := 0x20A; draw 1 row
    let program = [0x60, 0x3C, 0x61, 0x00, 0xA2, 0x0A, 0xD0, 0x11, 0x12, 0x08, 0xFF];
    let mut machine = Machine::new();
    assert_eq!(machine.init(&program), Ok(()));
    let keypad = Keypad::new();
    for _ in 0..4 {
        assert!(machine.cycle_with(&keypad, 0).is_ok());
    }
    let rows = rows_of(&machine);
    assert_eq!(&rows[0][0..4], "####");
    assert_eq!(&rows[0][4..60], ".".repeat(56));
    assert_eq!(&rows[0][60..64], "####");
    assert!(rows[1..].iter().all(|row| !row.contains('#')));
}

#[test]
fn draw_instruction_with_no_rows_draws_nothing() {
    let program = [0x6F, 0x01, 0xAF, 0xFF, 0xD0, 0x10];
    let mut machine = Machine::new();
    assert_eq!(machine.init(&program), Ok(()));
    let keypad = Keypad::new();
    for _ in 0..3 {
        assert!(machine.cycle_with(&keypad, 0).is_ok());
    }
    assert_eq!(machine.register(0xF), Some(0));
    assert!(machine.snapshot().iter().all(|lit| !lit));
}

#[test]
fn draw_instruction_past_memory_fails() {
    let program = [0x6F, 0x07, 0xAF, 0xFE, 0xD0, 0x13];
    let mut machine = Machine::new();
    assert_eq!(machine.init(&program), Ok(()));
    let keypad = Keypad::new();
    for _ in 0..2 {
        assert!(machine.cycle_with(&keypad, 0).is_ok());
    }
    assert_eq!(machine.cycle_with(&keypad, 0), Err(Chip8Error::AddressOutOfRange));
    assert_eq!(machine.register(0xF), Some(0x07));
    assert!(machine.snapshot().iter().all(|lit| !lit));
}

#[test]
fn draw_instruction_up_to_the_last_byte_of_memory() {
    let program = [0xAF, 0xFE, 0xD0, 0x12];
    let mut machine = Machine::new();
    assert_eq!(machine.init(&program), Ok(()));
    let keypad = Keypad::new();
    assert!(machine.cycle_with(&keypad, 0).is_ok());
    assert_eq!(machine.cycle_with(&keypad, 0), Ok(22734));
}

#[test]
fn clear_instruction_blanks_the_screen() {
    let program = [0xA0, 0x00, 0xD0, 0x15, 0x00, 0xE0];
    let mut machine = Machine::new();
    assert_eq!(machine.init(&program), Ok(()));
    let keypad = Keypad::new();
    for _ in 0..2 {
        assert!(machine.cycle_with(&keypad, 0).is_ok());
    }
    assert!(machine.snapshot().iter().any(|lit| *lit));
    assert_eq!(machine.cycle_with(&keypad, 0), Ok(109));
    assert!(machine.snapshot().iter().all(|lit| !lit));
}

#[test]
fn logo_program_draws_the_reference_image() {
    let program: [u8; 132] = [
        0x00, 0xE0, 0xA2, 0x2A, 0x60, 0x0C, 0x61, 0x08, 0xD0, 0x1F, 0x70, 0x09, 0xA2, 0x39, 0xD0,
        0x1F, 0xA2, 0x48, 0x70, 0x08, 0xD0, 0x1F, 0x70, 0x04, 0xA2, 0x57, 0xD0, 0x1F, 0x70, 0x08,
        0xA2, 0x66, 0xD0, 0x1F, 0x70, 0x08, 0xA2, 0x75, 0xD0, 0x1F, 0x12, 0x28, 0xFF, 0x00, 0xFF,
        0x00, 0x3C, 0x00, 0x3C, 0x00, 0x3C, 0x00, 0x3C, 0x00, 0xFF, 0x00, 0xFF, 0xFF, 0x00, 0xFF,
        0x00, 0x38, 0x00, 0x3F, 0x00, 0x3F, 0x00, 0x38, 0x00, 0xFF, 0x00, 0xFF, 0x80, 0x00, 0xE0,
        0x00, 0xE0, 0x00, 0x80, 0x00, 0x80, 0x00, 0xE0, 0x00, 0xE0, 0x00, 0x80, 0xF8, 0x00, 0xFC,
        0x00, 0x3E, 0x00, 0x3F, 0x00, 0x3B, 0x00, 0x39, 0x00, 0xF8, 0x00, 0xF8, 0x03, 0x00, 0x07,
        0x00, 0x0F, 0x00, 0xBF, 0x00, 0xFB, 0x00, 0xF3, 0x00, 0xE3, 0x00, 0x43, 0xE0, 0x00, 0xE0,
        0x00, 0x80, 0x00, 0x80, 0x00, 0x80, 0x00, 0x80, 0x00, 0xE0, 0x00, 0xE0,
    ];
    let blank = "................................................................";
    let image = [
        "............########.#########...#####.........#####............",
        "............########.###########.######.......######............",
        "..............####.....###...###...#####.....#####..............",
        "..............####.....#######.....#######.#######..............",
        "..............####.....#######.....###.#######.###..............",
        "..............####.....###...###...###..#####..###..............",
        "............########.###########.#####...###...#####............",
        "............########.#########...#####....#....#####............",
    ];
    let mut expected: Vec<String> = vec![blank.to_string(); 32];
    for (i, row) in image.iter().enumerate() {
        expected[8 + 2 * i] = row.to_string();
    }

    let mut machine = Machine::new();
    assert_eq!(machine.init(&program), Ok(()));
    let keypad = Keypad::new();
    let mut steps = 0;
    // The program ends in a jump to itself.
    loop {
        let before = machine.pc();
        assert!(machine.cycle(&keypad).is_ok());
        steps += 1;
        if machine.pc() == before {
            break;
        }
        assert!(steps < 100);
    }
    assert_eq!(steps, 21);
    assert_eq!(machine.pc(), 0x228);
    assert_eq!(rows_of(&machine), expected);
    assert_eq!(machine.register(0xF), Some(0));

    // A second run gives the same image, and so do further steps.
    let mut again = Machine::new();
    assert_eq!(again.init(&program), Ok(()));
    for _ in 0..50 {
        assert!(again.cycle(&keypad).is_ok());
    }
    assert_eq!(rows_of(&again), expected);
}
