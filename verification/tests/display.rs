use chip8::fault::Fault;
use chip8::instruction::Instruction;
use chip8::machine::Chip8;
use chip8::render::{pixel_box, window_size, PixelBox, MAX_PIXEL_SIZE};
use chip8::screen::{Screen, SCREEN_HEIGHT, SCREEN_WIDTH};

fn machine_showing(program: &[u8]) -> Chip8 {
    let mut chip = Chip8::new();
    assert_eq!(chip.load_rom(program), Ok(()));
    chip
}

fn advance(chip: &mut Chip8, steps: usize) {
    for _ in 0..steps {
        assert_eq!(chip.step(), Ok(()));
    }
}

fn lit_pixels(chip: &Chip8) -> Vec<(usize, usize)> {
    let mut lit = Vec::new();
    for y in 0..SCREEN_HEIGHT {
        for x in 0..SCREEN_WIDTH {
            if chip.screen().get_pixel((x, y)) {
                lit.push((x, y));
            }
        }
    }
    lit
}

#[test]
fn screen_constants_are_64_by_32() {
    assert_eq!(SCREEN_WIDTH, 64);
    assert_eq!(SCREEN_HEIGHT, 32);
}

#[test]
fn new_screen_is_blank() {
    let screen = Screen::new();
    for x in 0..64 {
        for y in 0..32 {
            assert!(!screen.get_pixel((x, y)));
        }
    }
}

#[test]
fn set_pixel_changes_one_pixel_only() {
    let mut screen = Screen::new();
    screen.set_pixel((63, 31), true);
    screen.set_pixel((5, 7), true);
    for x in 0..64 {
        for y in 0..32 {
            assert_eq!(screen.get_pixel((x, y)), (x, y) == (63, 31) || (x, y) == (5, 7));
        }
    }
    screen.set_pixel((5, 7), false);
    assert!(!screen.get_pixel((5, 7)));
    assert!(screen.get_pixel((63, 31)));
    assert!(!screen.get_pixel((7, 5)));
}

#[test]
fn draw_shows_the_sprite_bits_leftmost_first() {
    // I = 0x20A holds the sprite rows 0xA5 and 0x81.
    let mut chip = machine_showing(&[
        0x61, 0x03, 0x62, 0x04, 0xA2, 0x0A, 0xD1, 0x22, 0x00, 0x00, 0xA5, 0x81,
    ]);
    advance(&mut chip, 4);
    assert_eq!(
        lit_pixels(&chip),
        vec![(3, 4), (5, 4), (8, 4), (10, 4), (3, 5), (10, 5)]
    );
    assert_eq!(chip.register(0xF), 0);
    assert_eq!(chip.index(), 0x20A);
}

#[test]
fn draw_of_a_font_glyph_shows_the_glyph() {
    // Glyph of 1: 0x40, 0xc0, 0x40, 0x40, 0xe0.
    let mut chip = machine_showing(&[0x61, 0x01, 0xF1, 0x29, 0x62, 0x00, 0xD2, 0x25]);
    advance(&mut chip, 4);
    assert_eq!(
        lit_pixels(&chip),
        vec![(1, 0), (0, 1), (1, 1), (1, 2), (1, 3), (0, 4), (1, 4), (2, 4)]
    );
}

#[test]
fn draw_onto_set_pixels_switches_them_off_and_reports_the_collision() {
    let mut chip = machine_showing(&[0xA2, 0x06, 0xD0, 0x01, 0xD0, 0x01, 0xFF]);
    advance(&mut chip, 2);
    assert_eq!(lit_pixels(&chip).len(), 8);
    for x in 0..8 {
        assert!(chip.screen().get_pixel((x, 0)));
    }
    assert_eq!(chip.register(0xF), 0);
    advance(&mut chip, 1);
    assert_eq!(lit_pixels(&chip), vec![]);
    assert_eq!(chip.register(0xF), 1);
}

#[test]
fn draw_without_overlap_clears_an_earlier_collision_flag() {
    let mut chip = machine_showing(&[
        0xA2, 0x0C, 0xD0, 0x01, 0xD0, 0x01, 0x61, 0x10, 0xD1, 0x11, 0x00, 0x00, 0xFF,
    ]);
    advance(&mut chip, 3);
    assert_eq!(chip.register(0xF), 1);
    advance(&mut chip, 2);
    assert_eq!(chip.register(0xF), 0);
    assert_eq!(lit_pixels(&chip).len(), 8);
    assert!(chip.screen().get_pixel((16, 16)));
    assert!(chip.screen().get_pixel((23, 16)));
}

#[test]
fn draw_partly_overlapping_flips_and_collides() {
    // 0xF0 at x = 0, then 0xF0 at x = 2: columns 2 and 3 go off, 4 and 5 come on.
    let mut chip = machine_showing(&[0xA2, 0x08, 0xD0, 0x01, 0x61, 0x02, 0xD1, 0x01, 0xF0]);
    advance(&mut chip, 4);
    assert_eq!(lit_pixels(&chip), vec![(0, 0), (1, 0), (4, 0), (5, 0)]);
    assert_eq!(chip.register(0xF), 1);
}

#[test]
fn draw_wraps_around_the_right_edge() {
    let mut chip = machine_showing(&[0x61, 0x3C, 0xA2, 0x06, 0xD1, 0x01, 0xFF]);
    advance(&mut chip, 3);
    assert_eq!(
        lit_pixels(&chip),
        vec![(0, 0), (1, 0), (2, 0), (3, 0), (60, 0), (61, 0), (62, 0), (63, 0)]
    );
    assert_eq!(chip.register(0xF), 0);
}

#[test]
fn draw_wraps_around_the_bottom_edge() {
    let mut chip = machine_showing(&[0x62, 0x1E, 0xA2, 0x06, 0xD0, 0x24, 0x80, 0x80, 0x80, 0x80]);
    advance(&mut chip, 3);
    assert_eq!(lit_pixels(&chip), vec![(0, 0), (0, 1), (0, 30), (0, 31)]);
}

#[test]
fn draw_reduces_coordinates_beyond_the_screen() {
    // VX = 200 is column 8, VY = 100 is row 4.
    let mut chip = machine_showing(&[0x61, 0xC8, 0x62, 0x64, 0xA2, 0x08, 0xD1, 0x21, 0x80]);
    advance(&mut chip, 4);
    assert_eq!(lit_pixels(&chip), vec![(8, 4)]);
}

#[test]
fn draw_of_zero_rows_changes_no_pixel_and_clears_the_flag() {
    let mut chip = machine_showing(&[0x6F, 0x01, 0xAF, 0xFF, 0xD0, 0x00]);
    advance(&mut chip, 3);
    assert_eq!(lit_pixels(&chip), vec![]);
    assert_eq!(chip.register(0xF), 0);
}

#[test]
fn draw_of_fifteen_rows_ending_at_the_last_cell() {
    let mut program = vec![0u8; 4096 - 0x200];
    program[0..2].copy_from_slice(&[0xAF, 0xF1]);
    program[2..4].copy_from_slice(&[0xD0, 0x0F]);
    program[0xFFF - 0x200] = 0x01;
    let mut chip = machine_showing(&program);
    advance(&mut chip, 2);
    assert_eq!(lit_pixels(&chip), vec![(7, 14)]);
}

#[test]
fn draw_reading_past_the_end_of_memory_is_out_of_bounds() {
    let mut program = vec![0xFFu8; 4096 - 0x200];
    program[0..2].copy_from_slice(&[0xAF, 0xFF]);
    program[2..4].copy_from_slice(&[0xD0, 0x02]);
    program[4..6].copy_from_slice(&[0xD0, 0x01]);
    let mut chip = machine_showing(&program);
    advance(&mut chip, 1);
    assert_eq!(chip.step(), Err(Fault::OutOfBounds));
    assert_eq!(lit_pixels(&chip), vec![]);
    assert_eq!(chip.program_counter(), 0x204);
    advance(&mut chip, 1);
    assert_eq!(lit_pixels(&chip).len(), 8);
}

#[test]
fn draw_uses_the_flag_register_as_a_coordinate_before_clearing_it() {
    let mut chip = machine_showing(&[0x6F, 0x05, 0xA2, 0x06, 0xDF, 0xF1, 0x80]);
    advance(&mut chip, 3);
    assert_eq!(lit_pixels(&chip), vec![(5, 5)]);
    assert_eq!(chip.register(0xF), 0);
}

#[test]
fn clear_screen_switches_every_pixel_off() {
    let mut chip = machine_showing(&[
        0xA2, 0x0C, 0xD0, 0x01, 0x61, 0x3C, 0x62, 0x1F, 0xD1, 0x21, 0x00, 0xE0, 0xFF,
    ]);
    advance(&mut chip, 5);
    assert_eq!(lit_pixels(&chip).len(), 16);
    advance(&mut chip, 1);
    assert_eq!(lit_pixels(&chip), vec![]);
    assert_eq!(chip.program_counter(), 0x20C);
    assert_eq!(chip.register(1), 0x3C);
    assert_eq!(chip.index(), 0x20C);
}

#[test]
fn clear_screen_of_a_blank_screen_leaves_it_blank() {
    let mut chip = Chip8::new();
    assert_eq!(chip.execute(Instruction::ClearScreen, 0), Ok(()));
    assert_eq!(lit_pixels(&chip), vec![]);
}

#[test]
fn pixel_box_is_the_square_of_the_pixel() {
    assert_eq!(pixel_box(0, 0, 8), Some(PixelBox { x1: 0, y1: 0, x2: 8, y2: 8 }));
    assert_eq!(pixel_box(3, 2, 8), Some(PixelBox { x1: 24, y1: 16, x2: 32, y2: 24 }));
    assert_eq!(pixel_box(63, 31, 8), Some(PixelBox { x1: 504, y1: 248, x2: 512, y2: 256 }));
    assert_eq!(pixel_box(5, 6, 0), Some(PixelBox { x1: 0, y1: 0, x2: 0, y2: 0 }));
}

#[test]
fn pixel_box_at_the_largest_pixel_size() {
    assert_eq!(MAX_PIXEL_SIZE, 511);
    assert_eq!(
        pixel_box(63, 31, 511),
        Some(PixelBox { x1: 32193, y1: 15841, x2: 32704, y2: 16352 })
    );
    assert_eq!(pixel_box(63, 31, 512), None);
    assert_eq!(pixel_box(0, 0, 512), None);
    assert_eq!(pixel_box(0, 0, u32::MAX), None);
}

#[test]
fn window_size_is_the_screen_in_points() {
    assert_eq!(window_size(8), Some((512, 256)));
    assert_eq!(window_size(1), Some((64, 32)));
    assert_eq!(window_size(511), Some((32704, 16352)));
    assert_eq!(window_size(512), None);
}
