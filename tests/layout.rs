use chess_board_layout::{
    cell_extent, cell_tone, cell_translation, convert, position_translation, size_scaling,
    spawn_board, square_side, Cell, Extent, Position, Size, Tone, Translation, Window,
    CELL_FACTOR, INITIAL_SIDE, SUBPIXELS_PER_PIXEL,
};

fn px(v: i64) -> f64 {
    v as f64 / SUBPIXELS_PER_PIXEL as f64
}

#[test]
fn board_has_sixty_four_cells_in_column_order() {
    let cells = spawn_board();
    assert_eq!(cells.len(), 64);
    for (i, c) in cells.iter().enumerate() {
        assert_eq!(c.position, Position { x: (i / 8) as i32, y: (i % 8) as i32 });
        assert_eq!(c.size, Size { width: 95, height: 95 });
        assert_eq!(c.extent, Extent { width: INITIAL_SIDE, height: INITIAL_SIDE });
        assert_eq!(c.translation, Translation { x: 0, y: 0 });
    }
}

#[test]
fn board_tones_follow_parity() {
    let cells = spawn_board();
    for c in &cells {
        let light = (c.position.x + c.position.y + 1) % 2 == 0;
        assert_eq!(c.tone == Tone::Light, light);
    }
    assert_eq!(cells[0].tone, Tone::Dark);
    assert_eq!(cells[1].tone, Tone::Light);
    assert_eq!(cells[8].tone, Tone::Light);
    assert_eq!(cells[9].tone, Tone::Dark);
    assert_eq!(cells.iter().filter(|c| c.tone == Tone::Light).count(), 32);
}

#[test]
fn tone_of_corners() {
    assert_eq!(cell_tone(0, 0), Tone::Dark);
    assert_eq!(cell_tone(7, 0), Tone::Light);
    assert_eq!(cell_tone(0, 7), Tone::Light);
    assert_eq!(cell_tone(7, 7), Tone::Dark);
}

#[test]
fn size_cell_is_square() {
    assert_eq!(Size::cell(CELL_FACTOR), Size { width: 95, height: 95 });
}

#[test]
fn square_side_is_smaller_dimension() {
    assert_eq!(square_side(Window { width: 800, height: 600 }), 600);
    assert_eq!(square_side(Window { width: 600, height: 900 }), 600);
    assert_eq!(square_side(Window { width: 700, height: 700 }), 700);
}

#[test]
fn convert_gives_tile_centres() {
    // tile size 75 px: first centre at -300 + 37.5, last at 225 + 37.5
    assert_eq!(px(convert(0, 600)), -262.5);
    assert_eq!(px(convert(7, 600)), 262.5);
    assert_eq!(px(convert(4, 600)), 37.5);
}

#[test]
fn extent_at_default_window() {
    let e = cell_extent(Size::cell(95), Window { width: 800, height: 600 });
    // 0.95 / 8 * 600 * 0.9
    assert_eq!(px(e.width), 64.125);
    assert_eq!(e.width, e.height);
}

#[test]
fn extent_doubles_with_window() {
    let size = Size::cell(95);
    let a = cell_extent(size, Window { width: 800, height: 600 });
    let b = cell_extent(size, Window { width: 1600, height: 1200 });
    assert_eq!(b.width, 2 * a.width);
    assert_eq!(b.height, 2 * a.height);
}

#[test]
fn extent_unchanged_when_widening() {
    let size = Size::cell(95);
    let a = cell_extent(size, Window { width: 800, height: 600 });
    let b = cell_extent(size, Window { width: 1000, height: 600 });
    assert_eq!(a, b);
}

#[test]
fn extent_of_unequal_factors() {
    let e = cell_extent(Size { width: 100, height: 50 }, Window { width: 800, height: 800 });
    assert_eq!(px(e.width), 90.0);
    assert_eq!(px(e.height), 45.0);
}

#[test]
fn translation_at_default_window_origin() {
    let t = cell_translation(Position { x: 0, y: 0 }, Window { width: 800, height: 600 });
    // S = 600, tile 75: 0.05 * 800 + (0 - 300 + 37.5) - 0
    assert_eq!(px(t.x), -222.5);
    // 0.1 * 600 + (0 - 300 + 37.5) - 0
    assert_eq!(px(t.y), -202.5);
}

#[test]
fn translation_of_far_corner() {
    let t = cell_translation(Position { x: 7, y: 7 }, Window { width: 800, height: 600 });
    // 40 + 262.5 - 7 * 16
    assert_eq!(px(t.x), 190.5);
    // 60 + 262.5 - 7 * 12
    assert_eq!(px(t.y), 238.5);
}

#[test]
fn translation_is_reproducible() {
    let w = Window { width: 1024, height: 768 };
    for x in 0..8 {
        for y in 0..8 {
            let p = Position { x, y };
            assert_eq!(cell_translation(p, w), cell_translation(p, w));
        }
    }
}

#[test]
fn size_scaling_updates_only_extent() {
    let before = spawn_board();
    let mut cells = before.clone();
    let w = Window { width: 800, height: 600 };
    size_scaling(w, &mut cells);
    assert_eq!(cells.len(), 64);
    for (c, b) in cells.iter().zip(before.iter()) {
        assert_eq!(px(c.extent.width), 64.125);
        assert_eq!(px(c.extent.height), 64.125);
        assert_eq!(c.translation, b.translation);
        assert_eq!(c.position, b.position);
        assert_eq!(c.tone, b.tone);
    }
    let once = cells.clone();
    size_scaling(w, &mut cells);
    assert_eq!(cells, once);
}

#[test]
fn position_translation_updates_only_translation() {
    let before = spawn_board();
    let mut cells = before.clone();
    let w = Window { width: 800, height: 600 };
    position_translation(w, &mut cells);
    assert_eq!(cells.len(), 64);
    for (c, b) in cells.iter().zip(before.iter()) {
        assert_eq!(c.translation, cell_translation(b.position, w));
        assert_eq!(c.extent, b.extent);
        assert_eq!(c.size, b.size);
    }
    assert_eq!(px(cells[0].translation.x), -222.5);
    let once = cells.clone();
    position_translation(w, &mut cells);
    assert_eq!(cells, once);
}

#[test]
fn passes_on_empty_list() {
    let mut cells: Vec<Cell> = Vec::new();
    size_scaling(Window { width: 800, height: 600 }, &mut cells);
    position_translation(Window { width: 800, height: 600 }, &mut cells);
    assert!(cells.is_empty());
}

#[test]
fn largest_window_does_not_overflow() {
    let w = Window { width: u32::MAX, height: u32::MAX };
    let e = cell_extent(Size { width: u16::MAX, height: u16::MAX }, w);
    assert_eq!(e.width, 9 * u16::MAX as i64 * u32::MAX as i64);
    let t = cell_translation(Position { x: 7, y: 7 }, w);
    assert_eq!(t.x, 400 * u32::MAX as i64 + 3500 * u32::MAX as i64 - 1120 * u32::MAX as i64);
}
