use vstd::prelude::*;
use crate::board::{Cell, Extent, Position, Size, Translation, DESK_HEIGHT, DESK_WIDTH};

verus! {

/// Screen quantities are integers counting this many parts of one pixel.
/// Every constant of the layout is exact at this resolution.
pub const SUBPIXELS_PER_PIXEL: i64 = 8000;

/// The window's inner dimensions, in whole pixels.
#[derive(Clone, Copy, Debug, Default, Hash, PartialEq, Eq, Structural)]
pub struct Window {
    pub width: u32,
    pub height: u32,
}

/// Side of the square the board is drawn in: the smaller window dimension.
pub open spec fn side_of(w: Window) -> int {
    if w.width <= w.height {
        w.width as int
    } else {
        w.height as int
    }
}

/// One on-screen side of a cell, in subpixels, for a size factor of `factor`
/// hundredths: `factor / 100 / 8 * side * 0.9` pixels.
pub open spec fn extent_of(factor: int, side: int) -> int {
    9 * factor * side
}

/// On-screen size of a cell with size factor `size` in window `w`.
pub open spec fn cell_extent_spec(size: Size, w: Window) -> Extent {
    Extent {
        width: extent_of(size.width as int, side_of(w)) as i64,
        height: extent_of(size.height as int, side_of(w)) as i64,
    }
}

/// Centre of tile `pos` of a row of 8 spread over `bound` pixels, relative to
/// the row's middle, in subpixels: `pos / 8 * bound - bound / 2 + bound / 16`.
pub open spec fn center_offset(pos: int, bound: int) -> int {
    1000 * pos * bound - 3500 * bound
}

/// Horizontal centre of column `x`, in subpixels:
/// `0.05 * W + center_offset(x, S) - x * 0.02 * W` pixels.
pub open spec fn horizontal_of(x: int, w: Window) -> int {
    400 * w.width + center_offset(x, side_of(w)) - 160 * x * w.width
}

/// Vertical centre of row `y`, in subpixels:
/// `0.1 * H + center_offset(y, S) - y * 0.02 * H` pixels.
pub open spec fn vertical_of(y: int, w: Window) -> int {
    800 * w.height + center_offset(y, side_of(w)) - 160 * y * w.height
}

/// On-screen centre of the cell at `pos` in window `w`.
pub open spec fn cell_translation_spec(pos: Position, w: Window) -> Translation {
    Translation {
        x: horizontal_of(pos.x as int, w) as i64,
        y: vertical_of(pos.y as int, w) as i64,
    }
}

/// `c` with its on-screen size recomputed for window `w`.
pub open spec fn scaled(c: Cell, w: Window) -> Cell {
    Cell {
        position: c.position,
        size: c.size,
        tone: c.tone,
        extent: cell_extent_spec(c.size, w),
        translation: c.translation,
    }
}

/// `c` with its on-screen centre recomputed for window `w`.
pub open spec fn translated(c: Cell, w: Window) -> Cell {
    Cell {
        position: c.position,
        size: c.size,
        tone: c.tone,
        extent: c.extent,
        translation: cell_translation_spec(c.position, w),
    }
}

/// Every cell of `cells` lies on the board.
pub open spec fn all_on_board(cells: Seq<Cell>) -> bool {
    forall|i: int| 0 <= i < cells.len() ==> (#[trigger] cells[i]).position.on_board()
}

/// Side of the square the board is drawn in.
pub fn square_side(w: Window) -> (s: u32)
    ensures
        s == side_of(w),
{
    if w.width > w.height {
        w.height
    } else {
        w.width
    }
}

/// Centre of tile `pos` of 8 spread over `bound_window` pixels, relative to
/// their middle, in subpixels.
pub fn convert(pos: i32, bound_window: u32) -> (r: i64)
    requires
        0 <= pos < DESK_WIDTH,
    ensures
        r == center_offset(pos as int, bound_window as int),
        -3500 * bound_window <= r <= 3500 * bound_window,
{
    let tile_size: i64 = SUBPIXELS_PER_PIXEL / 16 * bound_window as i64;
    assert(0 <= pos * bound_window <= 7 * bound_window) by (nonlinear_arith)
        requires
            0 <= pos < 8,
            0 <= bound_window,
    ;
    let tiles: i64 = pos as i64 * bound_window as i64;
    assert(1000 * tiles == 1000 * pos * bound_window) by (nonlinear_arith)
        requires
            tiles == pos * bound_window,
    ;
    let from_edge: i64 = SUBPIXELS_PER_PIXEL / 8 * tiles;
    from_edge - SUBPIXELS_PER_PIXEL / 2 * bound_window as i64 + tile_size
}

/// On-screen size of a cell whose size factor is `size`, in window `w`.
pub fn cell_extent(size: Size, w: Window) -> (e: Extent)
    ensures
        e == cell_extent_spec(size, w),
{
    let s: u32 = square_side(w);
    assert(9 * size.width * s <= 9 * 0xffff * 0xffff_ffff) by (nonlinear_arith);
    assert(9 * size.height * s <= 9 * 0xffff * 0xffff_ffff) by (nonlinear_arith);
    Extent {
        width: 9 * size.width as i64 * s as i64,
        height: 9 * size.height as i64 * s as i64,
    }
}

/// On-screen centre of the cell at `pos`, in window `w`.
pub fn cell_translation(pos: Position, w: Window) -> (t: Translation)
    requires
        pos.on_board(),
    ensures
        t == cell_translation_spec(pos, w),
{
    let s: u32 = square_side(w);
    let width: i64 = w.width as i64;
    let height: i64 = w.height as i64;
    assert(0 <= 160 * pos.x * width <= 160 * 7 * 0xffff_ffff) by (nonlinear_arith)
        requires
            0 <= pos.x < 8,
            0 <= width <= 0xffff_ffff,
    ;
    assert(0 <= 160 * pos.y * height <= 160 * 7 * 0xffff_ffff) by (nonlinear_arith)
        requires
            0 <= pos.y < 8,
            0 <= height <= 0xffff_ffff,
    ;
    let x_shift: i64 = 160 * pos.x as i64 * width;
    let y_shift: i64 = 160 * pos.y as i64 * height;
    Translation {
        x: 400 * width + convert(pos.x, s) - x_shift,
        y: 800 * height + convert(pos.y, s) - y_shift,
    }
}

/// Recomputes the on-screen size of every cell for window `w`, leaving
/// everything else as it was.
pub fn size_scaling(w: Window, cells: &mut Vec<Cell>)
    ensures
        final(cells)@.len() == old(cells)@.len(),
        forall|i: int| 0 <= i < old(cells)@.len() ==> #[trigger] final(cells)@[i] == scaled(old(cells)@[i], w),
{
    let n: usize = cells.len();
    let mut i: usize = 0;
    while i < n
        invariant
            n == old(cells)@.len(),
            cells@.len() == n,
            i <= n,
            forall|j: int| 0 <= j < i ==> #[trigger] cells@[j] == scaled(old(cells)@[j], w),
            forall|j: int| i <= j < n ==> #[trigger] cells@[j] == old(cells)@[j],
        decreases n - i,
    {
        let mut c: Cell = cells[i];
        c.extent = cell_extent(c.size, w);
        cells.set(i, c);
        i = i + 1;
    }
}

/// Recomputes the on-screen centre of every cell for window `w`, leaving
/// everything else as it was.
pub fn position_translation(w: Window, cells: &mut Vec<Cell>)
    requires
        all_on_board(old(cells)@),
    ensures
        final(cells)@.len() == old(cells)@.len(),
        forall|i: int| 0 <= i < old(cells)@.len() ==> #[trigger] final(cells)@[i] == translated(old(cells)@[i], w),
{
    let n: usize = cells.len();
    let mut i: usize = 0;
    while i < n
        invariant
            n == old(cells)@.len(),
            all_on_board(old(cells)@),
            cells@.len() == n,
            i <= n,
            forall|j: int| 0 <= j < i ==> #[trigger] cells@[j] == translated(old(cells)@[j], w),
            forall|j: int| i <= j < n ==> #[trigger] cells@[j] == old(cells)@[j],
        decreases n - i,
    {
        let mut c: Cell = cells[i];
        assert(old(cells)@[i as int].position.on_board());
        c.translation = cell_translation(c.position, w);
        cells.set(i, c);
        i = i + 1;
    }
}

/// A cell's on-screen size is proportional to the smaller window dimension:
/// `9 * factor` subpixels per pixel of it. Doubling both window dimensions
/// doubles the size.
pub proof fn lemma_extent_proportional(size: Size, w: Window)
    requires
        2 * w.width <= u32::MAX,
        2 * w.height <= u32::MAX,
    ensures
        cell_extent_spec(size, w).width == 9 * size.width * side_of(w),
        cell_extent_spec(size, w).height == 9 * size.height * side_of(w),
        cell_extent_spec(size, Window { width: (2 * w.width) as u32, height: (2 * w.height) as u32 }).width
            == 2 * cell_extent_spec(size, w).width,
        cell_extent_spec(size, Window { width: (2 * w.width) as u32, height: (2 * w.height) as u32 }).height
            == 2 * cell_extent_spec(size, w).height,
{
    let d = Window { width: (2 * w.width) as u32, height: (2 * w.height) as u32 };
    let s = side_of(w);
    assert(side_of(d) == 2 * s);
    assert(0 <= 9 * size.width * s <= 9 * 0xffff * 0x7fff_ffff) by (nonlinear_arith)
        requires
            0 <= s <= 0x7fff_ffff,
            0 <= size.width <= 0xffff,
    ;
    assert(0 <= 9 * size.height * s <= 9 * 0xffff * 0x7fff_ffff) by (nonlinear_arith)
        requires
            0 <= s <= 0x7fff_ffff,
            0 <= size.height <= 0xffff,
    ;
    assert(9 * size.width * (2 * s) == 2 * (9 * size.width * s)) by (nonlinear_arith);
    assert(9 * size.height * (2 * s) == 2 * (9 * size.height * s)) by (nonlinear_arith);
}

/// Two windows with the same smaller dimension give every cell the same
/// on-screen size: widening a window past its height changes no cell size.
pub proof fn lemma_extent_depends_on_side(size: Size, a: Window, b: Window)
    requires
        side_of(a) == side_of(b),
    ensures
        cell_extent_spec(size, a) == cell_extent_spec(size, b),
{
}

/// Scaling is idempotent: a second pass for the same window changes nothing.
pub proof fn lemma_size_scaling_idempotent(before: Seq<Cell>, once: Seq<Cell>, twice: Seq<Cell>, w: Window)
    requires
        once.len() == before.len(),
        forall|i: int| 0 <= i < before.len() ==> #[trigger] once[i] == scaled(before[i], w),
        twice.len() == once.len(),
        forall|i: int| 0 <= i < once.len() ==> #[trigger] twice[i] == scaled(once[i], w),
    ensures
        twice == once,
{
    assert(twice =~= once);
}

/// Translation is a function of its inputs: equal cells and the same window
/// give equal results.
pub proof fn lemma_position_translation_deterministic(a: Seq<Cell>, a_out: Seq<Cell>, b: Seq<Cell>, b_out: Seq<Cell>, w: Window)
    requires
        a == b,
        a_out.len() == a.len(),
        forall|i: int| 0 <= i < a.len() ==> #[trigger] a_out[i] == translated(a[i], w),
        b_out.len() == b.len(),
        forall|i: int| 0 <= i < b.len() ==> #[trigger] b_out[i] == translated(b[i], w),
    ensures
        a_out == b_out,
{
    assert(a_out =~= b_out);
}

/// Translation is idempotent: a second pass for the same window changes
/// nothing.
pub proof fn lemma_position_translation_idempotent(before: Seq<Cell>, once: Seq<Cell>, twice: Seq<Cell>, w: Window)
    requires
        once.len() == before.len(),
        forall|i: int| 0 <= i < before.len() ==> #[trigger] once[i] == translated(before[i], w),
        twice.len() == once.len(),
        forall|i: int| 0 <= i < once.len() ==> #[trigger] twice[i] == translated(once[i], w),
    ensures
        twice == once,
{
    assert(twice =~= once);
}

} // verus!
