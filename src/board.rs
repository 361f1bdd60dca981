use vstd::prelude::*;

verus! {

/// Number of columns of the board.
pub const DESK_WIDTH: u8 = 8;

/// Number of rows of the board.
pub const DESK_HEIGHT: u8 = 8;

/// Size factor of every cell, in hundredths of one grid unit.
pub const CELL_FACTOR: u16 = 95;

/// Side of a freshly spawned cell, before the first scaling, in subpixels
/// (ten pixels).
pub const INITIAL_SIDE: i64 = 80000;

/// Grid coordinate of a cell: column `x` and row `y`.
#[derive(Clone, Copy, Debug, Default, Hash, PartialEq, Eq, Structural)]
pub struct Position {
    pub x: i32,
    pub y: i32,
}

impl Position {
    /// Both coordinates lie on the board.
    pub open spec fn on_board(self) -> bool {
        0 <= self.x < DESK_WIDTH && 0 <= self.y < DESK_HEIGHT
    }
}

/// Size of a cell relative to one grid unit, in hundredths, per axis.
#[derive(Clone, Copy, Debug, Default, Hash, PartialEq, Eq, Structural)]
pub struct Size {
    pub width: u16,
    pub height: u16,
}

impl Size {
    /// A square cell whose side is `x` hundredths of a grid unit.
    pub fn cell(x: u16) -> (r: Self)
        ensures
            r.width == x,
            r.height == x,
    {
        Size { width: x, height: x }
    }
}

/// One of the two colours of the board.
#[derive(Clone, Copy, Debug, Hash, PartialEq, Eq, Structural)]
pub enum Tone {
    Light,
    Dark,
}

/// On-screen width and height of a cell, in subpixels.
#[derive(Clone, Copy, Debug, Default, Hash, PartialEq, Eq, Structural)]
pub struct Extent {
    pub width: i64,
    pub height: i64,
}

/// On-screen centre of a cell, in subpixels, relative to the window's centre.
#[derive(Clone, Copy, Debug, Default, Hash, PartialEq, Eq, Structural)]
pub struct Translation {
    pub x: i64,
    pub y: i64,
}

/// One square of the board: its fixed attributes and its derived screen
/// geometry, which is recomputed on every frame.
#[derive(Clone, Copy, Debug, Hash, PartialEq, Eq, Structural)]
pub struct Cell {
    pub position: Position,
    pub size: Size,
    pub tone: Tone,
    pub extent: Extent,
    pub translation: Translation,
}

/// The checkerboard rule: a cell is light exactly when `x + y + 1` is even.
pub open spec fn tone_for(x: int, y: int) -> Tone {
    if (x + y + 1) % 2 == 0 {
        Tone::Light
    } else {
        Tone::Dark
    }
}

/// The cell spawned at index `i` of the board: columns outer, rows inner.
pub open spec fn spawned_cell(i: int) -> Cell {
    Cell {
        position: Position { x: (i / DESK_HEIGHT as int) as i32, y: (i % DESK_HEIGHT as int) as i32 },
        size: Size { width: CELL_FACTOR, height: CELL_FACTOR },
        tone: tone_for(i / DESK_HEIGHT as int, i % DESK_HEIGHT as int),
        extent: Extent { width: INITIAL_SIDE, height: INITIAL_SIDE },
        translation: Translation { x: 0, y: 0 },
    }
}

/// Tone of the cell at `(x, y)`.
pub fn cell_tone(x: u8, y: u8) -> (r: Tone)
    requires
        x < DESK_WIDTH,
        y < DESK_HEIGHT,
    ensures
        r == tone_for(x as int, y as int),
{
    if (x + y + 1) % 2 == 0 {
        Tone::Light
    } else {
        Tone::Dark
    }
}

/// The 64 cells of the board, column by column, each with its checkerboard
/// tone, the standard size factor and the initial screen geometry.
pub fn spawn_board() -> (cells: Vec<Cell>)
    ensures
        cells@.len() == DESK_WIDTH * DESK_HEIGHT,
        forall|i: int| 0 <= i < cells@.len() ==> #[trigger] cells@[i] == spawned_cell(i),
{
    let mut cells: Vec<Cell> = Vec::new();
    let mut x: u8 = 0;
    while x < DESK_WIDTH
        invariant
            x <= DESK_WIDTH,
            cells@.len() == x * DESK_HEIGHT,
            forall|i: int| 0 <= i < cells@.len() ==> #[trigger] cells@[i] == spawned_cell(i),
        decreases DESK_WIDTH - x,
    {
        let mut y: u8 = 0;
        while y < DESK_HEIGHT
            invariant
                x < DESK_WIDTH,
                y <= DESK_HEIGHT,
                cells@.len() == x * DESK_HEIGHT + y,
                forall|i: int| 0 <= i < cells@.len() ==> #[trigger] cells@[i] == spawned_cell(i),
            decreases DESK_HEIGHT - y,
        {
            let cell = Cell {
                position: Position { x: x as i32, y: y as i32 },
                size: Size::cell(CELL_FACTOR),
                tone: cell_tone(x, y),
                extent: Extent { width: INITIAL_SIDE, height: INITIAL_SIDE },
                translation: Translation { x: 0, y: 0 },
            };
            proof {
                let n = cells@.len() as int;
                assert(n / 8 == x as int && n % 8 == y as int);
            }
            cells.push(cell);
            y = y + 1;
        }
        x = x + 1;
    }
    cells
}

/// Every cell of the board is on it, and its tone follows the checkerboard
/// rule: light exactly when `x + y + 1` is even. Cells that share a side have
/// different tones.
pub proof fn lemma_tone_alternates(cells: Seq<Cell>, i: int)
    requires
        cells.len() == DESK_WIDTH * DESK_HEIGHT,
        forall|j: int| 0 <= j < cells.len() ==> #[trigger] cells[j] == spawned_cell(j),
        0 <= i < cells.len(),
    ensures
        cells[i].position.on_board(),
        cells[i].tone == Tone::Light <==> (cells[i].position.x + cells[i].position.y + 1) % 2 == 0,
        cells[i].position.x + 1 < DESK_WIDTH ==> cells[i + DESK_HEIGHT].tone != cells[i].tone,
        cells[i].position.y + 1 < DESK_HEIGHT ==> cells[i + 1].tone != cells[i].tone,
{
    assert(cells[i] == spawned_cell(i));
    if cells[i].position.x + 1 < DESK_WIDTH {
        assert(cells[i + 8] == spawned_cell(i + 8));
        assert((i + 8) / 8 == i / 8 + 1 && (i + 8) % 8 == i % 8);
    }
    if cells[i].position.y + 1 < DESK_HEIGHT {
        assert(cells[i + 1] == spawned_cell(i + 1));
        assert((i + 1) / 8 == i / 8 && (i + 1) % 8 == i % 8 + 1);
    }
}

} // verus!
