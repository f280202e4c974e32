use vstd::prelude::*;

verus! {

/// Index of a player in a game's list of players.
pub type PlayerIndex = u8;

/// Distance along the wall from which a stone is dropped.
pub type Position = u8;

/// State of the pseudorandom generator that places the blocks.
pub type Seed = u32;

pub const INITIAL_SEED: Seed = 123_456;
pub const INCREMENT: Seed = 74;
pub const MULTIPLIER: Seed = 75;
pub const MODULUS: Seed = 65_536;

pub const BOARD_WIDTH: u8 = 10;
pub const BOARD_HEIGHT: u8 = 10;
pub const NUM_OF_BLOCKS: u8 = 10;

/// Upper bound on the draws made while placing blocks. The seed after a draw is below
/// `MODULUS`, so within this many draws a seed repeats, and from then on the draws cycle
/// through coordinates that have already come up.
pub const MAX_DRAWS: u32 = 65_537;

/// Represents a cell of the board.
#[derive(Clone, Copy, Debug, PartialEq, Eq, Structural)]
pub enum Cell {
    Empty,
    Block,
    Stone(PlayerIndex),
}

impl Default for Cell {
    fn default() -> (r: Self)
        ensures
            r == Cell::Empty,
    {
        Cell::Empty
    }
}

impl Cell {
    /// Tells if a cell is suitable for dropping a stone.
    pub fn is_stone_droppable(&self) -> (r: bool)
        ensures
            r == (*self == Cell::Empty),
    {
        !matches!(self, Cell::Block | Cell::Stone(_))
    }
}

/// Coordinates for a cell in the board.
#[derive(Clone, Copy, Debug, PartialEq, Eq, Structural)]
pub struct Coordinates {
    pub row: u8,
    pub col: u8,
}

/// One step of the linear congruential generator.
pub open spec fn lcg(seed: int) -> int {
    (MULTIPLIER * seed + INCREMENT) % (MODULUS as int)
}

/// A random cell and the seed that follows it: two steps of the generator, the first
/// giving the row and the second the column.
pub open spec fn draw(seed: Seed) -> (Coordinates, Seed) {
    let s1 = lcg(seed as int);
    let s2 = lcg(s1);
    (
        Coordinates { row: (s1 % (BOARD_WIDTH - 1)) as u8, col: (s2 % (BOARD_HEIGHT - 1)) as u8 },
        s2 as Seed,
    )
}

/// Draws cells from `seed` until `placed` holds `NUM_OF_BLOCKS` distinct cells or the draws
/// run out; a cell drawn twice is skipped. Gives the cells in the order they came up and the
/// seed after the last draw.
pub open spec fn place_blocks(seed: Seed, placed: Seq<Coordinates>, draws: nat) -> (
    Seq<Coordinates>,
    Seed,
)
    decreases draws,
{
    if placed.len() >= NUM_OF_BLOCKS || draws == 0 {
        (placed, seed)
    } else {
        let (cell, next) = draw(seed);
        let placed = if placed.contains(cell) {
            placed
        } else {
            placed.push(cell)
        };
        place_blocks(next, placed, (draws - 1) as nat)
    }
}

/// The blocks of a new game started from `seed`, and the seed it keeps.
pub open spec fn block_layout(seed: Seed) -> (Seq<Coordinates>, Seed) {
    place_blocks(seed, Seq::empty(), MAX_DRAWS as nat)
}

/// `cells` holds the cell at `row`, `col`.
pub open spec fn holds_cell(cells: Seq<Coordinates>, row: int, col: int) -> bool {
    exists|i: int| 0 <= i < cells.len() && cells[i].row == row && cells[i].col == col
}

impl Coordinates {
    pub open spec fn is_inside(self) -> bool {
        self.row < BOARD_HEIGHT && self.col < BOARD_WIDTH
    }

    pub fn new(row: u8, col: u8) -> (r: Self)
        ensures
            r == (Coordinates { row, col }),
    {
        Self { row, col }
    }

    pub fn is_inside_board(&self) -> (r: bool)
        ensures
            r == self.is_inside(),
    {
        self.row < BOARD_HEIGHT && self.col < BOARD_WIDTH
    }

    fn linear_congruential_generator(seed: Seed) -> (r: Seed)
        ensures
            r == lcg(seed as int),
    {
        assert(MULTIPLIER as u64 * seed as u64 <= 75 * 0xffff_ffffu64) by (nonlinear_arith)
            requires
                MULTIPLIER == 75,
                seed <= 0xffff_ffffu32,
        ;
        ((MULTIPLIER as u64 * seed as u64 + INCREMENT as u64) % MODULUS as u64) as Seed
    }

    /// A random cell drawn from `seed`, and the next seed.
    pub fn random(seed: Seed) -> (r: (Self, Seed))
        ensures
            r == draw(seed),
    {
        let random_seed_1 = Self::linear_congruential_generator(seed);
        let random_seed_2 = Self::linear_congruential_generator(random_seed_1);
        (
            Coordinates::new(
                (random_seed_1 % (BOARD_WIDTH as Seed - 1)) as u8,
                (random_seed_2 % (BOARD_HEIGHT as Seed - 1)) as u8,
            ),
            random_seed_2,
        )
    }

    /// Tells if a cell is in the opposite of a side.
    pub fn is_opposite_cell(&self, side: Side) -> (r: bool)
        ensures
            r == side.is_opposite(*self),
    {
        match side {
            Side::North => self.row == BOARD_HEIGHT - 1,
            Side::East => self.col == 0,
            Side::South => self.row == 0,
            Side::West => self.col == BOARD_WIDTH - 1,
        }
    }
}

/// Sides of the board from which a player can drop a stone.
#[derive(Clone, Copy, Debug, PartialEq, Eq, Structural)]
pub enum Side {
    North,
    East,
    South,
    West,
}

impl Side {
    /// The cell `step` cells away from this side's wall, `position` cells along it: the
    /// path of a stone dropped from this side.
    pub open spec fn path(self, position: int, step: int) -> (int, int) {
        match self {
            Side::North => (step, position),
            Side::South => (BOARD_HEIGHT - 1 - step, position),
            Side::West => (position, step),
            Side::East => (position, BOARD_WIDTH - 1 - step),
        }
    }

    /// The wall facing this side holds `c`.
    pub open spec fn is_opposite(self, c: Coordinates) -> bool {
        match self {
            Side::North => c.row == BOARD_HEIGHT - 1,
            Side::East => c.col == 0,
            Side::South => c.row == 0,
            Side::West => c.col == BOARD_WIDTH - 1,
        }
    }

    /// The cell where a stone dropped at `position` enters the board.
    pub fn bound_coordinates(&self, position: Position) -> (r: Coordinates)
        ensures
            r.row == self.path(position as int, 0).0,
            r.col == self.path(position as int, 0).1,
    {
        match self {
            Side::North => Coordinates::new(0, position),
            Side::South => Coordinates::new(BOARD_HEIGHT - 1, position),
            Side::West => Coordinates::new(position, 0),
            Side::East => Coordinates::new(position, BOARD_WIDTH - 1),
        }
    }

    /// The cell `step` cells into the board on the path of a stone dropped at `position`.
    pub fn path_coordinates(&self, position: Position, step: u8) -> (r: Coordinates)
        requires
            position < BOARD_WIDTH,
            step < BOARD_HEIGHT,
        ensures
            r.row == self.path(position as int, step as int).0,
            r.col == self.path(position as int, step as int).1,
            r.is_inside(),
    {
        match self {
            Side::North => Coordinates::new(step, position),
            Side::South => Coordinates::new(BOARD_HEIGHT - 1 - step, position),
            Side::West => Coordinates::new(position, step),
            Side::East => Coordinates::new(position, BOARD_WIDTH - 1 - step),
        }
    }
}

/// The game board: `BOARD_HEIGHT` rows of `BOARD_WIDTH` cells.
#[derive(Clone, Copy, Debug, PartialEq, Eq)]
pub struct Board {
    pub cells: [[Cell; 10]; 10],
}

/// `row`, `col` lies on the board.
pub open spec fn on_board(row: int, col: int) -> bool {
    0 <= row < BOARD_HEIGHT && 0 <= col < BOARD_WIDTH
}

impl Board {
    pub open spec fn cell(self, row: int, col: int) -> Cell {
        self.cells[row][col]
    }

    pub open spec fn cell_at(self, c: Coordinates) -> Cell {
        self.cell(c.row as int, c.col as int)
    }

    /// This board with the cell at `row`, `col` replaced by `cell`.
    pub open spec fn with_cell(self, row: int, col: int, cell: Cell) -> Board {
        Board {
            cells: vstd::array::spec_array_update(
                self.cells,
                row,
                vstd::array::spec_array_update(self.cells[row], col, cell),
            ),
        }
    }

    /// Every cell is empty.
    pub open spec fn is_clear(self) -> bool {
        forall|row: int, col: int| on_board(row, col) ==> self.cell(row, col) == Cell::Empty
    }

    /// The blocks are the cells of `blocks`, and every other cell is empty.
    pub open spec fn has_blocks(self, blocks: Seq<Coordinates>) -> bool {
        forall|row: int, col: int|
            on_board(row, col) ==> self.cell(row, col) == if holds_cell(blocks, row, col) {
                Cell::Block
            } else {
                Cell::Empty
            }
    }

    /// This board is `before` with the cell at `row`, `col` replaced by `cell`.
    pub open spec fn is_set_at(self, before: Board, row: int, col: int, cell: Cell) -> bool {
        forall|r: int, c: int|
            on_board(r, c) ==> #[trigger] self.cell(r, c) == if r == row && c == col {
                cell
            } else {
                before.cell(r, c)
            }
    }

    pub fn new() -> (r: Board)
        ensures
            r.is_clear(),
    {
        Board { cells: [[Cell::Empty; 10]; 10] }
    }

    /// The cell at `position` is on the board and empty.
    pub fn is_stone_droppable(&self, position: &Coordinates) -> (r: bool)
        ensures
            r == (position.is_inside() && self.cell_at(*position) == Cell::Empty),
    {
        position.is_inside_board() && self.get_cell(position).is_stone_droppable()
    }

    pub fn get_cell(&self, position: &Coordinates) -> (r: Cell)
        requires
            position.is_inside(),
        ensures
            r == self.cell_at(*position),
    {
        self.cells[position.row as usize][position.col as usize]
    }

    pub fn update_cell(&mut self, position: &Coordinates, cell: Cell)
        requires
            position.is_inside(),
        ensures
            *final(self) == old(self).with_cell(position.row as int, position.col as int, cell),
            final(self).is_set_at(*old(self), position.row as int, position.col as int, cell),
    {
        let row = position.row as usize;
        let mut cells_of_row = self.cells[row];
        cells_of_row[position.col as usize] = cell;
        self.cells[row] = cells_of_row;
        proof {
            let expected = old(self).with_cell(position.row as int, position.col as int, cell);
            assert(self.cells@ =~= expected.cells@);
            assert(self.cells =~= expected.cells);
        }
    }
}

impl Default for Board {
    fn default() -> (r: Self)
        ensures
            r.is_clear(),
    {
        Board::new()
    }
}

impl Board {
    /// The cell `step` cells into the board on the path of a stone dropped from `side` at
    /// `position`.
    pub open spec fn on_path(self, side: Side, position: int, step: int) -> Cell {
        self.cell(side.path(position, step).0, side.path(position, step).1)
    }

    /// The first step, from `step` on, at which the path of a stone dropped from `side` at
    /// `position` meets a cell that is not empty; `BOARD_HEIGHT` when it meets none.
    pub open spec fn obstruction_from(self, side: Side, position: int, step: int) -> int
        decreases BOARD_HEIGHT - step,
    {
        if step < 0 || step >= BOARD_HEIGHT {
            BOARD_HEIGHT as int
        } else if self.on_path(side, position, step) != Cell::Empty {
            step
        } else {
            self.obstruction_from(side, position, step + 1)
        }
    }

    /// The step at which a stone dropped from `side` at `position` comes to rest: the last
    /// empty cell before the first obstruction, or the far wall when nothing obstructs it.
    pub open spec fn landing_step(self, side: Side, position: int) -> int {
        self.obstruction_from(side, position, 0) - 1
    }
}

/// A stone that has passed the empty cells from `from` to `step`, and stops there because
/// the next cell is the wall or not empty, meets its first obstruction right after `step`.
pub proof fn lemma_obstruction(board: Board, side: Side, position: int, from: int, step: int)
    requires
        0 <= from <= step < BOARD_HEIGHT,
        forall|j: int| from <= j <= step ==> #[trigger] board.on_path(side, position, j) == Cell::Empty,
        step == BOARD_HEIGHT - 1 || board.on_path(side, position, step + 1) != Cell::Empty,
    ensures
        board.obstruction_from(side, position, from) == step + 1,
    decreases step - from,
{
    assert(board.on_path(side, position, from) == Cell::Empty);
    if from < step {
        lemma_obstruction(board, side, position, from + 1, step);
    } else {
        assert(board.obstruction_from(side, position, step + 1) == step + 1);
    }
}

} // verus!
