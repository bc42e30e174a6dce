//! The two grids of a player and the log of incoming shots.

use vstd::prelude::*;
use crate::SIZE;
use crate::model::{cell, cell_path, Colour, Model, Path, PathView, ROUNDED, STRAIGHT};

verus! {

/// What the local player knows about one cell of the opponent's board.
#[derive(Clone, Copy, PartialEq, Eq, Debug, Structural)]
pub enum FireResult {
    /// No shot at this cell has been resolved yet.
    Unknown,
    /// A shot at this cell hit water.
    Miss,
    /// A shot at this cell hit a ship.
    Hit,
}

/// The local player's own ship layout, row by row: `true` marks a cell that
/// holds a ship.
#[derive(Clone, Copy, PartialEq, Eq, Debug)]
pub struct MyBoard {
    pub squares: [[bool; SIZE]; SIZE],
}

impl View for MyBoard {
    type V = Seq<Seq<bool>>;

    open spec fn view(&self) -> Seq<Seq<bool>> {
        Seq::new(SIZE as nat, |row: int| self.squares[row]@)
    }
}

/// What the local player knows of the opponent's board, row by row.
#[derive(Clone, Copy, PartialEq, Eq, Debug)]
pub struct TheirBoard {
    pub squares: [[FireResult; SIZE]; SIZE],
}

impl View for TheirBoard {
    type V = Seq<Seq<FireResult>>;

    open spec fn view(&self) -> Seq<Seq<FireResult>> {
        Seq::new(SIZE as nat, |row: int| self.squares[row]@)
    }
}

/// The cells that the opponent has fired at, row first, oldest first.
#[derive(Debug, PartialEq, Eq)]
pub struct Bombs {
    pub bombs: Vec<(usize, usize)>,
}

impl View for Bombs {
    type V = Seq<(usize, usize)>;

    open spec fn view(&self) -> Seq<(usize, usize)> {
        self.bombs@
    }
}

/// Whether the fixed ship layout has a ship at the cell: one ship of three
/// cells along row 2, one of three down column 8, one of four down column 6,
/// and one of two along row 7.
pub open spec fn fleet_at(row: int, col: int) -> bool {
    ||| row == 2 && 3 <= col <= 5
    ||| 2 <= row <= 4 && col == 8
    ||| 5 <= row <= 8 && col == 6
    ||| row == 7 && 1 <= col <= 2
}

/// The colour of a cell of the player's own board.
pub open spec fn own_colour(ship: bool) -> Colour {
    if ship {
        Colour::ShipBlue
    } else {
        Colour::EmptyDark
    }
}

/// The colour of a cell of the opponent's board.
pub open spec fn outcome_colour(outcome: FireResult) -> Colour {
    match outcome {
        FireResult::Unknown => Colour::EmptyDark,
        FireResult::Miss => Colour::MissRed,
        FireResult::Hit => Colour::HitYellow,
    }
}

/// A grid of colours as one straight-sided cell after the other, row by row.
pub open spec fn grid_model(colours: spec_fn(int, int) -> Colour) -> Seq<PathView> {
    Seq::new(
        (SIZE * SIZE) as nat,
        |k: int|
            {
                let row = k / SIZE as int;
                let col = k % SIZE as int;
                cell_path(row, col, colours(row, col), STRAIGHT)
            },
    )
}

impl MyBoard {
    /// The fixed ship layout as a grid.
    pub open spec fn fleet_view() -> Seq<Seq<bool>> {
        Seq::new(SIZE as nat, |row: int| Seq::new(SIZE as nat, |col: int| fleet_at(row, col)))
    }

    /// The fixed ship layout that every game is played on.
    pub fn fleet() -> (board: MyBoard)
        ensures
            board@ == MyBoard::fleet_view(),
    {
        let board = MyBoard {
            squares: [
                [false, false, false, false, false, false, false, false, false, false],
                [false, false, false, false, false, false, false, false, false, false],
                [false, false, false, true, true, true, false, false, true, false],
                [false, false, false, false, false, false, false, false, true, false],
                [false, false, false, false, false, false, false, false, true, false],
                [false, false, false, false, false, false, true, false, false, false],
                [false, false, false, false, false, false, true, false, false, false],
                [false, true, true, false, false, false, true, false, false, false],
                [false, false, false, false, false, false, true, false, false, false],
                [false, false, false, false, false, false, false, false, false, false],
            ],
        };
        assert(board@ =~~= MyBoard::fleet_view());
        board
    }

    /// The board as it is drawn: every cell, ships in blue.
    pub open spec fn model(board: Seq<Seq<bool>>) -> Seq<PathView> {
        grid_model(|row: int, col: int| own_colour(board[row][col]))
    }

    /// Lays the board out for drawing.
    pub fn render(&self) -> (model: Model)
        ensures
            model@ == MyBoard::model(self@),
    {
        let mut paths: Vec<Path> = Vec::new();
        for i in 0..SIZE
            invariant
                paths@.len() == i * SIZE,
                forall|k: int|
                    0 <= k < paths@.len() ==> (#[trigger] paths@[k])@ == MyBoard::model(self@)[k],
        {
            for j in 0..SIZE
                invariant
                    i < SIZE,
                    paths@.len() == i * SIZE + j,
                    forall|k: int|
                        0 <= k < paths@.len() ==> (#[trigger] paths@[k])@ == MyBoard::model(
                            self@,
                        )[k],
            {
                let colour = if self.squares[i][j] {
                    Colour::ShipBlue
                } else {
                    Colour::EmptyDark
                };
                paths.push(cell(i, j, colour, STRAIGHT));
            }
        }
        Model { paths }
    }
}

impl TheirBoard {
    /// The grid of which nothing is known yet.
    pub open spec fn unexplored() -> Seq<Seq<FireResult>> {
        Seq::new(SIZE as nat, |row: int| Seq::new(SIZE as nat, |col: int| FireResult::Unknown))
    }

    /// The opponent's board before the first shot: every cell `Unknown`.
    pub fn new() -> (board: TheirBoard)
        ensures
            board@ == TheirBoard::unexplored(),
    {
        let board = TheirBoard { squares: [[FireResult::Unknown; SIZE]; SIZE] };
        assert(board@ =~~= TheirBoard::unexplored());
        board
    }

    /// The board as it is drawn: every cell, misses in red and hits in yellow.
    pub open spec fn model(board: Seq<Seq<FireResult>>) -> Seq<PathView> {
        grid_model(|row: int, col: int| outcome_colour(board[row][col]))
    }

    /// Lays the board out for drawing.
    pub fn render(&self) -> (model: Model)
        ensures
            model@ == TheirBoard::model(self@),
    {
        let mut paths: Vec<Path> = Vec::new();
        for i in 0..SIZE
            invariant
                paths@.len() == i * SIZE,
                forall|k: int|
                    0 <= k < paths@.len() ==> (#[trigger] paths@[k])@ == TheirBoard::model(
                        self@,
                    )[k],
        {
            for j in 0..SIZE
                invariant
                    i < SIZE,
                    paths@.len() == i * SIZE + j,
                    forall|k: int|
                        0 <= k < paths@.len() ==> (#[trigger] paths@[k])@ == TheirBoard::model(
                            self@,
                        )[k],
            {
                let colour = match self.squares[i][j] {
                    FireResult::Unknown => Colour::EmptyDark,
                    FireResult::Miss => Colour::MissRed,
                    FireResult::Hit => Colour::HitYellow,
                };
                paths.push(cell(i, j, colour, STRAIGHT));
            }
        }
        Model { paths }
    }
}

impl Bombs {
    /// An empty log.
    pub fn new() -> (bombs: Bombs)
        ensures
            bombs@ == Seq::<(usize, usize)>::empty(),
    {
        Bombs { bombs: Vec::new() }
    }

    /// Appends the cell in row `i` and column `j` to the log.
    pub fn push(&mut self, i: usize, j: usize)
        ensures
            final(self)@ == old(self)@.push((i, j)),
    {
        self.bombs.push((i, j));
    }

    /// The log as it is drawn: one rounded orange blob for every shot, in
    /// the order in which the shots came.
    pub open spec fn model(bombs: Seq<(usize, usize)>) -> Seq<PathView> {
        Seq::new(
            bombs.len(),
            |k: int| cell_path(bombs[k].0 as int, bombs[k].1 as int, Colour::BombOrange, ROUNDED),
        )
    }

    /// Lays the shots out for drawing.
    pub fn render(&self) -> (model: Model)
        ensures
            model@ == Bombs::model(self@),
    {
        let mut paths: Vec<Path> = Vec::new();
        for k in 0..self.bombs.len()
            invariant
                paths@.len() == k,
                forall|n: int|
                    0 <= n < paths@.len() ==> (#[trigger] paths@[n])@ == Bombs::model(self@)[n],
        {
            let (i, j) = self.bombs[k];
            paths.push(cell(i, j, Colour::BombOrange, ROUNDED));
        }
        Model { paths }
    }
}

} // verus!
