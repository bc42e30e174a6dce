//! What a session is drawn as: filled outlines on a grid of square cells.
//!
//! A model says where every outline lies and how it is coloured, in whole
//! numbers only. Drawing it is left to whoever holds a screen.

use vstd::prelude::*;
use crate::SIZE;

verus! {

/// Side of one grid cell, in drawing units.
pub const CELL: usize = 50;

/// Curve bias of the corners of a board cell: none, the sides are straight.
pub const STRAIGHT: u8 = 0;

/// Curve bias of the corners of an incoming shot: the sides bulge into a
/// rounded blob.
pub const ROUNDED: u8 = 50;

/// The colours that the game is drawn in.
#[derive(Clone, Copy, PartialEq, Eq, Debug, Structural)]
pub enum Colour {
    /// An empty cell, on either board.
    EmptyDark,
    /// A cell of the player's own board that holds a ship.
    ShipBlue,
    /// A cell of the opponent's board where a shot missed.
    MissRed,
    /// A cell of the opponent's board where a shot hit.
    HitYellow,
    /// A shot of the opponent.
    BombOrange,
}

impl Colour {
    /// Red, green and blue of the colour, each in percent of full intensity.
    pub open spec fn percent(self) -> (u8, u8, u8) {
        match self {
            Colour::EmptyDark => (10, 10, 10),
            Colour::ShipBlue => (10, 10, 90),
            Colour::MissRed => (90, 10, 10),
            Colour::HitYellow => (90, 90, 10),
            Colour::BombOrange => (90, 70, 0),
        }
    }

    /// Red, green and blue of the colour, each in percent of full intensity.
    pub fn rgb_percent(self) -> (rgb: (u8, u8, u8))
        ensures
            rgb == self.percent(),
    {
        match self {
            Colour::EmptyDark => (10, 10, 10),
            Colour::ShipBlue => (10, 10, 90),
            Colour::MissRed => (90, 10, 10),
            Colour::HitYellow => (90, 90, 10),
            Colour::BombOrange => (90, 70, 0),
        }
    }
}

/// One corner of an outline.
#[derive(Clone, Copy, PartialEq, Eq, Debug, Structural)]
pub struct Point {
    /// Horizontal position, in drawing units.
    pub x: u128,
    /// Vertical position, in drawing units.
    pub y: u128,
    /// How far the outline bulges at this corner, in percent.
    pub curve_bias: u8,
}

/// A closed outline, filled with one colour.
#[derive(Debug, PartialEq, Eq)]
pub struct Path {
    pub colour: Colour,
    pub points: Vec<Point>,
}

/// A [`Path`] with its corners as a sequence.
pub struct PathView {
    pub colour: Colour,
    pub points: Seq<Point>,
}

impl View for Path {
    type V = PathView;

    open spec fn view(&self) -> PathView {
        PathView { colour: self.colour, points: self.points@ }
    }
}

/// Everything that is drawn in one go, bottom layer first.
#[derive(Debug, PartialEq, Eq)]
pub struct Model {
    pub paths: Vec<Path>,
}

impl View for Model {
    type V = Seq<PathView>;

    open spec fn view(&self) -> Seq<PathView> {
        Seq::new(self.paths@.len(), |k: int| self.paths@[k]@)
    }
}

/// The four corners of the cell at `row`, `col`, in the order in which its
/// outline is drawn: along the row first, from the corner nearest the origin.
/// Columns run along the x axis and rows along the y axis.
pub open spec fn cell_corners(row: int, col: int, curve_bias: u8) -> Seq<Point> {
    seq![
        Point { x: (col * CELL) as u128, y: (row * CELL) as u128, curve_bias },
        Point { x: ((col + 1) * CELL) as u128, y: (row * CELL) as u128, curve_bias },
        Point { x: ((col + 1) * CELL) as u128, y: ((row + 1) * CELL) as u128, curve_bias },
        Point { x: (col * CELL) as u128, y: ((row + 1) * CELL) as u128, curve_bias },
    ]
}

/// The cell at `row`, `col` as a filled outline.
pub open spec fn cell_path(row: int, col: int, colour: Colour, curve_bias: u8) -> PathView {
    PathView { colour, points: cell_corners(row, col, curve_bias) }
}

/// Outlines the cell at `row`, `col` and fills it with `colour`.
pub fn cell(row: usize, col: usize, colour: Colour, curve_bias: u8) -> (path: Path)
    ensures
        path@ == cell_path(row as int, col as int, colour, curve_bias),
{
    let left: u128 = col as u128 * CELL as u128;
    let right: u128 = (col as u128 + 1) * CELL as u128;
    let bottom: u128 = row as u128 * CELL as u128;
    let top: u128 = (row as u128 + 1) * CELL as u128;
    let points = vec![
        Point { x: left, y: bottom, curve_bias },
        Point { x: right, y: bottom, curve_bias },
        Point { x: right, y: top, curve_bias },
        Point { x: left, y: top, curve_bias },
    ];
    Path { colour, points }
}

/// The cell of a board that the point `x`, `y` lies in, where the point is
/// measured in drawing units from the corner of the board nearest the origin.
/// A point beyond the last row or column lies in no cell.
pub open spec fn cell_under(x: usize, y: usize) -> Option<(usize, usize)> {
    if y / CELL < SIZE && x / CELL < SIZE {
        Some((y / CELL, x / CELL))
    } else {
        None
    }
}

/// Finds the cell, row first, that the point `x`, `y` lies in.
pub fn cell_at(x: usize, y: usize) -> (found: Option<(usize, usize)>)
    ensures
        found == cell_under(x, y),
{
    let row: usize = y / CELL;
    let col: usize = x / CELL;
    if row < SIZE && col < SIZE {
        Some((row, col))
    } else {
        None
    }
}

} // verus!
