//! The seven tetrominoes: their shapes, their colors and the quarter-turn
//! rotation about the origin.

use vstd::prelude::*;
use crate::color::Color;
use crate::random::random_below;

verus! {

/// One of the seven four-cell pieces.
#[derive(Clone, Copy, PartialEq, Eq, Debug, Structural)]
pub enum TetrominoType {
    I,
    O,
    T,
    S,
    Z,
    J,
    L,
}

/// The seven types in their fixed order.
pub open spec fn all_types() -> Seq<TetrominoType> {
    seq![
        TetrominoType::I,
        TetrominoType::O,
        TetrominoType::T,
        TetrominoType::S,
        TetrominoType::Z,
        TetrominoType::J,
        TetrominoType::L,
    ]
}

/// The offset `p` turned clockwise by `r` quarter turns about the origin
/// (`y` grows downward). Only `r` modulo 4 matters.
pub open spec fn rotated(r: int, p: (int, int)) -> (int, int) {
    if r % 4 == 0 {
        p
    } else if r % 4 == 1 {
        (-p.1, p.0)
    } else if r % 4 == 2 {
        (-p.0, -p.1)
    } else {
        (p.1, -p.0)
    }
}

/// Turning by `s` and then by `r` quarter turns is turning by
/// `(r + s) mod 4` quarter turns.
pub proof fn lemma_rotation_composes(r: int, s: int, p: (int, int))
    ensures
        rotated(r, rotated(s, p)) == rotated((r + s) % 4, p),
{
}

/// Four quarter turns in a row bring every offset back to where it was.
pub proof fn lemma_four_quarter_turns(p: (int, int))
    ensures
        rotated(1, rotated(1, rotated(1, rotated(1, p)))) == p,
        rotated(4, p) == p,
{
}

impl TetrominoType {
    /// The type at position `i` of the fixed order; every `i` past the end
    /// gives the last type.
    pub open spec fn spec_from_index(i: int) -> TetrominoType {
        if i == 0 {
            TetrominoType::I
        } else if i == 1 {
            TetrominoType::O
        } else if i == 2 {
            TetrominoType::T
        } else if i == 3 {
            TetrominoType::S
        } else if i == 4 {
            TetrominoType::Z
        } else if i == 5 {
            TetrominoType::J
        } else {
            TetrominoType::L
        }
    }

    /// The four cell offsets of the unrotated shape.
    pub open spec fn spec_shape(self) -> Seq<(i32, i32)> {
        match self {
            TetrominoType::I => seq![(0i32, 0i32), (1i32, 0i32), (2i32, 0i32), (3i32, 0i32)],
            TetrominoType::O => seq![(0i32, 0i32), (1i32, 0i32), (0i32, 1i32), (1i32, 1i32)],
            TetrominoType::T => seq![(1i32, 0i32), (0i32, 1i32), (1i32, 1i32), (2i32, 1i32)],
            TetrominoType::S => seq![(1i32, 0i32), (2i32, 0i32), (0i32, 1i32), (1i32, 1i32)],
            TetrominoType::Z => seq![(0i32, 0i32), (1i32, 0i32), (1i32, 1i32), (2i32, 1i32)],
            TetrominoType::J => seq![(0i32, 0i32), (0i32, 1i32), (1i32, 1i32), (2i32, 1i32)],
            TetrominoType::L => seq![(2i32, 0i32), (0i32, 1i32), (1i32, 1i32), (2i32, 1i32)],
        }
    }

    /// The display color of the type.
    pub open spec fn spec_color(self) -> Color {
        match self {
            TetrominoType::I => Color { red: 0, green: 90, blue: 90 },
            TetrominoType::O => Color { red: 90, green: 90, blue: 0 },
            TetrominoType::T => Color { red: 70, green: 0, blue: 90 },
            TetrominoType::S => Color { red: 0, green: 90, blue: 0 },
            TetrominoType::Z => Color { red: 90, green: 0, blue: 0 },
            TetrominoType::J => Color { red: 0, green: 0, blue: 90 },
            TetrominoType::L => Color { red: 90, green: 50, blue: 0 },
        }
    }

    /// Every shape has four cells, each offset between 0 and 3.
    pub proof fn lemma_shape_bounds(self)
        ensures
            self.spec_shape().len() == 4,
            forall|i: int|
                0 <= i < 4 ==> 0 <= (#[trigger] self.spec_shape()[i]).0 <= 3 && 0
                    <= self.spec_shape()[i].1 <= 3,
    {
    }

    /// The type at position `index` of the fixed order I, O, T, S, Z, J, L.
    pub fn from_index(index: u8) -> (t: TetrominoType)
        ensures
            t == Self::spec_from_index(index as int),
    {
        match index {
            0 => TetrominoType::I,
            1 => TetrominoType::O,
            2 => TetrominoType::T,
            3 => TetrominoType::S,
            4 => TetrominoType::Z,
            5 => TetrominoType::J,
            _ => TetrominoType::L,
        }
    }

    /// A type picked at random, each with the same chance.
    pub fn random() -> (t: TetrominoType)
        ensures
            exists|i: int| 0 <= i < 7 && t == Self::spec_from_index(i),
    {
        let index: u8 = random_below(7);
        Self::from_index(index)
    }

    /// The four cell offsets of the unrotated shape.
    pub fn shape(&self) -> (cells: Vec<(i32, i32)>)
        ensures
            cells@ == self.spec_shape(),
    {
        let cells: Vec<(i32, i32)> = match self {
            TetrominoType::I => vec![(0, 0), (1, 0), (2, 0), (3, 0)],
            TetrominoType::O => vec![(0, 0), (1, 0), (0, 1), (1, 1)],
            TetrominoType::T => vec![(1, 0), (0, 1), (1, 1), (2, 1)],
            TetrominoType::S => vec![(1, 0), (2, 0), (0, 1), (1, 1)],
            TetrominoType::Z => vec![(0, 0), (1, 0), (1, 1), (2, 1)],
            TetrominoType::J => vec![(0, 0), (0, 1), (1, 1), (2, 1)],
            TetrominoType::L => vec![(2, 0), (0, 1), (1, 1), (2, 1)],
        };
        assert(cells@ =~= self.spec_shape());
        cells
    }

    /// The display color of the type.
    pub fn color(&self) -> (color: Color)
        ensures
            color == self.spec_color(),
    {
        match self {
            TetrominoType::I => Color { red: 0, green: 90, blue: 90 },
            TetrominoType::O => Color { red: 90, green: 90, blue: 0 },
            TetrominoType::T => Color { red: 70, green: 0, blue: 90 },
            TetrominoType::S => Color { red: 0, green: 90, blue: 0 },
            TetrominoType::Z => Color { red: 90, green: 0, blue: 0 },
            TetrominoType::J => Color { red: 0, green: 0, blue: 90 },
            TetrominoType::L => Color { red: 90, green: 50, blue: 0 },
        }
    }
}

} // verus!
