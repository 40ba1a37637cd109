use vstd::prelude::*;

verus! {

/// A row of the board, named as on the physical board.
#[derive(Debug, PartialEq, Eq, Clone, Copy, Structural)]
pub enum AbsoluteRow {
    A,
    E,
    I,
    U,
    O,
    Y,
    AI,
    AU,
    IA,
}

/// A column of the board, named as on the physical board.
#[derive(Debug, PartialEq, Eq, Clone, Copy, Structural)]
pub enum AbsoluteColumn {
    K,
    L,
    N,
    T,
    Z,
    X,
    C,
    M,
    P,
}

/// An absolute board coordinate: a row paired with a column.
#[derive(Debug, PartialEq, Eq, Clone, Copy, Structural)]
pub struct AbsoluteCoord(pub AbsoluteRow, pub AbsoluteColumn);

/// A piece's color.
#[derive(Debug, PartialEq, Eq, Clone, Copy, Structural)]
pub enum Color {
    Kok1,
    Huok2,
}

/// A piece's profession.
#[derive(Debug, PartialEq, Eq, Clone, Copy, Structural)]
pub enum Profession {
    Nuak1,
    Kauk2,
    Gua2,
    Kaun1,
    Dau2,
    Maun1,
    Kua2,
    Tuk2,
    Uai1,
    Io,
}

impl AbsoluteRow {
    /// This row's position counted from row A.
    pub fn index(self) -> (i: usize)
        ensures
            i == self.spec_index(),
    {
        match self {
            AbsoluteRow::A => 0,
            AbsoluteRow::E => 1,
            AbsoluteRow::I => 2,
            AbsoluteRow::U => 3,
            AbsoluteRow::O => 4,
            AbsoluteRow::Y => 5,
            AbsoluteRow::AI => 6,
            AbsoluteRow::AU => 7,
            AbsoluteRow::IA => 8,
        }
    }

    pub open spec fn spec_index(self) -> int {
        match self {
            AbsoluteRow::A => 0,
            AbsoluteRow::E => 1,
            AbsoluteRow::I => 2,
            AbsoluteRow::U => 3,
            AbsoluteRow::O => 4,
            AbsoluteRow::Y => 5,
            AbsoluteRow::AI => 6,
            AbsoluteRow::AU => 7,
            AbsoluteRow::IA => 8,
        }
    }
}

impl AbsoluteColumn {
    /// This column's position counted from column K.
    pub fn index(self) -> (i: usize)
        ensures
            i == self.spec_index(),
    {
        match self {
            AbsoluteColumn::K => 0,
            AbsoluteColumn::L => 1,
            AbsoluteColumn::N => 2,
            AbsoluteColumn::T => 3,
            AbsoluteColumn::Z => 4,
            AbsoluteColumn::X => 5,
            AbsoluteColumn::C => 6,
            AbsoluteColumn::M => 7,
            AbsoluteColumn::P => 8,
        }
    }

    pub open spec fn spec_index(self) -> int {
        match self {
            AbsoluteColumn::K => 0,
            AbsoluteColumn::L => 1,
            AbsoluteColumn::N => 2,
            AbsoluteColumn::T => 3,
            AbsoluteColumn::Z => 4,
            AbsoluteColumn::X => 5,
            AbsoluteColumn::C => 6,
            AbsoluteColumn::M => 7,
            AbsoluteColumn::P => 8,
        }
    }
}

/// The board distance between two squares: the larger of the row difference
/// and the column difference.
pub open spec fn spec_distance(a: AbsoluteCoord, b: AbsoluteCoord) -> int {
    let dr = spec_abs_diff(a.0.spec_index(), b.0.spec_index());
    let dc = spec_abs_diff(a.1.spec_index(), b.1.spec_index());
    if dr >= dc {
        dr
    } else {
        dc
    }
}

pub open spec fn spec_abs_diff(x: int, y: int) -> int {
    if x >= y {
        x - y
    } else {
        y - x
    }
}

/// Computes the board distance between two squares.
pub fn distance(a: AbsoluteCoord, b: AbsoluteCoord) -> (d: usize)
    ensures
        d == spec_distance(a, b),
        d <= 8,
{
    let ra = a.0.index();
    let rb = b.0.index();
    let ca = a.1.index();
    let cb = b.1.index();
    let dr = if ra >= rb {
        ra - rb
    } else {
        rb - ra
    };
    let dc = if ca >= cb {
        ca - cb
    } else {
        cb - ca
    };
    if dr >= dc {
        dr
    } else {
        dc
    }
}

} // verus!
