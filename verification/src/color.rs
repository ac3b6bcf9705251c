use vstd::prelude::*;

verus! {

/// The two sides of the game. White begins.
#[derive(Clone, Copy, PartialEq, Eq, Debug, Structural)]
pub enum Color {
    Black,
    White,
}

/// The side whose turn it is.
pub type Player = Color;

/// A stone on the board, identified by the side that owns it.
pub type Piece = Color;

/// The other side.
pub open spec fn other(c: Color) -> Color {
    match c {
        Color::Black => Color::White,
        Color::White => Color::Black,
    }
}

impl Color {
    /// Returns the other side.
    pub fn opposite(self) -> (r: Color)
        ensures
            r == other(self),
            r != self,
    {
        match self {
            Color::Black => Color::White,
            Color::White => Color::Black,
        }
    }
}

/// Taking the other side twice gives back the side one started with.
pub proof fn lemma_opposite_involutive(c: Color)
    ensures
        other(other(c)) == c,
        other(c) != c,
{
}

} // verus!
