use vstd::prelude::*;

verus! {

/// The color of one tile.
#[derive(Clone, Copy, PartialEq, Eq, Structural, Debug)]
pub enum Color {
    Green,
    Red,
    Blue,
    Orange,
    White,
    Yellow,
}

} // verus!
