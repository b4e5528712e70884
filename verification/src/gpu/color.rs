use vstd::prelude::*;

verus! {

/// One of the four shades of the monochrome display.
#[derive(Clone, Copy, PartialEq, Eq, Structural, Debug)]
pub enum Color {
    White,
    LightGray,
    DarkGray,
    Black,
}

} // verus!
