use vstd::prelude::*;

verus! {

/// A move, as the search sees it: a from-square, a to-square, whether it
/// captures, and a tag that the move generator may use for anything else
/// the move carries (a promotion, castling, ...). The all-zero value is the
/// null move: it marks "no move" and is also the pass played by null-move
/// pruning.
#[derive(Clone, Copy, Debug, PartialEq, Eq, Structural)]
pub struct Move {
    pub from: u8,
    pub to: u8,
    pub is_capture: bool,
    pub tag: u8,
}

impl Move {
    /// The null move.
    pub open spec fn spec_null() -> Move {
        Move { from: 0, to: 0, is_capture: false, tag: 0 }
    }

    pub fn null() -> (r: Move)
        ensures
            r == Move::spec_null(),
    {
        Move { from: 0, to: 0, is_capture: false, tag: 0 }
    }

    pub fn new(from: u8, to: u8, is_capture: bool, tag: u8) -> (r: Move)
        ensures
            r == (Move { from, to, is_capture, tag }),
    {
        Move { from, to, is_capture, tag }
    }

    pub fn get_from(&self) -> (r: u8)
        ensures
            r == self.from,
    {
        self.from
    }

    pub fn get_to(&self) -> (r: u8)
        ensures
            r == self.to,
    {
        self.to
    }

    pub fn get_is_capture(&self) -> (r: bool)
        ensures
            r == self.is_capture,
    {
        self.is_capture
    }

    pub fn is_null(&self) -> (r: bool)
        ensures
            r == (*self == Move::spec_null()),
    {
        self.from == 0 && self.to == 0 && !self.is_capture && self.tag == 0
    }
}

} // verus!
