//! Types shared by every part of the node.

use vstd::prelude::*;

verus! {

/// Side of the binary market.
#[derive(Debug, Clone, Copy, PartialEq, Eq, Structural)]
pub enum Side {
    Up,
    Down,
}

impl Side {
    /// The lower-case label of the side.
    pub open spec fn label(self) -> Seq<char> {
        match self {
            Side::Up => "up"@,
            Side::Down => "down"@,
        }
    }

    pub fn as_str(&self) -> (r: &'static str)
        ensures
            r@ == self.label(),
    {
        match self {
            Side::Up => "up",
            Side::Down => "down",
        }
    }
}

} // verus!
