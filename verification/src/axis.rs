//! The three coordinates that a textual tuple names.

use vstd::prelude::*;

verus! {

/// One of the three coordinates of a tuple.
#[derive(Clone, Copy, Debug, PartialEq, Eq, Structural)]
pub enum Axis {
    X,
    Y,
    Z,
}

impl Axis {
    /// The name of the capture group that holds this coordinate.
    pub open spec fn group(self) -> Seq<char> {
        match self {
            Axis::X => "x"@,
            Axis::Y => "y"@,
            Axis::Z => "z"@,
        }
    }

    /// The name of the capture group that holds this coordinate.
    pub fn group_name(self) -> (name: &'static str)
        ensures
            name@ == self.group(),
    {
        match self {
            Axis::X => "x",
            Axis::Y => "y",
            Axis::Z => "z",
        }
    }
}

} // verus!
