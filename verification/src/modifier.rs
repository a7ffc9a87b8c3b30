//! DRM format modifiers.

use vstd::prelude::*;

verus! {

/// How a buffer object says which tiling its bytes have.
#[derive(Clone, Copy, Debug, PartialEq, Eq, Structural)]
pub enum Modifier {
    Implicit,
    Explicit(u64),
}

impl Modifier {
    /// The explicit linear modifier, whose code is zero.
    pub fn linear() -> (modifier: Modifier)
        ensures
            modifier == Modifier::Explicit(0),
    {
        Modifier::Explicit(0)
    }

    /// The modifier code, where it is given explicitly.
    pub fn explicit(self) -> (code: Option<u64>)
        ensures
            code == (match self {
                Modifier::Implicit => None,
                Modifier::Explicit(value) => Some(value),
            }),
    {
        match self {
            Modifier::Implicit => None,
            Modifier::Explicit(value) => Some(value),
        }
    }
}

} // verus!
