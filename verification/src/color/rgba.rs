//! The channels of a colour.

use vstd::prelude::*;

verus! {

/// One of the three colour channels.
#[derive(Debug, Clone, Copy, PartialEq, Eq, Structural)]
pub enum RGBElems {
    R,
    G,
    B,
}

} // verus!
