//! A scrollbar drawn over the left or the bottom edge of a frame.
use vstd::prelude::*;

verus! {

/// The edge that a scrollbar runs along.
#[derive(Clone, Copy, Debug, PartialEq, Eq, Structural)]
pub enum Orientation {
    Vertical,
    Horizontal,
}

/// A scrollbar: the length of what is scrolled, where the view is in it,
/// and its orientation.
pub struct Scrollbar {
    pub max: u16,
    pub pos: u16,
    pub orientation: Orientation,
}

/// `n` as a `u16`, or 0 where it does not fit.
pub open spec fn u16_or_zero(n: usize) -> u16 {
    if n <= u16::MAX { n as u16 } else { 0 }
}

impl Scrollbar {
    /// A scrollbar over `max` rows at `pos`; a number too large for a `u16`
    /// counts as 0.
    pub fn new(max: usize, pos: usize, orientation: Orientation) -> (r: Self)
        ensures
            r.max == u16_or_zero(max),
            r.pos == u16_or_zero(pos),
            r.orientation == orientation,
    {
        Scrollbar {
            max: if max <= 65535 { max as u16 } else { 0 },
            pos: if pos <= 65535 { pos as u16 } else { 0 },
            orientation,
        }
    }
}

} // verus!
