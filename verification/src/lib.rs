use vstd::prelude::*;

verus! {

/// An axis-aligned rectangle: an immutable value with a non-negative
/// integer width and height. Zero-sized rectangles are permitted; the
/// comparison handles them rather than rejecting them.
#[derive(Clone, Copy, Debug, PartialEq, Eq, Structural)]
pub struct Rectangle {
    pub width: u32,
    pub height: u32,
}

/// What `can_hold` decides: both of `a`'s dimensions strictly exceed
/// the corresponding dimension of `b`.
pub open spec fn spec_can_hold(a: Rectangle, b: Rectangle) -> bool {
    a.width > b.width && a.height > b.height
}

impl Rectangle {
    /// Returns `true` if and only if `self.width > other.width` and
    /// `self.height > other.height` (both strict). Pure and total: it is
    /// defined for every pair of rectangles, zero-sized ones included.
    pub fn can_hold(&self, other: &Rectangle) -> (r: bool)
        ensures
            r == spec_can_hold(*self, *other),
    {
        self.width > other.width && self.height > other.height
    }
}

/// No rectangle can hold itself: neither dimension is strictly greater
/// than itself, so `a.can_hold(a)` is always `false`.
pub proof fn lemma_cannot_hold_itself(a: Rectangle)
    ensures
        !spec_can_hold(a, a),
{
}

/// Adds a party to the waiting list. The list itself is not modeled, so
/// this call performs no action and returns nothing observable.
pub fn add_to_waitlist() {
}

} // verus!
