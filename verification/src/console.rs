//! Normalization for the console-API backend: platforms with a native
//! console subsystem report the visible window as a rectangle whose edges
//! are both inclusive, so width and height each need an off-by-one
//! correction rather than a direct read of two counts.

use vstd::prelude::*;

verus! {

/// The visible window rectangle as the native console-information query
/// reports it: character-cell coordinates of the window's edges, with both
/// edges inclusive (a one-cell window has `left == right` and
/// `top == bottom`).
#[derive(Clone, Copy)]
pub struct ConsoleRect {
    pub left: i16,
    pub top: i16,
    pub right: i16,
    pub bottom: i16,
}

impl ConsoleRect {
    /// Both edges are inclusive, so the window's right edge never lies left
    /// of its left edge, nor its bottom edge above its top edge.
    pub open spec fn well_formed(self) -> bool {
        self.left <= self.right && self.top <= self.bottom
    }

    /// Width in character cells; the `+ 1` corrects for the inclusive edges.
    pub open spec fn spec_width(self) -> int {
        self.right - self.left + 1
    }

    /// Height in character cells; the `+ 1` corrects for the inclusive edges.
    pub open spec fn spec_height(self) -> int {
        self.bottom - self.top + 1
    }
}

/// Outcome of one console-information query: when the call succeeded, the
/// reported window rectangle gives the size; a failed call means absence.
pub open spec fn spec_console_size(succeeded: bool, window: ConsoleRect) -> Option<(usize, usize)>
    recommends
        window.well_formed(),
{
    if succeeded {
        Some((window.spec_width() as usize, window.spec_height() as usize))
    } else {
        None
    }
}

/// Translates one console-information query outcome into a character-cell
/// size: width and height are derived from the window rectangle by the
/// inclusive-bounds formula, and only the call's own success or failure
/// decides absence.
pub fn console_size(succeeded: bool, window: ConsoleRect) -> (size: Option<(usize, usize)>)
    requires
        window.well_formed(),
    ensures
        size == spec_console_size(succeeded, window),
{
    if succeeded {
        let width: usize = (window.right as i32 - window.left as i32 + 1) as usize;
        let height: usize = (window.bottom as i32 - window.top as i32 + 1) as usize;
        Some((width, height))
    } else {
        None
    }
}

/// A size derived from a well-formed window rectangle is always present on a
/// successful call, matches the inclusive-bounds formula exactly, and each
/// component is at least one cell and at most the 16-bit coordinate span.
pub proof fn lemma_console_size_bounds(succeeded: bool, window: ConsoleRect)
    requires
        window.well_formed(),
    ensures
        spec_console_size(succeeded, window) is Some <==> succeeded,
        spec_console_size(succeeded, window) matches Some(size) ==> {
            &&& size.0 == window.spec_width()
            &&& size.1 == window.spec_height()
            &&& 1 <= size.0 <= 65536
            &&& 1 <= size.1 <= 65536
        },
{
}

} // verus!
