use vstd::prelude::*;

verus! {

/// Trait for widget that can scroll.
pub trait Scrollable {
    /// Scroll vertically by the specified amount of pixels.
    /// A negative value scrolls towards the top.
    fn scroll_by(&self, pixels: i64);

    /// Scroll to the bottom.
    fn scroll_bottom(&self);

    /// The current vertical scroll position as a percentage, or
    /// `UNKNOWN_SCROLL_PERCENTAGE` where there is nothing to scroll.
    fn scroll_percentage(&self) -> i64;

    /// Scroll to the top.
    fn scroll_top(&self);
}

/// The scroll percentage of a page that has no body or document, or whose
/// content fits in its window.
pub const UNKNOWN_SCROLL_PERCENTAGE: i64 = -1;

/// The scroll position after scrolling by `pixels` from `top`: a positive
/// amount scrolls down, a negative one up.
pub open spec fn scroll_position(top: int, pixels: int) -> int {
    top + pixels
}

/// The scroll position after scrolling by `pixels` from `top`.
pub fn scrolled_top(top: i64, pixels: i64) -> (r: i64)
    requires
        i64::MIN <= top + pixels <= i64::MAX,
    ensures
        r == scroll_position(top as int, pixels as int),
{
    top + pixels
}

/// Whether content `scroll_height` high scrolls in a window whose height,
/// cut to an integer, is `client_height`: only then has a scroll percentage a
/// meaning.
pub fn has_scroll_range(scroll_height: i64, client_height: i64) -> (r: bool)
    ensures
        r == (scroll_height > client_height),
{
    !(scroll_height <= client_height)
}

} // verus!
