//! Horizontal placement of text on a terminal row.

use vstd::prelude::*;

verus! {

/// The column at which a text of `len` characters starts when it is centred
/// on a row `width` columns wide; a text wider than the row starts at column 0.
pub open spec fn center_offset(width: int, len: int) -> int {
    if len >= width {
        0
    } else {
        (width - len) / 2
    }
}

/// `a - b`, or 0 where `b` exceeds `a`.
pub open spec fn sat_sub(a: int, b: int) -> int {
    if b >= a {
        0
    } else {
        a - b
    }
}

/// Starting column that centres `text` on a row of `width` columns.
pub fn center_x(width: u16, text: &str) -> (r: u16)
    ensures
        r as int == center_offset(width as int, text@.len() as int),
{
    let len = text.unicode_len();
    if len >= width as usize {
        0
    } else {
        ((width as usize - len) / 2) as u16
    }
}

/// Centring never yields a negative column. A text that fits starts at half the
/// free space, rounded down, and then ends within the row; a text wider than
/// the row starts at column 0.
pub proof fn lemma_center_offset(width: int, len: int)
    requires
        0 <= width,
        0 <= len,
    ensures
        0 <= center_offset(width, len),
        len <= width ==> center_offset(width, len) == (width - len) / 2,
        len <= width ==> center_offset(width, len) + len <= width,
        len > width ==> center_offset(width, len) == 0,
{
}

} // verus!
