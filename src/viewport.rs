//! Keeping the cursor inside the visible window of the buffer.
use vstd::prelude::*;

verus! {

/// How far the window jumps when the cursor runs off its right edge. The
/// jump is coarse on purpose, so that the text does not shift at every key.
pub const H_SCROLL_STRIDE: usize = 7;

/// The first visible row once `row` has been brought into a window of
/// `height` rows whose first row was `scroll`: the window moves as little
/// as it can.
pub open spec fn fit_vertical(row: int, scroll: int, height: int) -> int {
    if row < scroll {
        row
    } else if row >= scroll + height {
        row - height + 1
    } else {
        scroll
    }
}

/// The jump of the window to the right in a window `width` columns wide:
/// always the fixed stride, with one exception: a window narrower than the
/// stride jumps by its own width, so that the cursor stays inside it.
pub open spec fn stride(width: int) -> int {
    if width < H_SCROLL_STRIDE {
        width
    } else {
        H_SCROLL_STRIDE as int
    }
}

/// The first visible column once `col` has been brought into a window of
/// `width` columns whose first column was `h_scroll`. To the left the
/// window follows the cursor; to the right it jumps by whole strides. One
/// step to the right past the edge makes exactly one jump.
pub open spec fn fit_horizontal(col: int, h_scroll: int, width: int) -> int {
    if col < h_scroll {
        col
    } else if col >= h_scroll + width {
        h_scroll + stride(width) * ((col - h_scroll - width) / stride(width) + 1)
    } else {
        h_scroll
    }
}

/// `x` within `[lo, hi]`.
pub open spec fn clamp(x: int, lo: int, hi: int) -> int {
    if x < lo {
        lo
    } else if x > hi {
        hi
    } else {
        x
    }
}

/// The last first-visible-row that a window of `height` rows can scroll to
/// over a buffer of `len` lines.
pub open spec fn scroll_limit(height: int, len: int) -> int {
    if len > height {
        len - height
    } else {
        0
    }
}

/// The first visible row of a window of `height` rows that starts at
/// `scroll` and is scrolled by `delta` rows over a buffer of `len` lines:
/// always within `[0, scroll_limit(height, len)]`.
pub open spec fn scrolled(scroll: int, delta: int, height: int, len: int) -> int {
    clamp(scroll + delta, 0, scroll_limit(height, len))
}

/// Whole strides past `x` fit where they must: `k` strides of `s` columns
/// reach past `x` but not a stride beyond it.
pub proof fn lemma_stride_jump(x: int, s: int)
    requires
        x >= 0,
        s > 0,
    ensures
        s * (x / s) <= x < s * (x / s + 1),
        s * (x / s + 1) == s * (x / s) + s,
{
    vstd::arithmetic::div_mod::lemma_fundamental_div_mod(x, s);
    assert(s * (x / s + 1) == s * (x / s) + s) by (nonlinear_arith);
}

pub fn fit_row(row: usize, scroll: usize, height: usize) -> (r: usize)
    requires
        height >= 1,
    ensures
        r == fit_vertical(row as int, scroll as int, height as int),
        r <= row < r + height,
{
    if row < scroll {
        row
    } else if row - scroll >= height {
        row - height + 1
    } else {
        scroll
    }
}

pub fn fit_col(col: usize, h_scroll: usize, width: usize) -> (r: usize)
    requires
        width >= 1,
    ensures
        r == fit_horizontal(col as int, h_scroll as int, width as int),
        r <= col < r + width,
{
    if col < h_scroll {
        col
    } else if col - h_scroll >= width {
        let step: usize = if width < H_SCROLL_STRIDE { width } else { H_SCROLL_STRIDE };
        let x: usize = col - h_scroll - width;
        let q: usize = x / step;
        proof { lemma_stride_jump(x as int, step as int); }
        h_scroll + step * (q + 1)
    } else {
        h_scroll
    }
}

/// The first visible row after scrolling by `delta` rows.
pub fn scroll_target(scroll: usize, delta: isize, height: usize, len: usize) -> (r: usize)
    ensures
        r == scrolled(scroll as int, delta as int, height as int, len as int),
{
    let top: usize = if len > height { len - height } else { 0 };
    if delta >= 0 {
        let d = delta as usize;
        if scroll <= top && d <= top - scroll {
            scroll + d
        } else {
            top
        }
    } else {
        let back: usize = (-(delta + 1)) as usize + 1;
        if back > scroll {
            0
        } else if scroll - back <= top {
            scroll - back
        } else {
            top
        }
    }
}

} // verus!
