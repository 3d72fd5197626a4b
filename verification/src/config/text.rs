//! Text overlay styling and the pure anchor-positioning rule: a total map
//! from (screen size, measured text extent, margin) and one of the nine
//! anchors to a top-left pixel coordinate.

use vstd::prelude::*;

use crate::base::PixelSize;
use crate::config::position::Position;

verus! {

/// Half the signed difference `outer - inner`, rounded towards zero.
pub open spec fn half_diff(outer: u32, inner: u32) -> int {
    if outer >= inner {
        (outer - inner) / 2
    } else {
        -((inner - outer) / 2)
    }
}

/// The top-left coordinate each anchor maps to. Centered axes sit at half
/// the free space; the top margin and bottom margin count double, the left
/// and right margins once.
pub open spec fn spec_anchor_point(
    pos: Position,
    screen: PixelSize,
    text_w: u32,
    text_h: u32,
    margin: u32,
) -> (int, int) {
    let cx = half_diff(screen.width, text_w);
    let cy = half_diff(screen.height, text_h);
    let top_y = 2 * (margin as int);
    let bottom_y = screen.height - text_h - 2 * (margin as int);
    let left_x = margin as int;
    let right_x = screen.width - text_w - (margin as int);
    match pos {
        Position::Center => (cx, cy),
        Position::Top => (cx, top_y),
        Position::Bottom => (cx, bottom_y),
        Position::Left => (left_x, cy),
        Position::Right => (right_x, cy),
        Position::TopLeft => (left_x, top_y),
        Position::TopRight => (right_x, top_y),
        Position::BottomLeft => (left_x, bottom_y),
        Position::BottomRight => (right_x, bottom_y),
    }
}

/// Styling of one text overlay: its RGBA color and its anchor.
#[derive(Debug, Clone, Copy, PartialEq, Eq)]
pub struct Text {
    pub color: [u8; 4],
    pub position: Position,
}

impl Text {
    /// Maps this overlay's anchor to a top-left pixel coordinate; total and
    /// deterministic for every anchor and every input.
    pub fn position(&self, screen_size: &PixelSize, text_size: &[u32; 2], margin: u32) -> (r: (
        i64,
        i64,
    ))
        ensures
            (r.0 as int, r.1 as int) == spec_anchor_point(
                self.position,
                *screen_size,
                text_size[0],
                text_size[1],
                margin,
            ),
    {
        let text_w = text_size[0];
        let text_h = text_size[1];
        match self.position {
            Position::Center => self.center(screen_size, text_w, text_h),
            Position::Top => self.top(screen_size, text_w, text_h, margin),
            Position::Bottom => self.bottom(screen_size, text_w, text_h, margin),
            Position::Left => self.left(screen_size, text_w, text_h, margin),
            Position::Right => self.right(screen_size, text_w, text_h, margin),
            Position::TopLeft => {
                let top = self.top(screen_size, text_w, text_h, margin);
                let left = self.left(screen_size, text_w, text_h, margin);
                (left.0, top.1)
            },
            Position::TopRight => {
                let top = self.top(screen_size, text_w, text_h, margin);
                let right = self.right(screen_size, text_w, text_h, margin);
                (right.0, top.1)
            },
            Position::BottomLeft => {
                let bottom = self.bottom(screen_size, text_w, text_h, margin);
                let left = self.left(screen_size, text_w, text_h, margin);
                (left.0, bottom.1)
            },
            Position::BottomRight => {
                let bottom = self.bottom(screen_size, text_w, text_h, margin);
                let right = self.right(screen_size, text_w, text_h, margin);
                (right.0, bottom.1)
            },
        }
    }

    fn center(&self, screen_size: &PixelSize, text_w: u32, text_h: u32) -> (r: (i64, i64))
        ensures
            r.0 as int == half_diff(screen_size.width, text_w),
            r.1 as int == half_diff(screen_size.height, text_h),
    {
        (half_diff_px(screen_size.width, text_w), half_diff_px(screen_size.height, text_h))
    }

    fn top(&self, screen_size: &PixelSize, text_w: u32, text_h: u32, margin: u32) -> (r: (
        i64,
        i64,
    ))
        ensures
            r.0 as int == half_diff(screen_size.width, text_w),
            r.1 as int == 2 * (margin as int),
    {
        (half_diff_px(screen_size.width, text_w), 2 * (margin as i64))
    }

    fn bottom(&self, screen_size: &PixelSize, text_w: u32, text_h: u32, margin: u32) -> (r: (
        i64,
        i64,
    ))
        ensures
            r.0 as int == half_diff(screen_size.width, text_w),
            r.1 as int == screen_size.height - text_h - 2 * (margin as int),
    {
        (
            half_diff_px(screen_size.width, text_w),
            screen_size.height as i64 - text_h as i64 - 2 * (margin as i64),
        )
    }

    fn left(&self, screen_size: &PixelSize, text_w: u32, text_h: u32, margin: u32) -> (r: (
        i64,
        i64,
    ))
        ensures
            r.0 as int == margin as int,
            r.1 as int == half_diff(screen_size.height, text_h),
    {
        (margin as i64, half_diff_px(screen_size.height, text_h))
    }

    fn right(&self, screen_size: &PixelSize, text_w: u32, text_h: u32, margin: u32) -> (r: (
        i64,
        i64,
    ))
        ensures
            r.0 as int == screen_size.width - text_w - (margin as int),
            r.1 as int == half_diff(screen_size.height, text_h),
    {
        (
            screen_size.width as i64 - text_w as i64 - margin as i64,
            half_diff_px(screen_size.height, text_h),
        )
    }
}

/// Half the signed difference of two pixel extents, exactly [`half_diff`].
fn half_diff_px(outer: u32, inner: u32) -> (r: i64)
    ensures
        r as int == half_diff(outer, inner),
{
    if outer >= inner {
        (((outer - inner) / 2) as i64)
    } else {
        -((((inner - outer) / 2) as i64))
    }
}

/// For a fixed screen size, text extent and margin that leave room between
/// the anchors, the nine anchors map to nine pairwise distinct coordinates.
pub proof fn lemma_anchor_points_distinct(
    screen: PixelSize,
    text_w: u32,
    text_h: u32,
    margin: u32,
    a: Position,
    b: Position,
)
    requires
        text_w < screen.width,
        text_h < screen.height,
        margin < half_diff(screen.width, text_w),
        2 * margin < half_diff(screen.height, text_h),
        a != b,
    ensures
        spec_anchor_point(a, screen, text_w, text_h, margin) != spec_anchor_point(
            b,
            screen,
            text_w,
            text_h,
            margin,
        ),
{
    let w = screen.width as int;
    let h = screen.height as int;
    let tw = text_w as int;
    let th = text_h as int;
    let m = margin as int;
    let cx = half_diff(screen.width, text_w);
    let cy = half_diff(screen.height, text_h);
    assert(2 * cx <= w - tw && w - tw <= 2 * cx + 1);
    assert(2 * cy <= h - th && h - th <= 2 * cy + 1);
    assert(m < cx && cx < w - tw - m);
    assert(2 * m < cy && cy < h - th - 2 * m);
}

} // verus!
