//! The part of a screenshot that a selection keeps.

use vstd::prelude::*;

verus! {

/// `v as i32` for a `u32`: values past `i32::MAX` wrap to negative ones.
pub open spec fn wrap_i32(v: u32) -> int {
    if v <= 0x7fff_ffff {
        v as int
    } else {
        v - 0x1_0000_0000
    }
}

/// `v as u32` for an `i32`: negative values wrap to large ones.
pub open spec fn wrap_u32(v: int) -> int {
    if v >= 0 {
        v
    } else {
        v + 0x1_0000_0000
    }
}

/// The least of two integers.
pub open spec fn min_int(a: int, b: int) -> int {
    if a <= b { a } else { b }
}

/// The start of the selection on one axis: the position moved into
/// `[0, screen]` (the screen size taken as an `i32`), then as a `u32`.
pub open spec fn crop_start(pos: i32, screen: u32) -> int {
    wrap_u32(min_int(if pos >= 0 { pos as int } else { 0 }, wrap_i32(screen)))
}

/// The length of the selection on one axis: at most what is left of the
/// screen after its start.
pub open spec fn crop_len(len: u32, screen: u32, start: int) -> int {
    min_int(len as int, if screen >= start { screen - start } else { 0 })
}

fn clamp_start(pos: i32, screen: u32) -> (r: u32)
    ensures
        r == crop_start(pos, screen),
{
    let s: i32 = if screen <= 0x7fff_ffff { screen as i32 } else { (screen as i64 - 0x1_0000_0000i64) as i32 };
    let p: i32 = if pos >= 0 { pos } else { 0 };
    let c: i32 = if p <= s { p } else { s };
    if c >= 0 { c as u32 } else { (c as i64 + 0x1_0000_0000i64) as u32 }
}

/// The region of the screen a selection keeps: `(x, y, width, height)`.
pub fn crop_region(x: i32, y: i32, width: u32, height: u32, screen_width: u32, screen_height: u32) -> (r: (u32, u32, u32, u32))
    ensures
        r.0 == crop_start(x, screen_width),
        r.1 == crop_start(y, screen_height),
        r.2 == crop_len(width, screen_width, r.0 as int),
        r.3 == crop_len(height, screen_height, r.1 as int),
{
    let cx = clamp_start(x, screen_width);
    let cy = clamp_start(y, screen_height);
    let rw = screen_width.saturating_sub(cx);
    let rh = screen_height.saturating_sub(cy);
    let cw = if width <= rw { width } else { rw };
    let ch = if height <= rh { height } else { rh };
    (cx, cy, cw, ch)
}

/// A selection within the screen keeps a region within the screen.
pub proof fn lemma_crop_within_screen(x: i32, width: u32, screen: u32)
    requires
        screen <= 0x7fff_ffff,
    ensures
        0 <= crop_start(x, screen) <= screen,
        crop_start(x, screen) + crop_len(width, screen, crop_start(x, screen)) <= screen,
{
}

} // verus!
