//! Where the panel and response windows appear: centred below the HUD on
//! the HUD's monitor, computed in logical points and rounded back to
//! physical pixels. Display scales are given in hundredths (200 is a 2x
//! Retina display).
use vstd::prelude::*;

use crate::geometry::RectI;
use crate::window::{INPUT_HEIGHT, PANEL_WIDTH, RESPONSE_WIDTH};

verus! {

/// Gap between the HUD and a window placed below it, in points.
pub const BELOW_HUD_GAP: i64 = 20;

/// Gap between the input window and a response shown below it, in points.
pub const BELOW_INPUT_GAP: i64 = 10;

/// Extra leftward shift used when repositioning the panel by hand, in points.
pub const DEBUG_SHIFT_X: i16 = -225;

/// `n / d` rounded to the nearest integer, halves away from zero.
pub open spec fn round_div(n: int, d: int) -> int {
    if n >= 0 {
        (2 * n + d) / (2 * d)
    } else {
        -((-2 * n + d) / (2 * d))
    }
}

fn round_div_exec(n: i64, d: i64) -> (r: i64)
    requires
        0 < d <= 1000,
        -0x1000_0000_0000_0000 <= n <= 0x1000_0000_0000_0000,
    ensures
        r == round_div(n as int, d as int),
{
    if n >= 0 {
        let m = 2 * n + d;
        let q = m / (2 * d);
        assert(0 <= q <= m) by (nonlinear_arith)
            requires
                0 <= m,
                2 <= 2 * d,
                q as int == (m as int) / (2 * (d as int)),
        ;
        q
    } else {
        let m = d - 2 * n;
        let q = m / (2 * d);
        assert(0 <= q <= m) by (nonlinear_arith)
            requires
                0 <= m,
                2 <= 2 * d,
                q as int == (m as int) / (2 * (d as int)),
        ;
        -q
    }
}

/// Horizontal correction, in points, that each kind of display needs:
/// none at 2x, 20 points left at 1x, 10 points left otherwise.
pub open spec fn manual_offset_spec(scale_pct: int) -> int {
    if scale_pct == 200 {
        0
    } else if scale_pct == 100 {
        -20
    } else {
        -10
    }
}

pub fn manual_offset_for_scale(scale_pct: u16) -> (r: i16)
    ensures
        r == manual_offset_spec(scale_pct as int),
{
    if scale_pct == 200 {
        0
    } else if scale_pct == 100 {
        -20
    } else {
        -10
    }
}

/// Physical position of a window `width` points wide centred below the HUD,
/// shifted right by `x_offset` points and down by `extra_y` points beyond
/// the usual gap. The HUD rectangle and the monitor origin are in physical
/// pixels; the result is too.
pub open spec fn below_hud_spec(
    hud: RectI,
    origin_x: int,
    origin_y: int,
    scale_pct: int,
    width: int,
    x_offset: int,
    extra_y: int,
) -> (int, int) {
    let nx = 200 * (hud.x - origin_x) + 100 * hud.w - width * scale_pct + 2 * (x_offset * scale_pct);
    let ny = 100 * (hud.y - origin_y + hud.h) + (BELOW_HUD_GAP + extra_y) * scale_pct;
    (origin_x + round_div(nx, 200), origin_y + round_div(ny, 100))
}

pub fn place_below_hud(
    hud: &RectI,
    origin_x: i32,
    origin_y: i32,
    scale_pct: u16,
    width: u16,
    x_offset: i16,
    extra_y: u16,
) -> (r: (i64, i64))
    ensures
        (r.0 as int, r.1 as int) == below_hud_spec(
            *hud,
            origin_x as int,
            origin_y as int,
            scale_pct as int,
            width as int,
            x_offset as int,
            extra_y as int,
        ),
{
    let p = scale_pct as i64;
    proof {
        assert(0 <= (width as int) * (p as int) <= 0x1_0000 * 0x1_0000) by (nonlinear_arith)
            requires
                0 <= width < 0x1_0000,
                0 <= p < 0x1_0000,
        ;
        assert(-0x1_0000 * 0x1_0000 <= (x_offset as int) * (p as int) <= 0x1_0000 * 0x1_0000)
            by (nonlinear_arith)
            requires
                -0x8000 <= x_offset < 0x8000,
                0 <= p < 0x1_0000,
        ;
        assert(0 <= (BELOW_HUD_GAP + extra_y as int) * (p as int) <= 0x2_0000 * 0x1_0000)
            by (nonlinear_arith)
            requires
                0 <= extra_y < 0x1_0000,
                0 <= p < 0x1_0000,
        ;
    }
    let nx = 200 * (hud.x as i64 - origin_x as i64) + 100 * hud.w as i64 - (width as i64) * p + 2
        * ((x_offset as i64) * p);
    let ny = 100 * (hud.y as i64 - origin_y as i64 + hud.h as i64) + (BELOW_HUD_GAP
        + extra_y as i64) * p;
    proof {
        assert(nx == 200 * (hud.x - origin_x) + 100 * hud.w - width * scale_pct + 2 * (x_offset
            * scale_pct));
        assert(ny == 100 * (hud.y - origin_y + hud.h) + (BELOW_HUD_GAP + extra_y) * scale_pct);
    }
    (origin_x as i64 + round_div_exec(nx, 200), origin_y as i64 + round_div_exec(ny, 100))
}

/// Where the panel goes when shown.
pub fn panel_position(hud: &RectI, origin_x: i32, origin_y: i32, scale_pct: u16) -> (r: (i64, i64))
    ensures
        (r.0 as int, r.1 as int) == below_hud_spec(
            *hud,
            origin_x as int,
            origin_y as int,
            scale_pct as int,
            PANEL_WIDTH as int,
            manual_offset_spec(scale_pct as int),
            0,
        ),
{
    let off = manual_offset_for_scale(scale_pct);
    place_below_hud(hud, origin_x, origin_y, scale_pct, PANEL_WIDTH as u16, off, 0)
}

/// Where the response window goes when shown on its own.
pub fn response_position(hud: &RectI, origin_x: i32, origin_y: i32, scale_pct: u16) -> (r: (
    i64,
    i64,
))
    ensures
        (r.0 as int, r.1 as int) == below_hud_spec(
            *hud,
            origin_x as int,
            origin_y as int,
            scale_pct as int,
            RESPONSE_WIDTH as int,
            manual_offset_spec(scale_pct as int),
            0,
        ),
{
    let off = manual_offset_for_scale(scale_pct);
    place_below_hud(hud, origin_x, origin_y, scale_pct, RESPONSE_WIDTH as u16, off, 0)
}

/// Where the response window goes when shown below the input window.
pub fn response_below_input_position(hud: &RectI, origin_x: i32, origin_y: i32, scale_pct: u16) -> (r:
    (i64, i64))
    ensures
        (r.0 as int, r.1 as int) == below_hud_spec(
            *hud,
            origin_x as int,
            origin_y as int,
            scale_pct as int,
            RESPONSE_WIDTH as int,
            manual_offset_spec(scale_pct as int),
            INPUT_HEIGHT + BELOW_INPUT_GAP,
        ),
{
    let off = manual_offset_for_scale(scale_pct);
    place_below_hud(
        hud,
        origin_x,
        origin_y,
        scale_pct,
        RESPONSE_WIDTH as u16,
        off,
        (INPUT_HEIGHT + BELOW_INPUT_GAP) as u16,
    )
}

/// Where the panel goes when repositioned by hand: below the HUD, further
/// left, in the desktop's own coordinates.
pub fn debug_panel_position(hud: &RectI, scale_pct: u16) -> (r: (i64, i64))
    ensures
        (r.0 as int, r.1 as int) == below_hud_spec(
            *hud,
            0,
            0,
            scale_pct as int,
            PANEL_WIDTH as int,
            DEBUG_SHIFT_X as int,
            0,
        ),
{
    place_below_hud(hud, 0, 0, scale_pct, PANEL_WIDTH as u16, DEBUG_SHIFT_X, 0)
}

} // verus!
