//! Placement of the dockable auxiliary windows below the HUD: one centred
//! window, a side-by-side pair (full size or shrunk to fit), or a stack.
use vstd::prelude::*;

use crate::geometry::{half, half_toward_zero, RectI};

verus! {

/// Horizontal gap between two windows placed side by side.
pub const GAP_X: i64 = 12;

/// Vertical gap below the HUD, and between stacked windows.
pub const GAP_Y: i64 = 20;

/// Width kept free on the screen when deciding whether a row fits.
pub const SCREEN_MARGIN: i64 = 40;

/// Smallest width a window may be shrunk to in a side-by-side row.
pub const MIN_SCALED_WIDTH: i64 = 200;

/// Current outer size of a visible auxiliary window.
#[derive(Clone, Copy, Debug, PartialEq, Eq, Structural)]
pub struct AuxSize {
    pub w: u32,
    pub h: u32,
}

/// Target position and size for one window.
#[derive(Clone, Copy, Debug, PartialEq, Eq, Structural)]
pub struct Slot {
    pub x: i64,
    pub y: i64,
    pub w: i64,
    pub h: i64,
}

/// Targets for the input and context windows; `None` leaves a window alone.
#[derive(Clone, Copy, Debug)]
pub struct Arrangement {
    pub input: Option<Slot>,
    pub context: Option<Slot>,
}

/// Mathematical form of a slot.
pub struct Place {
    pub x: int,
    pub y: int,
    pub w: int,
    pub h: int,
}

/// Mathematical form of an arrangement.
pub struct Plan {
    pub input: Option<Place>,
    pub context: Option<Place>,
}

pub open spec fn place_of(s: Slot) -> Place {
    Place { x: s.x as int, y: s.y as int, w: s.w as int, h: s.h as int }
}

pub open spec fn opt_place(s: Option<Slot>) -> Option<Place> {
    match s {
        Some(s) => Some(place_of(s)),
        None => None,
    }
}

impl View for Arrangement {
    type V = Plan;

    open spec fn view(&self) -> Plan {
        Plan { input: opt_place(self.input), context: opt_place(self.context) }
    }
}

/// Width and height of a visible window, or `None` when it is hidden.
pub open spec fn size_spec(s: Option<AuxSize>) -> Option<(int, int)> {
    match s {
        Some(s) => Some((s.w as int, s.h as int)),
        None => None,
    }
}

/// Row just below the HUD.
pub open spec fn line_y(hud: RectI) -> int {
    hud.bottom_spec() + GAP_Y
}

/// Left edge that centres a span of `width` under the HUD.
pub open spec fn center_x(hud: RectI, width: int) -> int {
    hud.x + half_toward_zero(hud.w - width)
}

/// Screen width usable for a row.
pub open spec fn available_width(screen: RectI) -> int {
    screen.w - SCREEN_MARGIN
}

pub open spec fn row_width(input: (int, int), context: (int, int)) -> int {
    context.0 + GAP_X + input.0
}

pub open spec fn fits_side_by_side(screen: RectI, input: (int, int), context: (int, int)) -> bool {
    row_width(input, context) <= available_width(screen)
}

pub open spec fn can_shrink(screen: RectI) -> bool {
    available_width(screen) > GAP_X + 2 * MIN_SCALED_WIDTH
}

pub open spec fn centered(hud: RectI, size: (int, int)) -> Place {
    Place { x: center_x(hud, size.0), y: line_y(hud), w: size.0, h: size.1 }
}

/// Context on the left, input on the right, the pair centred under the HUD.
pub open spec fn side_by_side(hud: RectI, input: (int, int), context: (int, int)) -> Plan {
    let left = center_x(hud, row_width(input, context));
    Plan {
        context: Some(Place { x: left, y: line_y(hud), w: context.0, h: context.1 }),
        input: Some(Place { x: left + context.0 + GAP_X, y: line_y(hud), w: input.0, h: input.1 }),
    }
}

/// Context width once the row is shrunk in proportion to fill the usable width.
pub open spec fn shrunk_context_width(screen: RectI, input: (int, int), context: (int, int)) -> int {
    context.0 * (available_width(screen) - GAP_X) / row_width(input, context)
}

/// Both windows shrunk in proportion so that the row is exactly the usable width.
pub open spec fn shrunk_side_by_side(
    hud: RectI,
    screen: RectI,
    input: (int, int),
    context: (int, int),
) -> Plan {
    let avail = available_width(screen);
    let cw = shrunk_context_width(screen, input, context);
    let iw = avail - GAP_X - cw;
    let left = center_x(hud, avail);
    Plan {
        context: Some(Place { x: left, y: line_y(hud), w: cw, h: context.1 }),
        input: Some(Place { x: left + cw + GAP_X, y: line_y(hud), w: iw, h: input.1 }),
    }
}

/// How far a stack must move up so that its bottom stays on screen.
pub open spec fn stack_shift(hud: RectI, screen: RectI, input: (int, int), context: (int, int)) -> int {
    let overflow = line_y(hud) + input.1 + GAP_Y + context.1 - screen.bottom_spec();
    if overflow > 0 {
        overflow
    } else {
        0
    }
}

/// Input on top, context below it, each centred; the stack moves up as a whole
/// when it would pass the bottom of the screen.
pub open spec fn stacked(hud: RectI, screen: RectI, input: (int, int), context: (int, int)) -> Plan {
    let shift = stack_shift(hud, screen, input, context);
    Plan {
        input: Some(Place { x: center_x(hud, input.0), y: line_y(hud) - shift, w: input.0, h: input.1 }),
        context: Some(
            Place {
                x: center_x(hud, context.0),
                y: line_y(hud) + input.1 + GAP_Y - shift,
                w: context.0,
                h: context.1,
            },
        ),
    }
}

/// The arrangement for a HUD, its screen, and the sizes of the visible windows.
pub open spec fn arranged(
    hud: RectI,
    screen: RectI,
    input: Option<(int, int)>,
    context: Option<(int, int)>,
) -> Plan {
    match (input, context) {
        (None, None) => Plan { input: None, context: None },
        (Some(i), None) => Plan { input: Some(centered(hud, i)), context: None },
        (None, Some(c)) => Plan { input: None, context: Some(centered(hud, c)) },
        (Some(i), Some(c)) => if fits_side_by_side(screen, i, c) {
            side_by_side(hud, i, c)
        } else if can_shrink(screen) {
            shrunk_side_by_side(hud, screen, i, c)
        } else {
            stacked(hud, screen, i, c)
        },
    }
}

fn line_y_of(hud: &RectI) -> (r: i64)
    ensures
        r == line_y(*hud),
{
    hud.bottom() + GAP_Y
}

fn center_x_of(hud: &RectI, width: i64) -> (r: i64)
    requires
        -0x1_0000_0000_0000 <= width <= 0x1_0000_0000_0000,
    ensures
        r == center_x(*hud, width as int),
{
    hud.x as i64 + half(hud.w as i64 - width)
}

fn centered_slot(hud: &RectI, s: AuxSize) -> (r: Slot)
    ensures
        place_of(r) == centered(*hud, (s.w as int, s.h as int)),
{
    Slot { x: center_x_of(hud, s.w as i64), y: line_y_of(hud), w: s.w as i64, h: s.h as i64 }
}

/// Computes where the visible input and context windows go below the HUD.
/// A hidden window is passed as `None` and gets no slot.
pub fn arrange_hud_children(
    hud: &RectI,
    screen: &RectI,
    input: Option<AuxSize>,
    context: Option<AuxSize>,
) -> (r: Arrangement)
    ensures
        r@ == arranged(*hud, *screen, size_spec(input), size_spec(context)),
{
    match (input, context) {
        (None, None) => Arrangement { input: None, context: None },
        (Some(i), None) => Arrangement { input: Some(centered_slot(hud, i)), context: None },
        (None, Some(c)) => Arrangement { input: None, context: Some(centered_slot(hud, c)) },
        (Some(i), Some(c)) => {
            let ly = line_y_of(hud);
            let iw = i.w as i64;
            let ih = i.h as i64;
            let cw = c.w as i64;
            let ch = c.h as i64;
            let total = cw + GAP_X + iw;
            let avail = screen.w as i64 - SCREEN_MARGIN;
            if total <= avail {
                let left = center_x_of(hud, total);
                Arrangement {
                    context: Some(Slot { x: left, y: ly, w: cw, h: ch }),
                    input: Some(Slot { x: left + cw + GAP_X, y: ly, w: iw, h: ih }),
                }
            } else if avail > GAP_X + 2 * MIN_SCALED_WIDTH {
                assert((c.w as int) * ((avail - GAP_X) as int) <= 0x1_0000_0000 * 0x1_0000_0000)
                    by (nonlinear_arith)
                    requires
                        0 <= c.w < 0x1_0000_0000,
                        0 < avail - GAP_X < 0x1_0000_0000,
                ;
                let prod: u128 = (c.w as u128) * ((avail - GAP_X) as u128);
                let q: u128 = prod / (total as u128);
                proof {
                    let a = (avail - GAP_X) as int;
                    let t = total as int;
                    let cc = c.w as int;
                    assert(0 <= cc <= t);
                    assert(0 < a < t);
                    assert(cc * a / t <= cc) by (nonlinear_arith)
                        requires
                            0 <= cc <= t,
                            0 < a < t,
                    {
                        assert(cc * a <= cc * t);
                        assert(cc * a / t <= cc * t / t);
                        assert(cc * t / t == cc);
                    }
                    assert(cc * a >= 0) by (nonlinear_arith)
                        requires
                            0 <= cc,
                            0 < a,
                    ;
                }
                let new_cw = q as i64;
                let new_iw = avail - GAP_X - new_cw;
                let left = center_x_of(hud, avail);
                Arrangement {
                    context: Some(Slot { x: left, y: ly, w: new_cw, h: ch }),
                    input: Some(Slot { x: left + new_cw + GAP_X, y: ly, w: new_iw, h: ih }),
                }
            } else {
                let bottom = screen.bottom();
                let overflow = ly + ih + GAP_Y + ch - bottom;
                let shift = if overflow > 0 {
                    overflow
                } else {
                    0
                };
                Arrangement {
                    input: Some(Slot { x: center_x_of(hud, iw), y: ly - shift, w: iw, h: ih }),
                    context: Some(
                        Slot { x: center_x_of(hud, cw), y: ly + ih + GAP_Y - shift, w: cw, h: ch },
                    ),
                }
            }
        },
    }
}

/// Sizes the windows have once an arrangement has been applied to them.
pub open spec fn applied_size(p: Option<Place>) -> Option<(int, int)> {
    match p {
        Some(p) => Some((p.w, p.h)),
        None => None,
    }
}

/// The arranger is deterministic and settles: two runs on the same HUD,
/// screen and window sizes agree, and running it again after its result has
/// been applied (windows moved, shrunk widths set) yields the same targets.
pub proof fn lemma_arrangement_settles(
    hud: RectI,
    screen: RectI,
    input: Option<(int, int)>,
    context: Option<(int, int)>,
)
    ensures
        ({
            let p = arranged(hud, screen, input, context);
            arranged(hud, screen, applied_size(p.input), applied_size(p.context)) == p
        }),
{
    let p = arranged(hud, screen, input, context);
    match (input, context) {
        (Some(i), Some(c)) => {
            if !fits_side_by_side(screen, i, c) && can_shrink(screen) {
                let cw = shrunk_context_width(screen, i, c);
                let iw = available_width(screen) - GAP_X - cw;
                assert(row_width((iw, i.1), (cw, c.1)) == available_width(screen));
            }
        },
        _ => {},
    }
}

/// Two calls of the arranger on the same inputs return the same targets.
pub proof fn lemma_arrangement_deterministic(
    hud: RectI,
    screen: RectI,
    input: Option<AuxSize>,
    context: Option<AuxSize>,
    r1: Arrangement,
    r2: Arrangement,
)
    requires
        r1@ == arranged(hud, screen, size_spec(input), size_spec(context)),
        r2@ == arranged(hud, screen, size_spec(input), size_spec(context)),
    ensures
        r1.input == r2.input,
        r1.context == r2.context,
{
}

/// When both windows are visible and the screen is too narrow for a row even
/// after shrinking, input sits above context with `GAP_Y` between them, each
/// centred under the HUD, and both move up by the same amount: exactly what
/// the stack would overflow the screen's bottom edge by, or nothing.
pub proof fn lemma_stacked_fallback(hud: RectI, screen: RectI, input: (int, int), context: (int, int))
    requires
        !fits_side_by_side(screen, input, context),
        !can_shrink(screen),
    ensures
        ({
            let p = arranged(hud, screen, Some(input), Some(context));
            let i = p.input->Some_0;
            let c = p.context->Some_0;
            let shift = line_y(hud) - i.y;
            &&& p.input is Some && p.context is Some
            &&& c.y == i.y + input.1 + GAP_Y
            &&& i.x == center_x(hud, input.0) && c.x == center_x(hud, context.0)
            &&& i.w == input.0 && c.w == context.0
            &&& shift >= 0
            &&& shift == line_y(hud) + input.1 + GAP_Y + context.1 - screen.bottom_spec()
                || (shift == 0 && c.y + context.1 <= screen.bottom_spec())
        }),
{
}

} // verus!
