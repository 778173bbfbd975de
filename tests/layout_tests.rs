use numa_hud::geometry::{overlaps, RectI};
use numa_hud::layout::{arrange_hud_children, AuxSize, Slot};

fn rect(x: i32, y: i32, w: i32, h: i32) -> RectI {
    RectI { x, y, w, h }
}

#[test]
fn nothing_visible_moves_nothing() {
    let r = arrange_hud_children(&rect(0, 0, 400, 60), &rect(0, 0, 1000, 800), None, None);
    assert!(r.input.is_none() && r.context.is_none());
}

#[test]
fn single_window_is_centered_below_hud() {
    let r = arrange_hud_children(
        &rect(300, 100, 400, 60),
        &rect(0, 0, 1000, 800),
        Some(AuxSize { w: 450, h: 120 }),
        None,
    );
    assert_eq!(r.input, Some(Slot { x: 275, y: 180, w: 450, h: 120 }));
    assert!(r.context.is_none());
}

#[test]
fn odd_difference_rounds_toward_zero() {
    let r = arrange_hud_children(
        &rect(0, 0, 400, 60),
        &rect(0, 0, 1000, 800),
        None,
        Some(AuxSize { w: 401, h: 100 }),
    );
    assert_eq!(r.context, Some(Slot { x: 0, y: 80, w: 401, h: 100 }));
}

#[test]
fn pair_fits_side_by_side() {
    // 400 + 12 + 450 = 862 <= 1000 - 40
    let r = arrange_hud_children(
        &rect(300, 100, 400, 60),
        &rect(0, 0, 1000, 800),
        Some(AuxSize { w: 450, h: 120 }),
        Some(AuxSize { w: 400, h: 300 }),
    );
    let c = r.context.unwrap();
    let i = r.input.unwrap();
    assert_eq!(c, Slot { x: 69, y: 180, w: 400, h: 300 });
    assert_eq!(i, Slot { x: 481, y: 180, w: 450, h: 120 });
    assert!(c.x < i.x);
    // the pair is centred under the HUD
    assert_eq!((c.x + (i.x + i.w)) / 2, 300 + 400 / 2);
}

#[test]
fn narrow_screen_shrinks_pair() {
    // 660 usable, 862 wanted: shrunk to 300 and 348
    let r = arrange_hud_children(
        &rect(100, 100, 400, 60),
        &rect(0, 0, 700, 800),
        Some(AuxSize { w: 450, h: 120 }),
        Some(AuxSize { w: 400, h: 300 }),
    );
    assert_eq!(r.context, Some(Slot { x: -30, y: 180, w: 300, h: 300 }));
    assert_eq!(r.input, Some(Slot { x: 282, y: 180, w: 348, h: 120 }));
}

#[test]
fn very_narrow_screen_stacks_and_shifts_up() {
    let r = arrange_hud_children(
        &rect(0, 0, 400, 50),
        &rect(0, 0, 420, 400),
        Some(AuxSize { w: 300, h: 120 }),
        Some(AuxSize { w: 300, h: 300 }),
    );
    let i = r.input.unwrap();
    let c = r.context.unwrap();
    // unshifted: input at 70, context at 70 + 120 + 20 = 210, bottom 510
    assert_eq!(i, Slot { x: 50, y: -40, w: 300, h: 120 });
    assert_eq!(c, Slot { x: 50, y: 100, w: 300, h: 300 });
    assert_eq!(c.y, i.y + i.h + 20);
    assert_eq!(c.y + c.h, 400);
}

#[test]
fn stack_that_fits_is_not_shifted() {
    let r = arrange_hud_children(
        &rect(0, 0, 400, 50),
        &rect(0, 0, 420, 2000),
        Some(AuxSize { w: 300, h: 120 }),
        Some(AuxSize { w: 200, h: 300 }),
    );
    assert_eq!(r.input, Some(Slot { x: 50, y: 70, w: 300, h: 120 }));
    assert_eq!(r.context, Some(Slot { x: 100, y: 210, w: 200, h: 300 }));
}

#[test]
fn arranging_again_changes_nothing() {
    let hud = rect(100, 100, 400, 60);
    let screen = rect(0, 0, 700, 800);
    let first = arrange_hud_children(
        &hud,
        &screen,
        Some(AuxSize { w: 450, h: 120 }),
        Some(AuxSize { w: 400, h: 300 }),
    );
    let again = arrange_hud_children(
        &hud,
        &screen,
        Some(AuxSize { w: 450, h: 120 }),
        Some(AuxSize { w: 400, h: 300 }),
    );
    assert_eq!(first.input, again.input);
    assert_eq!(first.context, again.context);
    let i = first.input.unwrap();
    let c = first.context.unwrap();
    let settled = arrange_hud_children(
        &hud,
        &screen,
        Some(AuxSize { w: i.w as u32, h: i.h as u32 }),
        Some(AuxSize { w: c.w as u32, h: c.h as u32 }),
    );
    assert_eq!(settled.input, first.input);
    assert_eq!(settled.context, first.context);
}

#[test]
fn touching_edges_overlap() {
    let a = rect(0, 0, 100, 50);
    let b = rect(100, 10, 80, 20);
    assert_eq!(a.right(), b.x as i64);
    assert!(overlaps(&a, &b));
    assert!(overlaps(&b, &a));
    let corner = rect(100, 50, 10, 10);
    assert!(overlaps(&a, &corner));
    let apart = rect(101, 0, 10, 10);
    assert!(!overlaps(&a, &apart));
}
