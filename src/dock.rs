//! Docking of an auxiliary window to the HUD: a two-state machine whose
//! transitions tell the host what to do at the OS level.
use vstd::prelude::*;

use crate::text::join2;
use crate::window::{label_spec, WindowKind};

verus! {

/// Where a docked window sits relative to the HUD.
#[derive(Clone, Copy, Debug, PartialEq, Eq, Structural)]
pub enum DockAnchor {
    BelowCenter,
    BelowLeft,
    BelowRight,
}

impl DockAnchor {
    /// Name of the anchor in the front end's vocabulary.
    pub fn name(&self) -> (r: &'static str)
        ensures
            *self == DockAnchor::BelowCenter ==> r@ == "below-center"@,
            *self == DockAnchor::BelowLeft ==> r@ == "below-left"@,
            *self == DockAnchor::BelowRight ==> r@ == "below-right"@,
    {
        match self {
            DockAnchor::BelowCenter => "below-center",
            DockAnchor::BelowLeft => "below-left",
            DockAnchor::BelowRight => "below-right",
        }
    }
}

/// A dockable window is either a child of the HUD at an anchor and offset
/// (in points), or free-floating; never both.
#[derive(Clone, Copy, Debug, PartialEq, Eq, Structural)]
pub enum DockState {
    Docked { anchor: DockAnchor, offset_x: i64, offset_y: i64 },
    Undocked,
}

/// Where a docked window sits: anchor and offset, in points.
#[derive(Clone, Copy, Debug, PartialEq, Eq, Structural)]
pub struct DockPosition {
    pub anchor: DockAnchor,
    pub offset_x: i64,
    pub offset_y: i64,
}

/// Position a window takes the first time it is docked: centred below the
/// HUD, 20 points down.
pub open spec fn home_position() -> DockPosition {
    DockPosition { anchor: DockAnchor::BelowCenter, offset_x: 0, offset_y: 20 }
}

/// The docked state at position `p`.
pub open spec fn docked_at(p: DockPosition) -> DockState {
    DockState::Docked { anchor: p.anchor, offset_x: p.offset_x, offset_y: p.offset_y }
}

/// What the host must do for a transition.
#[derive(Clone, Copy, Debug, PartialEq, Eq, Structural)]
pub enum DockEffect {
    /// Make the window a child of the HUD, immovable by the user, re-run the
    /// arranger, and send `<name>:docked` to the window.
    Attach,
    /// Detach the window from the HUD, make it movable, and send
    /// `<name>:undocked` to the window.
    Detach,
    /// Nothing to do.
    Unchanged,
}

/// Docking, given the state and the remembered dock position: a docked
/// window stays as it is; an undocked one is attached at the remembered
/// position.
pub open spec fn dock_step(s: DockState, p: DockPosition) -> (DockState, DockPosition, DockEffect) {
    match s {
        DockState::Docked { .. } => (s, p, DockEffect::Unchanged),
        DockState::Undocked => (docked_at(p), p, DockEffect::Attach),
    }
}

/// Undocking: an undocked window stays as it is; a docked one is detached,
/// and the position it was docked at is remembered.
pub open spec fn undock_step(s: DockState, p: DockPosition) -> (DockState, DockPosition, DockEffect) {
    match s {
        DockState::Docked { anchor, offset_x, offset_y } => (
            DockState::Undocked,
            DockPosition { anchor, offset_x, offset_y },
            DockEffect::Detach,
        ),
        DockState::Undocked => (s, p, DockEffect::Unchanged),
    }
}

/// State kept for a dockable window.
#[derive(Debug)]
pub struct InputWindowState {
    pub dock_state: DockState,
    /// Where the window was last docked; docking again returns it there.
    pub dock_position: DockPosition,
    /// Last free-floating position per monitor, in points.
    pub free_positions: Vec<(String, i64, i64)>,
    pub is_dragging: bool,
    pub snap_zone_active: bool,
}

impl InputWindowState {
    /// A window docked at the home position, not being dragged.
    pub fn new() -> (r: InputWindowState)
        ensures
            r.dock_state == docked_at(home_position()),
            r.dock_position == home_position(),
            r.free_positions@.len() == 0,
            !r.is_dragging,
            !r.snap_zone_active,
    {
        InputWindowState {
            dock_state: DockState::Docked {
                anchor: DockAnchor::BelowCenter,
                offset_x: 0,
                offset_y: 20,
            },
            dock_position: DockPosition { anchor: DockAnchor::BelowCenter, offset_x: 0, offset_y: 20 },
            free_positions: Vec::new(),
            is_dragging: false,
            snap_zone_active: false,
        }
    }

    /// Docks the window to the HUD at the position it was last docked at;
    /// does nothing if it is already docked.
    pub fn dock(&mut self) -> (r: DockEffect)
        ensures
            (final(self).dock_state, final(self).dock_position, r) == dock_step(
                old(self).dock_state,
                old(self).dock_position,
            ),
            old(self).dock_state is Undocked ==> final(self).dock_state == docked_at(
                old(self).dock_position,
            ),
            final(self).free_positions == old(self).free_positions,
            final(self).is_dragging == old(self).is_dragging,
            final(self).snap_zone_active == old(self).snap_zone_active,
    {
        match self.dock_state {
            DockState::Docked { .. } => DockEffect::Unchanged,
            DockState::Undocked => {
                let p = self.dock_position;
                self.dock_state = DockState::Docked {
                    anchor: p.anchor,
                    offset_x: p.offset_x,
                    offset_y: p.offset_y,
                };
                DockEffect::Attach
            },
        }
    }

    /// Undocks the window from the HUD, remembering where it was docked;
    /// does nothing if it is already free.
    pub fn undock(&mut self) -> (r: DockEffect)
        ensures
            (final(self).dock_state, final(self).dock_position, r) == undock_step(
                old(self).dock_state,
                old(self).dock_position,
            ),
            old(self).dock_state is Docked ==> docked_at(final(self).dock_position) == old(
                self,
            ).dock_state,
            final(self).free_positions == old(self).free_positions,
            final(self).is_dragging == old(self).is_dragging,
            final(self).snap_zone_active == old(self).snap_zone_active,
    {
        match self.dock_state {
            DockState::Docked { anchor, offset_x, offset_y } => {
                self.dock_position = DockPosition { anchor, offset_x, offset_y };
                self.dock_state = DockState::Undocked;
                DockEffect::Detach
            },
            DockState::Undocked => DockEffect::Unchanged,
        }
    }
}

impl Default for InputWindowState {
    fn default() -> (r: InputWindowState)
        ensures
            r.dock_state == docked_at(home_position()),
            r.dock_position == home_position(),
            r.free_positions@.len() == 0,
            !r.is_dragging,
            !r.snap_zone_active,
    {
        InputWindowState::new()
    }
}

pub open spec fn dock_event_spec(kind: WindowKind, docked: bool) -> Seq<char> {
    label_spec(kind) + if docked {
        ":docked"@
    } else {
        ":undocked"@
    }
}

/// Name of the notification sent to a window when it is docked or undocked.
pub fn dock_event(kind: WindowKind, docked: bool) -> (r: String)
    ensures
        r@ == dock_event_spec(kind, docked),
{
    if docked {
        join2(kind.label(), ":docked")
    } else {
        join2(kind.label(), ":undocked")
    }
}

/// `dock; undock; dock` ends docked exactly as the first `dock` left the
/// window, with the same anchor and offset, whatever the window's state and
/// remembered position before. The undock detaches and the last dock
/// attaches again; starting from an undocked window the first dock attaches
/// too, so the window is attached to the HUD exactly twice.
pub proof fn lemma_dock_round_trip(s0: DockState, p0: DockPosition)
    ensures
        ({
            let (s1, p1, e1) = dock_step(s0, p0);
            let (s2, p2, e2) = undock_step(s1, p1);
            let (s3, p3, e3) = dock_step(s2, p2);
            &&& s3 is Docked
            &&& s3 == s1
            &&& p3 == p2
            &&& docked_at(p3) == s1
            &&& e2 == DockEffect::Detach
            &&& e3 == DockEffect::Attach
            &&& s0 is Undocked ==> e1 == DockEffect::Attach && s1 == docked_at(p0)
            &&& s0 is Docked ==> e1 == DockEffect::Unchanged && s1 == s0
        }),
{
}

} // verus!
