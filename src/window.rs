//! The HUD's window set: kinds, creation settings, the registry that creates
//! each window once, and the snap-zone check used when dragging.
use vstd::prelude::*;

use crate::geometry::{edges_of, edges_spec, overlap_spec, overlaps, Edges, RectI};
use crate::text::{join2, text_eq};

verus! {

/// The windows of the application, by role.
#[derive(Clone, Copy, Debug, PartialEq, Eq, Structural)]
pub enum WindowKind {
    Hud,
    Panel,
    Response,
    Input,
    Context,
}

/// Label of the window of each kind in the windowing host.
pub open spec fn label_spec(k: WindowKind) -> Seq<char> {
    match k {
        WindowKind::Hud => "hud"@,
        WindowKind::Panel => "panel"@,
        WindowKind::Response => "response"@,
        WindowKind::Input => "input"@,
        WindowKind::Context => "context"@,
    }
}

/// The kind whose label is `s`, if any.
pub open spec fn kind_with_label(s: Seq<char>) -> Option<WindowKind> {
    if s == "hud"@ {
        Some(WindowKind::Hud)
    } else if s == "panel"@ {
        Some(WindowKind::Panel)
    } else if s == "response"@ {
        Some(WindowKind::Response)
    } else if s == "input"@ {
        Some(WindowKind::Input)
    } else if s == "context"@ {
        Some(WindowKind::Context)
    } else {
        None
    }
}

impl WindowKind {
    /// Label of this window in the windowing host.
    pub fn label(&self) -> (r: &'static str)
        ensures
            r@ == label_spec(*self),
    {
        match self {
            WindowKind::Hud => "hud",
            WindowKind::Panel => "panel",
            WindowKind::Response => "response",
            WindowKind::Input => "input",
            WindowKind::Context => "context",
        }
    }

    /// The kind of the window labelled `label`.
    pub fn from_label(label: &str) -> (r: Option<WindowKind>)
        ensures
            r == kind_with_label(label@),
    {
        if text_eq(label, "hud") {
            Some(WindowKind::Hud)
        } else if text_eq(label, "panel") {
            Some(WindowKind::Panel)
        } else if text_eq(label, "response") {
            Some(WindowKind::Response)
        } else if text_eq(label, "input") {
            Some(WindowKind::Input)
        } else if text_eq(label, "context") {
            Some(WindowKind::Context)
        } else {
            None
        }
    }

    /// Whether the window can be docked to and undocked from the HUD.
    pub fn is_dockable(&self) -> (r: bool)
        ensures
            r == (*self == WindowKind::Input || *self == WindowKind::Context),
    {
        match self {
            WindowKind::Input | WindowKind::Context => true,
            _ => false,
        }
    }
}

/// Errors of window lookup and creation.
#[derive(Debug)]
pub enum WindowError {
    /// The HUD, which every other window hangs from, does not exist.
    HudNotFound,
    /// A window that the operation needs does not exist.
    NotFound { window: WindowKind },
    /// Neither dockable window is visible.
    NoVisibleDockable,
    /// The windowing host refused to create a window.
    CreationFailed(String),
    /// The windowing host refused to configure a window.
    ConfigurationFailed(String),
}

/// Text shown to the user for a window error.
pub open spec fn window_error_text(e: WindowError) -> Seq<char> {
    match e {
        WindowError::HudNotFound => "HUD window not found"@,
        WindowError::NoVisibleDockable => "No draggable window found"@,
        WindowError::NotFound { window } => label_spec(window) + " window not found"@,
        WindowError::CreationFailed(m) => "Failed to create window: "@ + m@,
        WindowError::ConfigurationFailed(m) => "Failed to configure window: "@ + m@,
    }
}

impl WindowError {
    /// Text shown to the user.
    pub fn message(&self) -> (r: String)
        ensures
            r@ == window_error_text(*self),
    {
        match self {
            WindowError::HudNotFound => String::from_str("HUD window not found"),
            WindowError::NoVisibleDockable => String::from_str("No draggable window found"),
            WindowError::NotFound { window } => join2(window.label(), " window not found"),
            WindowError::CreationFailed(m) => join2("Failed to create window: ", m.as_str()),
            WindowError::ConfigurationFailed(m) => join2(
                "Failed to configure window: ",
                m.as_str(),
            ),
        }
    }
}

pub const PANEL_WIDTH: i64 = 1072;
pub const PANEL_HEIGHT: i64 = 618;
pub const PANEL_INITIAL_X: i64 = 200;
pub const PANEL_INITIAL_Y: i64 = 490;

pub const RESPONSE_WIDTH: i64 = 600;
pub const RESPONSE_HEIGHT: i64 = 400;
pub const RESPONSE_INITIAL_X: i64 = 400;
pub const RESPONSE_INITIAL_Y: i64 = 490;

pub const INPUT_WIDTH: i64 = 450;
pub const INPUT_HEIGHT: i64 = 120;
pub const INPUT_INITIAL_X: i64 = 400;
pub const INPUT_INITIAL_Y: i64 = 490;

pub const CONTEXT_WIDTH: i64 = 400;
pub const CONTEXT_HEIGHT: i64 = 300;
pub const CONTEXT_INITIAL_X: i64 = 400;
pub const CONTEXT_INITIAL_Y: i64 = 490;

/// Address of the front end that every auxiliary window loads, before its route.
pub const FRONTEND_BASE: &'static str = "http://localhost:1420/";

/// How an auxiliary window is created: logical size and position, front-end
/// route, whether the user may resize it, and the window style.
#[derive(Clone, Copy, Debug)]
pub struct DraggableWindowConfig {
    pub width: i64,
    pub height: i64,
    pub initial_x: i64,
    pub initial_y: i64,
    pub route: &'static str,
    pub resizable: bool,
    /// Title bar and borders.
    pub decorations: bool,
    pub transparent: bool,
    pub always_on_top: bool,
    /// Created as a child window of the HUD.
    pub child_of_hud: bool,
    /// Shown as soon as it is created.
    pub visible: bool,
    pub minimizable: bool,
    pub closable: bool,
    pub skip_taskbar: bool,
}

/// Style shared by every auxiliary window: no decorations, transparent,
/// always on top, a child of the HUD, hidden until shown, neither
/// minimizable nor closable, and kept out of the taskbar.
pub open spec fn auxiliary_style(c: DraggableWindowConfig) -> bool {
    &&& !c.decorations
    &&& c.transparent
    &&& c.always_on_top
    &&& c.child_of_hud
    &&& !c.visible
    &&& !c.minimizable
    &&& !c.closable
    &&& c.skip_taskbar
}

impl DraggableWindowConfig {
    pub fn for_input() -> (r: DraggableWindowConfig)
        ensures
            r.width == INPUT_WIDTH && r.height == INPUT_HEIGHT,
            r.initial_x == INPUT_INITIAL_X && r.initial_y == INPUT_INITIAL_Y,
            r.route@ == "#/input"@,
            r.resizable,
            auxiliary_style(r),
    {
        DraggableWindowConfig {
            width: INPUT_WIDTH,
            height: INPUT_HEIGHT,
            initial_x: INPUT_INITIAL_X,
            initial_y: INPUT_INITIAL_Y,
            route: "#/input",
            resizable: true,
            decorations: false,
            transparent: true,
            always_on_top: true,
            child_of_hud: true,
            visible: false,
            minimizable: false,
            closable: false,
            skip_taskbar: true,
        }
    }

    pub fn for_context() -> (r: DraggableWindowConfig)
        ensures
            r.width == CONTEXT_WIDTH && r.height == CONTEXT_HEIGHT,
            r.initial_x == CONTEXT_INITIAL_X && r.initial_y == CONTEXT_INITIAL_Y,
            r.route@ == "#/context"@,
            r.resizable,
            auxiliary_style(r),
    {
        DraggableWindowConfig {
            width: CONTEXT_WIDTH,
            height: CONTEXT_HEIGHT,
            initial_x: CONTEXT_INITIAL_X,
            initial_y: CONTEXT_INITIAL_Y,
            route: "#/context",
            resizable: true,
            decorations: false,
            transparent: true,
            always_on_top: true,
            child_of_hud: true,
            visible: false,
            minimizable: false,
            closable: false,
            skip_taskbar: true,
        }
    }

    pub fn for_panel() -> (r: DraggableWindowConfig)
        ensures
            r.width == PANEL_WIDTH && r.height == PANEL_HEIGHT,
            r.initial_x == PANEL_INITIAL_X && r.initial_y == PANEL_INITIAL_Y,
            r.route@ == "#/panel"@,
            !r.resizable,
            auxiliary_style(r),
    {
        DraggableWindowConfig {
            width: PANEL_WIDTH,
            height: PANEL_HEIGHT,
            initial_x: PANEL_INITIAL_X,
            initial_y: PANEL_INITIAL_Y,
            route: "#/panel",
            resizable: false,
            decorations: false,
            transparent: true,
            always_on_top: true,
            child_of_hud: true,
            visible: false,
            minimizable: false,
            closable: false,
            skip_taskbar: true,
        }
    }

    pub fn for_response() -> (r: DraggableWindowConfig)
        ensures
            r.width == RESPONSE_WIDTH && r.height == RESPONSE_HEIGHT,
            r.initial_x == RESPONSE_INITIAL_X && r.initial_y == RESPONSE_INITIAL_Y,
            r.route@ == "#/response"@,
            !r.resizable,
            auxiliary_style(r),
    {
        DraggableWindowConfig {
            width: RESPONSE_WIDTH,
            height: RESPONSE_HEIGHT,
            initial_x: RESPONSE_INITIAL_X,
            initial_y: RESPONSE_INITIAL_Y,
            route: "#/response",
            resizable: false,
            decorations: false,
            transparent: true,
            always_on_top: true,
            child_of_hud: true,
            visible: false,
            minimizable: false,
            closable: false,
            skip_taskbar: true,
        }
    }

    /// Creation settings of an auxiliary window; the HUD is made by the host.
    pub fn for_kind(kind: WindowKind) -> (r: Option<DraggableWindowConfig>)
        ensures
            r is None <==> kind == WindowKind::Hud,
            r matches Some(c) ==> config_matches(c, kind),
    {
        match kind {
            WindowKind::Hud => None,
            WindowKind::Panel => Some(DraggableWindowConfig::for_panel()),
            WindowKind::Response => Some(DraggableWindowConfig::for_response()),
            WindowKind::Input => Some(DraggableWindowConfig::for_input()),
            WindowKind::Context => Some(DraggableWindowConfig::for_context()),
        }
    }

    /// Page the window loads.
    pub fn url(&self) -> (r: String)
        ensures
            r@ == FRONTEND_BASE@ + self.route@,
    {
        join2(FRONTEND_BASE, self.route)
    }
}

/// `c` holds the creation settings of the window of kind `k`.
pub open spec fn config_matches(c: DraggableWindowConfig, k: WindowKind) -> bool {
    auxiliary_style(c) && match k {
        WindowKind::Panel => c.width == PANEL_WIDTH && c.height == PANEL_HEIGHT && c.initial_x
            == PANEL_INITIAL_X && c.initial_y == PANEL_INITIAL_Y && c.route@ == "#/panel"@
            && !c.resizable,
        WindowKind::Response => c.width == RESPONSE_WIDTH && c.height == RESPONSE_HEIGHT
            && c.initial_x == RESPONSE_INITIAL_X && c.initial_y == RESPONSE_INITIAL_Y && c.route@
            == "#/response"@ && !c.resizable,
        WindowKind::Input => c.width == INPUT_WIDTH && c.height == INPUT_HEIGHT && c.initial_x
            == INPUT_INITIAL_X && c.initial_y == INPUT_INITIAL_Y && c.route@ == "#/input"@
            && c.resizable,
        WindowKind::Context => c.width == CONTEXT_WIDTH && c.height == CONTEXT_HEIGHT
            && c.initial_x == CONTEXT_INITIAL_X && c.initial_y == CONTEXT_INITIAL_Y && c.route@
            == "#/context"@ && c.resizable,
        WindowKind::Hud => false,
    }
}

/// Answer of the snap-zone check for one dockable window.
#[derive(Clone, Copy, Debug)]
pub struct SnapReport {
    /// The window touches or overlaps the HUD and should re-dock when dropped.
    pub should_snap: bool,
    pub window: WindowKind,
    pub window_rect: Edges,
    pub hud_rect: Edges,
}

pub open spec fn snap_spec(kind: WindowKind, window: RectI, hud: RectI) -> SnapReport {
    SnapReport {
        should_snap: overlap_spec(window, hud),
        window: kind,
        window_rect: edges_spec(window),
        hud_rect: edges_spec(hud),
    }
}

/// Overlap of `window` (of kind `kind`) with the HUD, and both rectangles.
pub fn snap_report(kind: WindowKind, window: &RectI, hud: &RectI) -> (r: SnapReport)
    ensures
        r == snap_spec(kind, *window, *hud),
{
    SnapReport {
        should_snap: overlaps(window, hud),
        window: kind,
        window_rect: edges_of(window),
        hud_rect: edges_of(hud),
    }
}

/// Snap check for a given window: `window` and `hud` are the rectangles of
/// those windows, `None` where the window does not exist.
pub fn check_snap_distance_for_window(
    kind: WindowKind,
    window: Option<RectI>,
    hud: Option<RectI>,
) -> (r: Result<SnapReport, WindowError>)
    ensures
        window is None ==> (r matches Err(WindowError::NotFound { window: w }) && w == kind),
        window is Some && hud is None ==> r matches Err(WindowError::HudNotFound),
        window is Some && hud is Some ==> r == Ok::<SnapReport, WindowError>(
            snap_spec(kind, window->Some_0, hud->Some_0),
        ),
{
    match window {
        None => Err(WindowError::NotFound { window: kind }),
        Some(w) => match hud {
            None => Err(WindowError::HudNotFound),
            Some(h) => Ok(snap_report(kind, &w, &h)),
        },
    }
}

/// Snap check during a drag: the input window is tried first, then the
/// context window. `input` and `context` hold a window's rectangle only when
/// it exists and is visible.
pub fn check_snap_distance(
    hud: Option<RectI>,
    input: Option<RectI>,
    context: Option<RectI>,
) -> (r: Result<SnapReport, WindowError>)
    ensures
        hud is None ==> r matches Err(WindowError::HudNotFound),
        hud is Some && input is Some ==> r == Ok::<SnapReport, WindowError>(
            snap_spec(WindowKind::Input, input->Some_0, hud->Some_0),
        ),
        hud is Some && input is None && context is Some ==> r == Ok::<SnapReport, WindowError>(
            snap_spec(WindowKind::Context, context->Some_0, hud->Some_0),
        ),
        hud is Some && input is None && context is None ==> r matches Err(
            WindowError::NoVisibleDockable,
        ),
{
    match hud {
        None => Err(WindowError::HudNotFound),
        Some(h) => match input {
            Some(i) => Ok(snap_report(WindowKind::Input, &i, &h)),
            None => match context {
                Some(c) => Ok(snap_report(WindowKind::Context, &c, &h)),
                None => Err(WindowError::NoVisibleDockable),
            },
        },
    }
}

/// What an `ensure` call did, in mathematical form.
pub enum EnsureModel {
    /// The window already existed; its handle.
    Existing(int),
    /// The window was created; its new handle.
    Created(int),
    /// Nothing was created because the HUD does not exist.
    HudMissing,
}

/// No window kind is recorded twice.
pub open spec fn distinct_kinds(s: Seq<WindowKind>) -> bool {
    forall|i: int, j: int| 0 <= i < j < s.len() ==> s[i] != s[j]
}

/// Position of `k` in `s`.
pub open spec fn handle_spec(s: Seq<WindowKind>, k: WindowKind) -> int {
    choose|i: int| 0 <= i < s.len() && s[i] == k
}

/// The registry after `ensure(k)` on registry `s`, and what the call did.
pub open spec fn ensure_model(s: Seq<WindowKind>, k: WindowKind) -> (Seq<WindowKind>, EnsureModel) {
    if s.contains(k) {
        (s, EnsureModel::Existing(handle_spec(s, k)))
    } else if !s.contains(WindowKind::Hud) {
        (s, EnsureModel::HudMissing)
    } else {
        (s.push(k), EnsureModel::Created(s.len() as int))
    }
}

/// Outcome of `ensure_window`: the window's handle and whether it was just made.
#[derive(Clone, Copy, Debug, PartialEq, Eq, Structural)]
pub struct Ensured {
    pub handle: usize,
    pub created: bool,
}

pub open spec fn outcome_model(r: Result<Ensured, WindowError>) -> EnsureModel {
    match r {
        Ok(e) => if e.created {
            EnsureModel::Created(e.handle as int)
        } else {
            EnsureModel::Existing(e.handle as int)
        },
        Err(_) => EnsureModel::HudMissing,
    }
}

/// Windows created so far, in order of creation. A window's handle is its
/// position here; windows are never removed, so handles stay valid.
pub struct WindowRegistry {
    created: Vec<WindowKind>,
}

impl View for WindowRegistry {
    type V = Seq<WindowKind>;

    closed spec fn view(&self) -> Seq<WindowKind> {
        self.created@
    }
}

impl WindowRegistry {
    pub open spec fn wf(&self) -> bool {
        distinct_kinds(self@)
    }

    /// A registry in which no window exists yet.
    pub fn new() -> (r: WindowRegistry)
        ensures
            r@ == Seq::<WindowKind>::empty(),
            r.wf(),
    {
        WindowRegistry { created: Vec::new() }
    }

    /// A registry holding the HUD that the host made at start-up.
    pub fn with_hud() -> (r: WindowRegistry)
        ensures
            r@ == seq![WindowKind::Hud],
            r.wf(),
    {
        let mut created = Vec::new();
        created.push(WindowKind::Hud);
        WindowRegistry { created }
    }

    /// Handle of the window of kind `kind`, if it exists.
    pub fn handle_of(&self, kind: WindowKind) -> (r: Option<usize>)
        requires
            self.wf(),
        ensures
            r is None <==> !self@.contains(kind),
            r is Some ==> r->Some_0 == handle_spec(self@, kind),
            r is Some ==> self@[r->Some_0 as int] == kind,
    {
        let mut i: usize = 0;
        while i < self.created.len()
            invariant
                0 <= i <= self@.len(),
                self@ == self.created@,
                distinct_kinds(self@),
                forall|j: int| 0 <= j < i ==> self@[j] != kind,
            decreases self@.len() - i,
        {
            if self.created[i] == kind {
                proof {
                    let h = handle_spec(self@, kind);
                    assert(self@.contains(kind)) by {
                        assert(self@[i as int] == kind);
                    }
                    assert(0 <= h < self@.len() && self@[h] == kind);
                    assert(h == i) by {
                        if h < i {
                        } else if h > i {
                            assert(self@[i as int] != self@[h]);
                        }
                    }
                }
                return Some(i);
            }
            i = i + 1;
        }
        None
    }

    /// Number of windows created so far.
    pub fn len(&self) -> (r: usize)
        ensures
            r == self@.len(),
    {
        self.created.len()
    }

    /// Kind of the window with handle `i`.
    pub fn kind_at(&self, i: usize) -> (r: WindowKind)
        requires
            i < self@.len(),
        ensures
            r == self@[i as int],
    {
        self.created[i]
    }

    /// Whether the window of kind `kind` exists.
    pub fn contains(&self, kind: WindowKind) -> (r: bool)
        requires
            self.wf(),
        ensures
            r == self@.contains(kind),
    {
        self.handle_of(kind).is_some()
    }

    /// Returns the handle of the window of kind `kind`, recording it as
    /// created first if it does not exist yet. Creation needs the HUD, which
    /// is the parent of every other window: without it nothing changes and
    /// the call fails with `HudNotFound`. When `created` comes back true the
    /// caller builds the window with `DraggableWindowConfig::for_kind`.
    pub fn ensure_window(&mut self, kind: WindowKind) -> (r: Result<Ensured, WindowError>)
        requires
            old(self).wf(),
        ensures
            final(self).wf(),
            (final(self)@, outcome_model(r)) == ensure_model(old(self)@, kind),
            r is Err ==> r matches Err(WindowError::HudNotFound),
    {
        match self.handle_of(kind) {
            Some(h) => Ok(Ensured { handle: h, created: false }),
            None => {
                if !self.contains(WindowKind::Hud) {
                    return Err(WindowError::HudNotFound);
                }
                let h = self.created.len();
                self.created.push(kind);
                proof {
                    assert forall|i: int, j: int|
                        0 <= i < j < final(self)@.len() implies final(self)@[i] != final(self)@[j] by {
                        if j == h {
                            assert(old(self)@[i] != kind) by {
                                if old(self)@[i] == kind {
                                    assert(old(self)@.contains(kind));
                                }
                            }
                        }
                    }
                }
                Ok(Ensured { handle: h, created: true })
            },
        }
    }
}

/// Ensuring a window twice creates it at most once: the second call finds
/// the window made (or found) by the first, returns the same handle, and
/// leaves the registry as the first call left it.
pub proof fn lemma_ensure_idempotent(s: Seq<WindowKind>, k: WindowKind)
    requires
        distinct_kinds(s),
        !(ensure_model(s, k).1 is HudMissing),
    ensures
        ({
            let (s1, o1) = ensure_model(s, k);
            let (s2, o2) = ensure_model(s1, k);
            let h1 = match o1 {
                EnsureModel::Existing(h) => h,
                EnsureModel::Created(h) => h,
                EnsureModel::HudMissing => -1,
            };
            &&& s2 == s1
            &&& o2 == EnsureModel::Existing(h1)
        }),
{
    let (s1, o1) = ensure_model(s, k);
    if s.contains(k) {
        let h = handle_spec(s, k);
        assert(0 <= h < s.len() && s[h] == k);
    } else {
        let n = s.len() as int;
        assert(s1[n] == k);
        assert(s1.contains(k));
        let h = handle_spec(s1, k);
        assert(0 <= h < s1.len() && s1[h] == k);
        if h < n {
            assert(s[h] == k);
            assert(s.contains(k));
        }
    }
}

} // verus!
