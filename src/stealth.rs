//! Stealth mode: a flag that decides whether the tracked windows are
//! excluded from screen capture, and the per-window settings that carry it
//! out on the platform.
use vstd::prelude::*;

use crate::window::{WindowKind, WindowRegistry};

verus! {

/// Whether stealth mode is on. The application owns one value and shares it
/// with every command handler.
#[derive(Clone, Copy, Debug)]
pub struct StealthState {
    active: bool,
}

impl View for StealthState {
    type V = bool;

    closed spec fn view(&self) -> bool {
        self.active
    }
}

impl StealthState {
    /// Stealth mode off.
    pub fn new() -> (r: StealthState)
        ensures
            !r@,
    {
        StealthState { active: false }
    }

    pub fn is_active(&self) -> (r: bool)
        ensures
            r == self@,
    {
        self.active
    }

    /// Flips the flag and returns its new value.
    pub fn toggle(&mut self) -> (r: bool)
        ensures
            final(self)@ == !old(self)@,
            r == final(self)@,
    {
        self.active = !self.active;
        self.active
    }

    /// Turns stealth mode on, whatever it was.
    pub fn force_on(&mut self)
        ensures
            final(self)@,
    {
        self.active = true;
    }
}

impl Default for StealthState {
    fn default() -> (r: StealthState)
        ensures
            !r@,
    {
        StealthState::new()
    }
}

/// Failures while applying stealth mode.
#[derive(Debug)]
pub enum StealthError {
    WindowNotFound { window: WindowKind },
    /// The platform window behind a webview could not be reached.
    NSWindowError(String),
    StateError(String),
    PlatformNotSupported { platform: String },
}

/// Text shown to the user for a stealth error.
pub open spec fn stealth_error_text(e: StealthError) -> Seq<char> {
    match e {
        StealthError::WindowNotFound { window } => "Window not found: "@
            + crate::window::label_spec(window),
        StealthError::NSWindowError(m) => "Failed to get NS window: "@ + m@,
        StealthError::StateError(m) => "Stealth state error: "@ + m@,
        StealthError::PlatformNotSupported { platform } => "Platform not supported: "@ + platform@,
    }
}

impl StealthError {
    /// Text shown to the user.
    pub fn message(&self) -> (r: String)
        ensures
            r@ == stealth_error_text(*self),
    {
        match self {
            StealthError::WindowNotFound { window } => crate::text::join2(
                "Window not found: ",
                window.label(),
            ),
            StealthError::NSWindowError(m) => crate::text::join2(
                "Failed to get NS window: ",
                m.as_str(),
            ),
            StealthError::StateError(m) => crate::text::join2("Stealth state error: ", m.as_str()),
            StealthError::PlatformNotSupported { platform } => crate::text::join2(
                "Platform not supported: ",
                platform.as_str(),
            ),
        }
    }
}

/// Screen-capture sharing mode of a macOS window.
#[derive(Clone, Copy, Debug, PartialEq, Eq, Structural)]
pub enum NSWindowSharingType {
    /// Excluded from screen capture.
    NotShared,
    /// Captured like any other window.
    ReadWrite,
}

impl NSWindowSharingType {
    /// Value of the mode in AppKit's `NSWindowSharingType`.
    pub fn raw(&self) -> (r: u64)
        ensures
            *self == NSWindowSharingType::NotShared ==> r == 0,
            *self == NSWindowSharingType::ReadWrite ==> r == 2,
    {
        match self {
            NSWindowSharingType::NotShared => 0,
            NSWindowSharingType::ReadWrite => 2,
        }
    }
}

/// What to set on one window to make it follow the stealth flag.
#[derive(Clone, Copy, Debug, PartialEq, Eq, Structural)]
pub struct CaptureSettings {
    pub sharing: NSWindowSharingType,
    /// Whether mouse events must be re-enabled (the window stops being
    /// click-through).
    pub enable_clicks: bool,
}

/// In stealth the window is excluded from capture and keeps its click
/// behaviour; otherwise it is captured again and takes clicks again.
pub open spec fn settings_spec(stealth: bool) -> CaptureSettings {
    if stealth {
        CaptureSettings { sharing: NSWindowSharingType::NotShared, enable_clicks: false }
    } else {
        CaptureSettings { sharing: NSWindowSharingType::ReadWrite, enable_clicks: true }
    }
}

/// Settings that make a window follow stealth mode `stealth`.
pub fn stealth_settings(stealth: bool) -> (r: CaptureSettings)
    ensures
        r == settings_spec(stealth),
{
    if stealth {
        CaptureSettings { sharing: NSWindowSharingType::NotShared, enable_clicks: false }
    } else {
        CaptureSettings { sharing: NSWindowSharingType::ReadWrite, enable_clicks: true }
    }
}

/// Capture settings for a window created while the flag is `state`: a
/// window made during stealth mode is excluded from capture at once;
/// otherwise it keeps the platform's default.
pub fn creation_capture(state: &StealthState) -> (r: Option<CaptureSettings>)
    ensures
        state@ ==> r == Some(settings_spec(true)),
        !state@ ==> r is None,
{
    if state.is_active() {
        Some(stealth_settings(true))
    } else {
        None
    }
}

/// Windows whose capture attribute follows the flag: the HUD, the panel and
/// the dockable windows.
pub open spec fn is_tracked(k: WindowKind) -> bool {
    k == WindowKind::Hud || k == WindowKind::Panel || k == WindowKind::Input || k
        == WindowKind::Context
}

pub fn is_tracked_kind(k: WindowKind) -> (r: bool)
    ensures
        r == is_tracked(k),
{
    match k {
        WindowKind::Response => false,
        _ => true,
    }
}

/// Capture settings to apply to one window.
#[derive(Clone, Copy, Debug, PartialEq, Eq, Structural)]
pub struct WindowCommand {
    pub window: WindowKind,
    pub settings: CaptureSettings,
}

/// The tracked windows among `s`, in order.
pub open spec fn tracked_windows(s: Seq<WindowKind>) -> Seq<WindowKind> {
    s.filter(|k: WindowKind| is_tracked(k))
}

/// One command per tracked window of `s`, each making it follow `active`.
pub open spec fn commands_spec(active: bool, s: Seq<WindowKind>) -> Seq<WindowCommand> {
    tracked_windows(s).map_values(
        |k: WindowKind| WindowCommand { window: k, settings: settings_spec(active) },
    )
}

/// Commands that make every existing tracked window follow stealth mode
/// `active`. The caller applies them on the UI thread; a window that cannot
/// be reached is skipped without affecting the others.
pub fn stealth_commands(active: bool, registry: &WindowRegistry) -> (r: Vec<WindowCommand>)
    requires
        registry.wf(),
    ensures
        r@ == commands_spec(active, registry@),
{
    let settings = stealth_settings(active);
    let mut out: Vec<WindowCommand> = Vec::new();
    let ghost s = registry@;
    let n = registry.len();
    let mut j: usize = 0;
    while j < n
        invariant
            n == s.len(),
            s == registry@,
            registry.wf(),
            j <= n,
            settings == settings_spec(active),
            out@ == commands_spec(active, s.subrange(0, j as int)),
        decreases n - j,
    {
        let k = registry.kind_at(j);
        proof {
            reveal(Seq::filter);
            assert(s.subrange(0, j + 1).drop_last() =~= s.subrange(0, j as int));
            assert(s.subrange(0, j + 1).last() == k);
        }
        if is_tracked_kind(k) {
            out.push(WindowCommand { window: k, settings });
            proof {
                assert(out@ =~= commands_spec(active, s.subrange(0, j + 1)));
            }
        } else {
            proof {
                assert(out@ =~= commands_spec(active, s.subrange(0, j + 1)));
            }
        }
        j = j + 1;
    }
    proof {
        assert(s.subrange(0, n as int) =~= s);
    }
    out
}

/// What a change of stealth mode asks of the host: the new value, the
/// capture settings for each tracked window, and the event announcing it.
#[derive(Debug)]
pub struct StealthChange {
    pub active: bool,
    pub commands: Vec<WindowCommand>,
    /// Name of the boolean event broadcast to the windows.
    pub legacy_event: &'static str,
    /// Origin recorded in the `stealth:changed` event.
    pub source: &'static str,
}

pub open spec fn legacy_event_spec(active: bool) -> Seq<char> {
    if active {
        "stealth-activated"@
    } else {
        "stealth-deactivated"@
    }
}

/// Name of the event that announces stealth mode `active`.
pub fn legacy_event(active: bool) -> (r: &'static str)
    ensures
        r@ == legacy_event_spec(active),
{
    if active {
        "stealth-activated"
    } else {
        "stealth-deactivated"
    }
}

/// Flips stealth mode and says how every existing tracked window must now be
/// set so that it matches the new value.
pub fn toggle_stealth(state: &mut StealthState, registry: &WindowRegistry) -> (r: StealthChange)
    requires
        registry.wf(),
    ensures
        final(state)@ == !old(state)@,
        r.active == final(state)@,
        r.commands@ == commands_spec(r.active, registry@),
        r.legacy_event@ == legacy_event_spec(r.active),
        r.source@ == "api_toggle"@,
{
    let active = state.toggle();
    StealthChange {
        active,
        commands: stealth_commands(active, registry),
        legacy_event: legacy_event(active),
        source: "api_toggle",
    }
}

/// Turns stealth mode on (it may already be on) and says how every existing
/// tracked window must be set.
pub fn force_stealth_on(state: &mut StealthState, registry: &WindowRegistry) -> (r: StealthChange)
    requires
        registry.wf(),
    ensures
        final(state)@,
        r.active,
        r.commands@ == commands_spec(true, registry@),
        r.legacy_event@ == legacy_event_spec(true),
        r.source@ == "force_startup"@,
{
    state.force_on();
    StealthChange {
        active: true,
        commands: stealth_commands(true, registry),
        legacy_event: legacy_event(true),
        source: "force_startup",
    }
}

/// Commands that put every existing tracked window back into capture and
/// make it take clicks again, without touching the stealth flag.
pub fn make_windows_click_through(registry: &WindowRegistry) -> (r: Vec<WindowCommand>)
    requires
        registry.wf(),
    ensures
        r@ == commands_spec(false, registry@),
{
    stealth_commands(false, registry)
}

/// `cmds` holds a command that makes window `k` follow stealth mode `active`.
pub open spec fn commanded(cmds: Seq<WindowCommand>, k: WindowKind, active: bool) -> bool {
    exists|i: int|
        0 <= i < cmds.len() && (#[trigger] cmds[i]) == WindowCommand {
            window: k,
            settings: settings_spec(active),
        }
}

/// After a toggle, the flag is the opposite of what it was and every
/// registered tracked window gets a command setting its capture exclusion to
/// the new value (excluded exactly when stealth is now on).
pub proof fn lemma_toggle_consistency(before: bool, registry: Seq<WindowKind>, k: WindowKind)
    requires
        registry.contains(k),
        is_tracked(k),
    ensures
        commanded(commands_spec(!before, registry), k, !before),
        (settings_spec(!before).sharing == NSWindowSharingType::NotShared) == !before,
{
    broadcast use vstd::seq_lib::group_filter_ensures;

    let after = !before;
    let t = tracked_windows(registry);
    let j = choose|j: int| 0 <= j < registry.len() && registry[j] == k;
    assert(t.contains(registry[j]));
    let i = choose|i: int| 0 <= i < t.len() && t[i] == k;
    let cmds = commands_spec(after, registry);
    assert(cmds[i] == WindowCommand { window: k, settings: settings_spec(after) });
    assert(cmds.len() == t.len());
    assert(commanded(cmds, k, after));
}

} // verus!
