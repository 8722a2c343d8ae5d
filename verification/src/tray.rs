//! What the system tray shows: the helper's lifecycle status as a menu line, a
//! tooltip and a status-window snapshot, and the per-status variants of the
//! tray icon. The tray and its event loop are run by the host.

use vstd::prelude::*;
use crate::text::{decimal, decimal_string, owned};
use crate::window::StatusView;

verus! {

/// What the tray reports about the helper's lifecycle.
#[derive(Debug, Clone)]
pub enum Status {
    Starting,
    Running(u16),
    Failed(String),
}

/// The status line text.
pub open spec fn spec_label(s: Status) -> Seq<char> {
    match s {
        Status::Starting => "Starting…"@,
        Status::Running(port) => "Running on :"@ + decimal(port as nat),
        Status::Failed(msg) => "Failed: "@ + msg@,
    }
}

impl Status {
    /// Text for the disabled status line in the tray menu.
    pub fn label(&self) -> (r: String)
        ensures
            r@ == spec_label(*self),
    {
        match self {
            Status::Starting => owned("Starting…"),
            Status::Running(port) => {
                let mut s = owned("Running on :");
                s.append(decimal_string(*port as u64).as_str());
                s
            },
            Status::Failed(msg) => {
                let mut s = owned("Failed: ");
                s.append(msg.as_str());
                s
            },
        }
    }

    /// Hover tooltip on the tray icon itself.
    pub fn tooltip(&self) -> (r: String)
        ensures
            r@ == "thingblock-link — "@ + spec_label(*self),
    {
        let mut s = owned("thingblock-link — ");
        s.append(self.label().as_str());
        s
    }

    /// Snapshot for the status window's status row: `starting` with no port,
    /// `running` with its port, or `failed` with its message.
    pub fn view(&self) -> (r: StatusView)
        ensures
            match *self {
                Status::Starting => r.state@ == "starting"@ && r.port is None && r.message is None,
                Status::Running(port) => r.state@ == "running"@ && r.port == Some(port) && r.message is None,
                Status::Failed(msg) => r.state@ == "failed"@ && r.port is None && (r.message matches Some(m)
                    && m@ == msg@),
            },
    {
        match self {
            Status::Starting => StatusView { state: "starting", port: None, message: None },
            Status::Running(port) => StatusView { state: "running", port: Some(*port), message: None },
            Status::Failed(msg) => StatusView { state: "failed", port: None, message: Some(msg.clone()) },
        }
    }
}

/// The alpha of a dimmed (`Starting`) icon pixel: 60% of the original,
/// truncated. Equal to truncating `alpha as f32 * 0.6`.
pub fn dim_alpha(alpha: u8) -> (r: u8)
    ensures
        r == (alpha as int * 3) / 5,
{
    ((alpha as u32 * 3) / 5) as u8
}

/// The error dot's center and radius, in pixels from the top-left (pin-1)
/// corner.
pub const DOT_CENTER: i64 = 6;
pub const DOT_RADIUS: i64 = 5;

/// The pixel lies within the error dot.
pub open spec fn in_dot(x: int, y: int) -> bool {
    (x - DOT_CENTER) * (x - DOT_CENTER) + (y - DOT_CENTER) * (y - DOT_CENTER) <= DOT_RADIUS * DOT_RADIUS
}

/// The dot's pixels on row `y`, columns `0..w`, left to right.
pub open spec fn dot_row(y: int, w: int) -> Seq<(u32, u32)>
    decreases w,
{
    if w <= 0 {
        Seq::empty()
    } else {
        dot_row(y, w - 1) + if in_dot(w - 1, y) {
            seq![((w - 1) as u32, y as u32)]
        } else {
            Seq::empty()
        }
    }
}

/// The dot's pixels on rows `0..h` of a `w`-wide image, row by row.
pub open spec fn dot_rows(w: int, h: int) -> Seq<(u32, u32)>
    decreases h,
{
    if h <= 0 {
        Seq::empty()
    } else {
        dot_rows(w, h - 1) + dot_row(h - 1, w)
    }
}

/// A dimension as the loop over it sees it: a dimension past `i32::MAX` wraps
/// negative and spans no pixels.
pub open spec fn span(d: u32) -> int {
    if d <= 0x7fff_ffff {
        d as int
    } else {
        0
    }
}

/// The pixels of a `width × height` icon that the `Failed` state paints in the
/// error red, row by row: those within the dot over the pin-1 corner.
pub fn error_dot_pixels(width: u32, height: u32) -> (r: Vec<(u32, u32)>)
    ensures
        r@ == dot_rows(span(width), span(height)),
{
    let w: u32 = if width <= 0x7fff_ffff { width } else { 0 };
    let h: u32 = if height <= 0x7fff_ffff { height } else { 0 };
    let mut out: Vec<(u32, u32)> = Vec::new();
    for y in 0..h
        invariant
            w as int == span(width),
            h as int == span(height),
            w <= 0x7fff_ffff,
            out@ == dot_rows(w as int, y as int),
    {
        for x in 0..w
            invariant
                w as int == span(width),
                w <= 0x7fff_ffff,
                y < h,
                h <= 0x7fff_ffff,
                out@ == dot_rows(w as int, y as int) + dot_row(y as int, x as int),
        {
            let dx: i64 = x as i64 - DOT_CENTER;
            let dy: i64 = y as i64 - DOT_CENTER;
            proof {
                assert(dx * dx <= 0x7fff_ffff * 0x7fff_ffff) by (nonlinear_arith)
                    requires -6 <= dx <= 0x7fff_ffff;
                assert(dy * dy <= 0x7fff_ffff * 0x7fff_ffff) by (nonlinear_arith)
                    requires -6 <= dy <= 0x7fff_ffff;
                assert(dx * dx >= 0) by (nonlinear_arith);
                assert(dy * dy >= 0) by (nonlinear_arith);
            }
            if dx * dx + dy * dy <= DOT_RADIUS * DOT_RADIUS {
                out.push((x, y));
            }
            proof {
                assert(out@ =~= dot_rows(w as int, y as int) + dot_row(y as int, x + 1));
            }
        }
        proof {
            assert(out@ =~= dot_rows(w as int, y + 1));
        }
    }
    out
}

/// What the tray's event loop keeps about itself.
#[derive(Debug, Clone, Copy, PartialEq, Eq, Structural)]
pub struct TrayState {
    /// The tray icon and its menu exist (built when the loop starts).
    pub tray_built: bool,
    /// The status window exists (built on first show, then kept hidden).
    pub window_built: bool,
    /// The services' runtime is still running.
    pub runtime_live: bool,
}

/// An event the tray's loop reacts to, as the host classifies it.
#[derive(Debug, Clone, Copy, PartialEq, Eq, Structural)]
pub enum TrayEvent {
    /// The loop started.
    Init,
    /// The helper's status changed.
    StatusChanged,
    /// New telemetry arrived.
    TelemetryChanged,
    /// The status window's Quit button.
    QuitButton,
    /// A tray menu entry was clicked; whether it is the built tray's Quit entry
    /// and whether it is its Show entry.
    MenuClick { quit: bool, show: bool },
    /// A window asked to close; whether it is the status window.
    CloseRequested { status_window: bool },
    /// Anything else.
    Other,
}

/// What the host does for one event.
#[derive(Debug, Clone, Copy, PartialEq, Eq, Structural)]
pub enum TrayAction {
    /// Build the tray icon and menu.
    BuildTray,
    /// Repaint the new status into the tray and/or the window, where they exist.
    RepaintStatus { tray: bool, window: bool },
    /// Repaint the new telemetry into the window, if it exists.
    RepaintTelemetry { window: bool },
    /// Leave the loop, stopping the services' runtime first when it still runs.
    Shutdown { stop_runtime: bool },
    /// Show the status window, building it first when it does not exist yet.
    ShowWindow { build_first: bool },
    /// Hide the status window (closing it never quits).
    HideWindow,
    /// Nothing to do.
    Nothing,
}

/// The state before the loop starts.
pub open spec fn spec_initial_tray() -> TrayState {
    TrayState { tray_built: false, window_built: false, runtime_live: true }
}

/// The state before the tray's loop starts: nothing built, services running.
pub fn initial_tray() -> (r: TrayState)
    ensures
        r == spec_initial_tray(),
{
    TrayState { tray_built: false, window_built: false, runtime_live: true }
}

/// The action for one event.
pub open spec fn spec_tray_action(s: TrayState, e: TrayEvent) -> TrayAction {
    match e {
        TrayEvent::Init => TrayAction::BuildTray,
        TrayEvent::StatusChanged => TrayAction::RepaintStatus { tray: s.tray_built, window: s.window_built },
        TrayEvent::TelemetryChanged => TrayAction::RepaintTelemetry { window: s.window_built },
        TrayEvent::QuitButton => TrayAction::Shutdown { stop_runtime: s.runtime_live },
        TrayEvent::MenuClick { quit, show } => if s.tray_built && quit {
            TrayAction::Shutdown { stop_runtime: s.runtime_live }
        } else if s.tray_built && show {
            TrayAction::ShowWindow { build_first: !s.window_built }
        } else {
            TrayAction::Nothing
        },
        TrayEvent::CloseRequested { status_window } => if status_window && s.window_built {
            TrayAction::HideWindow
        } else {
            TrayAction::Nothing
        },
        TrayEvent::Other => TrayAction::Nothing,
    }
}

/// The state after the host performed an action.
pub open spec fn spec_tray_next(s: TrayState, a: TrayAction) -> TrayState {
    match a {
        TrayAction::BuildTray => TrayState { tray_built: true, ..s },
        TrayAction::Shutdown { .. } => TrayState { runtime_live: false, ..s },
        TrayAction::ShowWindow { .. } => TrayState { window_built: true, ..s },
        _ => s,
    }
}

/// Decide what the tray's loop does for one event: build the tray on start,
/// repaint status and telemetry where they are shown, quit on the Quit entry or
/// the window's Quit button, show (building once) the status window on the
/// Show entry, and only hide that window when it is closed.
pub fn tray_step(state: &mut TrayState, event: TrayEvent) -> (r: TrayAction)
    ensures
        r == spec_tray_action(*old(state), event),
        *final(state) == spec_tray_next(*old(state), r),
{
    let s = *state;
    let action = match event {
        TrayEvent::Init => TrayAction::BuildTray,
        TrayEvent::StatusChanged => TrayAction::RepaintStatus { tray: s.tray_built, window: s.window_built },
        TrayEvent::TelemetryChanged => TrayAction::RepaintTelemetry { window: s.window_built },
        TrayEvent::QuitButton => TrayAction::Shutdown { stop_runtime: s.runtime_live },
        TrayEvent::MenuClick { quit, show } => {
            if s.tray_built && quit {
                TrayAction::Shutdown { stop_runtime: s.runtime_live }
            } else if s.tray_built && show {
                TrayAction::ShowWindow { build_first: !s.window_built }
            } else {
                TrayAction::Nothing
            }
        },
        TrayEvent::CloseRequested { status_window } => {
            if status_window && s.window_built {
                TrayAction::HideWindow
            } else {
                TrayAction::Nothing
            }
        },
        TrayEvent::Other => TrayAction::Nothing,
    };
    match action {
        TrayAction::BuildTray => state.tray_built = true,
        TrayAction::Shutdown { .. } => state.runtime_live = false,
        TrayAction::ShowWindow { .. } => state.window_built = true,
        _ => {},
    }
    action
}

/// Closing the window never quits: Quit (the menu entry or the window's button)
/// is the only way out.
pub proof fn lemma_only_quit_shuts_down(s: TrayState, e: TrayEvent)
    ensures
        spec_tray_action(s, e) is Shutdown ==> (e is QuitButton || e matches TrayEvent::MenuClick { quit: true, .. }),
{
}

/// The runtime is stopped at most once and the status window is built at most
/// once: once stopped the runtime stays stopped and no later step stops it
/// again; once built the window stays built and no later step builds it again.
pub proof fn lemma_tray_once(s: TrayState, e: TrayEvent)
    ensures
        ({
            let a = spec_tray_action(s, e);
            let n = spec_tray_next(s, a);
            &&& n.runtime_live ==> s.runtime_live
            &&& s.window_built ==> n.window_built
            &&& s.tray_built ==> n.tray_built
            &&& (a matches TrayAction::Shutdown { stop_runtime: true }) ==> s.runtime_live
            &&& (a matches TrayAction::ShowWindow { build_first: true }) ==> !s.window_built
        }),
{
}

/// The state after a run of events, one step at a time.
pub open spec fn tray_run(s: TrayState, events: Seq<TrayEvent>) -> TrayState
    decreases events.len(),
{
    if events.len() == 0 {
        s
    } else {
        tray_run(spec_tray_next(s, spec_tray_action(s, events[0])), events.drop_first())
    }
}

/// A status change is painted wherever status is shown: into the tray exactly
/// when the tray exists, and into the status window exactly when the window
/// exists; telemetry likewise reaches the window exactly when it exists.
pub proof fn lemma_status_painted_where_shown(s: TrayState)
    ensures
        spec_tray_action(s, TrayEvent::StatusChanged) matches TrayAction::RepaintStatus { tray, window } && tray
            == s.tray_built && window == s.window_built,
        spec_tray_action(s, TrayEvent::TelemetryChanged) matches TrayAction::RepaintTelemetry { window } && window
            == s.window_built,
{
}

/// Once the Show entry has opened the status window, it shows every later
/// status: whatever events follow, a status change repaints the window.
pub proof fn lemma_shown_window_gets_every_status(s: TrayState, later: Seq<TrayEvent>)
    requires
        s.tray_built,
    ensures
        ({
            let shown = spec_tray_next(s, spec_tray_action(s, TrayEvent::MenuClick { quit: false, show: true }));
            let now = tray_run(shown, later);
            &&& shown.window_built
            &&& now.window_built
            &&& spec_tray_action(now, TrayEvent::StatusChanged) matches TrayAction::RepaintStatus { window: true, .. }
        }),
{
    let shown = spec_tray_next(s, spec_tray_action(s, TrayEvent::MenuClick { quit: false, show: true }));
    lemma_window_stays_built(shown, later);
}

proof fn lemma_window_stays_built(s: TrayState, events: Seq<TrayEvent>)
    requires
        s.window_built,
    ensures
        tray_run(s, events).window_built,
    decreases events.len(),
{
    if events.len() > 0 {
        lemma_window_stays_built(spec_tray_next(s, spec_tray_action(s, events[0])), events.drop_first());
    }
}

} // verus!
