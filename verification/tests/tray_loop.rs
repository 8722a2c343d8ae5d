use thingblock_link::tray::{initial_tray, tray_step, TrayAction, TrayEvent};

#[test]
fn tray_is_built_on_init_and_status_repaints_where_shown() {
    let mut s = initial_tray();
    assert_eq!(tray_step(&mut s, TrayEvent::StatusChanged), TrayAction::RepaintStatus { tray: false, window: false });
    assert_eq!(tray_step(&mut s, TrayEvent::Init), TrayAction::BuildTray);
    assert_eq!(tray_step(&mut s, TrayEvent::StatusChanged), TrayAction::RepaintStatus { tray: true, window: false });
    assert_eq!(tray_step(&mut s, TrayEvent::TelemetryChanged), TrayAction::RepaintTelemetry { window: false });
}

#[test]
fn show_builds_the_window_once_and_close_only_hides() {
    let mut s = initial_tray();
    tray_step(&mut s, TrayEvent::Init);
    assert_eq!(
        tray_step(&mut s, TrayEvent::MenuClick { quit: false, show: true }),
        TrayAction::ShowWindow { build_first: true }
    );
    assert_eq!(
        tray_step(&mut s, TrayEvent::MenuClick { quit: false, show: true }),
        TrayAction::ShowWindow { build_first: false }
    );
    assert_eq!(tray_step(&mut s, TrayEvent::CloseRequested { status_window: true }), TrayAction::HideWindow);
    assert_eq!(tray_step(&mut s, TrayEvent::CloseRequested { status_window: false }), TrayAction::Nothing);
    assert_eq!(tray_step(&mut s, TrayEvent::TelemetryChanged), TrayAction::RepaintTelemetry { window: true });
}

#[test]
fn quit_stops_the_runtime_once() {
    let mut s = initial_tray();
    // Before the tray exists no menu entry can match.
    assert_eq!(tray_step(&mut s, TrayEvent::MenuClick { quit: true, show: false }), TrayAction::Nothing);
    tray_step(&mut s, TrayEvent::Init);
    assert_eq!(
        tray_step(&mut s, TrayEvent::MenuClick { quit: true, show: false }),
        TrayAction::Shutdown { stop_runtime: true }
    );
    assert_eq!(tray_step(&mut s, TrayEvent::QuitButton), TrayAction::Shutdown { stop_runtime: false });
}
