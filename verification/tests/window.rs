use thingblock_link::tray::{dim_alpha, error_dot_pixels, Status};
use thingblock_link::window::{render_html, script_call, telemetry_from, StatusView, Telemetry};

#[test]
fn running_status_serializes_state_and_port() {
    let view: StatusView = Status::Running(3030).view();

    assert_eq!(view.state, "running");
    assert_eq!(view.port, Some(3030));
    assert!(view.message.is_none());
}

#[test]
fn failed_status_carries_message() {
    let view = Status::Failed("daemon not reachable".into()).view();

    assert_eq!(view.state, "failed");
    assert_eq!(view.message.as_deref(), Some("daemon not reachable"));
    assert!(view.port.is_none());
}

#[test]
fn telemetry_serializes_boards_and_health() {
    let t = Telemetry { boards: 2, healthy: true };
    assert_eq!(t.boards, 2);
    assert!(t.healthy);
    assert_eq!(Telemetry::default(), Telemetry { boards: 0, healthy: false });
}

#[test]
fn starting_status_has_no_port() {
    let view = Status::Starting.view();
    assert_eq!(view.state, "starting");
    assert!(view.port.is_none() && view.message.is_none());
}

#[test]
fn status_labels_and_tooltips() {
    assert_eq!(Status::Starting.label(), "Starting…");
    assert_eq!(Status::Running(3030).label(), "Running on :3030");
    assert_eq!(Status::Failed("boom".into()).label(), "Failed: boom");
    assert_eq!(Status::Running(0).tooltip(), "thingblock-link — Running on :0");
}

#[test]
fn telemetry_from_a_probe() {
    assert_eq!(telemetry_from::<()>(Ok(3)), Telemetry { boards: 3, healthy: true });
    assert_eq!(telemetry_from(Err("unreachable")), Telemetry { boards: 0, healthy: false });
}

#[test]
fn script_calls_the_page_global() {
    assert_eq!(script_call("__status", "{\"state\":\"running\"}"), "window.__status({\"state\":\"running\"})");
}

#[test]
fn page_template_is_filled() {
    let html = render_html(
        "<svg>__GLYPH_SVG__</svg><script>init(__INIT_STATUS__, __INIT_TELEMETRY__)</script>",
        "<g/>",
        "{}",
        "{\"boards\":0}",
    );
    assert_eq!(html, "<svg><g/></svg><script>init({}, {\"boards\":0})</script>");
}

#[test]
fn dimming_matches_sixty_percent_truncated() {
    for a in 0..=255u8 {
        assert_eq!(dim_alpha(a), (f32::from(a) * 0.6) as u8, "alpha {a}");
    }
}

#[test]
fn error_dot_covers_the_pin_one_corner() {
    let dot = error_dot_pixels(32, 32);
    let mut expected = Vec::new();
    for y in 0..32i32 {
        for x in 0..32i32 {
            let (dx, dy) = (x - 6, y - 6);
            if dx * dx + dy * dy <= 25 {
                expected.push((x as u32, y as u32));
            }
        }
    }
    assert_eq!(dot, expected);
    assert_eq!(dot.len(), 81);
    assert!(dot.contains(&(6, 6)) && dot.contains(&(1, 6)) && !dot.contains(&(0, 0)));
    assert!(error_dot_pixels(4, 4).iter().all(|&(x, y)| x < 4 && y < 4));
    assert!(error_dot_pixels(0, 32).is_empty());
}

#[test]
fn every_placeholder_occurrence_is_filled() {
    let html = render_html("__GLYPH_SVG____GLYPH_SVG__|__INIT_STATUS__ __INIT_STATUS", "G", "S", "T");
    assert_eq!(html, "GG|S __INIT_STATUS");
}
