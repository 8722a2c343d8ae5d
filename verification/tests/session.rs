use thingblock_link::bridge::{
    cancelled_reply, compile_outcome, compile_started, dispatch, error_body, list_boards_reply, malformed_envelope,
    monitor_opened, pump_outcome, sketch_name, sketch_paths, task_finished, upload_outcome, Action, PumpOutcome,
    StreamOutcome,
};
use thingblock_link::error::Error;
use thingblock_link::grpc::cli::{DetectedPort, Port};
use thingblock_link::grpc::compile::CompileEvent;
use thingblock_link::grpc::monitor::MonitorEvent;
use thingblock_link::grpc::upload::UploadEvent;
use thingblock_link::resource::{PathProbe, ResourceRoot};
use thingblock_link::ws::protocol::{Artifact, CompileOptions, RequestBody, ResponseBody, ResultPayload};
use thingblock_link::ws::session::Session;

fn session() -> Session {
    let root = ResourceRoot::new(
        &"/tmp/res".into(),
        PathProbe::Resolved { canonical: "/tmp/res".into(), is_dir: true },
    )
    .expect("root");
    Session::new(root)
}

fn reply(action: Action) -> ResponseBody {
    match action {
        Action::Reply(body) => body,
        other => panic!("expected a reply, got {other:?}"),
    }
}

fn error_of(body: ResponseBody) -> (String, String) {
    match body {
        ResponseBody::Error { code, message } => (code, message),
        other => panic!("expected an error, got {other:?}"),
    }
}

#[test]
fn connect_disconnect_round_trip() {
    let mut s = session();

    // connect stores the selected port and replies with an empty result.
    let r = reply(dispatch(&mut s, &"1".into(), RequestBody::Connect { port: "/dev/ttyUSB0".into() }));
    assert!(matches!(r, ResponseBody::Result(ResultPayload::Empty)));
    assert_eq!(s.selected_port().map(|p| p.as_str()), Some("/dev/ttyUSB0"));

    // disconnect clears it and replies with an empty result.
    match dispatch(&mut s, &"2".into(), RequestBody::Disconnect {}) {
        Action::CloseMonitorThenReply { was_open, reply } => {
            assert!(!was_open);
            assert!(matches!(reply, ResponseBody::Result(ResultPayload::Empty)));
        }
        other => panic!("unexpected: {other:?}"),
    }
    assert!(s.selected_port().is_none());

    // connect with an empty port is an invalid request.
    let (code, message) = error_of(reply(dispatch(&mut s, &"3".into(), RequestBody::Connect { port: String::new() })));
    assert_eq!(code, "invalidRequest");
    assert_eq!(message, "invalid request: connect requires a non-empty port");
    assert!(s.selected_port().is_none());
}

#[test]
fn list_boards_is_forwarded_and_answered_with_targets() {
    let mut s = session();
    match dispatch(&mut s, &"42".into(), RequestBody::ListBoards { pnpid: vec![] }) {
        Action::ListBoards { pnpid } => assert!(pnpid.is_empty()),
        other => panic!("unexpected: {other:?}"),
    }
    let uno = DetectedPort {
        matching_boards: vec![],
        port: Some(Port {
            address: "/dev/ttyACM0".into(),
            properties: vec![("vid".into(), "0x2341".into()), ("pid".into(), "0x0043".into())],
            ..Default::default()
        }),
    };
    // Empty pnpid filter matches nothing, so no targets.
    match list_boards_reply(Ok(vec![uno.clone()]), &[]) {
        ResponseBody::Result(ResultPayload::Targets(t)) => assert!(t.is_empty()),
        other => panic!("unexpected: {other:?}"),
    }
    match list_boards_reply(Ok(vec![uno]), &["USB\\VID_2341&PID_0043".into()]) {
        ResponseBody::Result(ResultPayload::Targets(t)) => assert_eq!(t[0].label, "/dev/ttyACM0"),
        other => panic!("unexpected: {other:?}"),
    }
    let (code, message) = error_of(list_boards_reply(Err(Error::Grpc("status: Unavailable".into())), &[]));
    assert_eq!((code.as_str(), message.as_str()), ("grpc", "grpc: status: Unavailable"));
}

#[test]
fn upload_registers_and_cancel_targets_in_flight_ids() {
    let mut s = session();
    let artifact = Artifact { format: "hex".into(), path: "/b/s.ino.hex".into() };
    let up = dispatch(
        &mut s,
        &"7".into(),
        RequestBody::Upload { fqbn: "arduino:avr:uno".into(), port: "/dev/ttyACM0".into(), upload_speed: 0, artifact },
    );
    assert!(matches!(up, Action::Upload { upload_speed: 0, .. }));
    assert!(s.is_in_flight(&"7".into()));

    assert!(matches!(dispatch(&mut s, &"7".into(), RequestBody::Cancel {}), Action::Cancel));
    assert!(matches!(dispatch(&mut s, &"8".into(), RequestBody::Cancel {}), Action::Ignore));
    // Cancelling does not deregister; the task does once it has replied.
    assert!(s.is_in_flight(&"7".into()));
    task_finished(&mut s, &"7".into());
    assert!(!s.is_in_flight(&"7".into()));
    assert!(matches!(dispatch(&mut s, &"7".into(), RequestBody::Cancel {}), Action::Ignore));
}

#[test]
fn compile_checks_options_then_registers_after_preparation() {
    let mut s = session();
    let bad = RequestBody::Compile {
        fqbn: "f".into(),
        options: Err("invalid type: string \"x\", expected struct CompileOptions".into()),
        source: "void setup(){}".into(),
        libs: vec![],
    };
    let (code, message) = error_of(reply(dispatch(&mut s, &"3".into(), bad)));
    assert_eq!(code, "invalidRequest");
    assert!(message.starts_with("invalid request: compile options: "));

    let good = RequestBody::Compile {
        fqbn: "f".into(),
        options: Ok(CompileOptions::empty()),
        source: "void setup(){}".into(),
        libs: vec![],
    };
    assert!(matches!(dispatch(&mut s, &"4".into(), good), Action::Compile { .. }));
    assert!(!s.is_in_flight(&"4".into()));
    compile_started(&mut s, "4".into());
    compile_started(&mut s, "4".into());
    assert!(s.is_in_flight(&"4".into()));
    let drained = s.drain_in_flight();
    assert_eq!(drained, ["4"]);
    assert!(!s.is_in_flight(&"4".into()));
}

#[test]
fn monitor_lifecycle() {
    let mut s = session();
    let (_, message) = error_of(reply(dispatch(&mut s, &"10".into(), RequestBody::MonitorWrite { data: "hello".into() })));
    assert_eq!(message, "invalid request: monitorWrite with no monitor open");

    let open = dispatch(&mut s, &"9".into(), RequestBody::MonitorOpen { port: "/dev/ttyACM0".into(), baud_rate: 115200 });
    assert!(matches!(open, Action::OpenMonitor { baud_rate: 115200, .. }));
    assert!(!s.has_monitor(), "not open until the port confirms");

    assert!(matches!(monitor_opened(&mut s, Some(Ok(MonitorEvent::Opened))), ResponseBody::Result(ResultPayload::Empty)));
    assert!(s.has_monitor());

    let (_, message) =
        error_of(reply(dispatch(&mut s, &"11".into(), RequestBody::MonitorOpen { port: "/dev/x".into(), baud_rate: 9600 })));
    assert_eq!(message, "invalid request: a monitor is already open; close it before opening another");

    match dispatch(&mut s, &"12".into(), RequestBody::MonitorWrite { data: "hé".into() }) {
        Action::WriteMonitor(bytes) => assert_eq!(bytes, "hé".as_bytes()),
        other => panic!("unexpected: {other:?}"),
    }
    assert!(matches!(dispatch(&mut s, &"13".into(), RequestBody::MonitorClose {}), Action::CloseMonitorThenReply { was_open: true, reply: ResponseBody::Result(ResultPayload::Empty) }));
    assert!(!s.has_monitor());
    // Idempotent.
    assert!(matches!(dispatch(&mut s, &"14".into(), RequestBody::MonitorClose {}), Action::CloseMonitorThenReply { was_open: false, reply: ResponseBody::Result(ResultPayload::Empty) }));
}

#[test]
fn monitor_open_failures() {
    let mut s = session();
    let msg = |b: ResponseBody| error_of(b).1;
    assert_eq!(msg(monitor_opened(&mut s, Some(Ok(MonitorEvent::Error("busy".into()))))), "daemon: busy");
    assert_eq!(
        msg(monitor_opened(&mut s, Some(Ok(MonitorEvent::Data("x".into()))))),
        "daemon: monitor streamed data before confirming the port opened"
    );
    assert_eq!(msg(monitor_opened(&mut s, None)), "daemon: monitor stream closed before opening");
    assert_eq!(msg(monitor_opened(&mut s, Some(Err(Error::Grpc("no".into()))))), "grpc: no");
    assert!(!s.has_monitor());
}

#[test]
fn compile_pump_outcomes() {
    assert!(matches!(compile_outcome(Some(Ok(CompileEvent::Log("a".into())))), StreamOutcome::Continue(ResponseBody::Log { .. })));
    assert!(matches!(
        compile_outcome(Some(Ok(CompileEvent::Progress { phase: "p".into(), percent_bits: 0 }))),
        StreamOutcome::Continue(ResponseBody::Progress { .. })
    ));
    let art = Artifact { format: "bin".into(), path: "/b/s.ino.bin".into() };
    assert!(matches!(
        compile_outcome(Some(Ok(CompileEvent::Done(art)))),
        StreamOutcome::Finish(ResponseBody::Result(ResultPayload::Compiled(a))) if a.format == "bin"
    ));
    match compile_outcome(None) {
        StreamOutcome::Finish(b) => assert_eq!(error_of(b).1, "daemon: compile ended without producing an artifact"),
        other => panic!("unexpected: {other:?}"),
    }
    match compile_outcome(Some(Err(Error::Io("disk full".into())))) {
        StreamOutcome::Finish(b) => assert_eq!(error_of(b), ("io".to_string(), "disk full".to_string())),
        other => panic!("unexpected: {other:?}"),
    }
    assert_eq!(error_of(cancelled_reply()), ("cancelled".to_string(), "cancelled".to_string()));
}

#[test]
fn upload_and_monitor_pump_outcomes() {
    assert!(matches!(upload_outcome(Some(Ok(UploadEvent::Log("#".into())))), StreamOutcome::Continue(_)));
    assert!(matches!(upload_outcome(Some(Ok(UploadEvent::Done))), StreamOutcome::Finish(ResponseBody::Result(ResultPayload::Empty))));
    match upload_outcome(None) {
        StreamOutcome::Finish(b) => assert_eq!(error_of(b).1, "daemon: upload ended without completing"),
        other => panic!("unexpected: {other:?}"),
    }
    assert!(matches!(pump_outcome(Ok(MonitorEvent::Data("42\n".into()))), PumpOutcome::Forward(ResponseBody::MonitorData { data }) if data == "42\n"));
    assert!(matches!(pump_outcome(Ok(MonitorEvent::Opened)), PumpOutcome::Ignore));
    match pump_outcome(Ok(MonitorEvent::Error("unplugged".into()))) {
        PumpOutcome::Finish(b) => assert_eq!(error_of(b), ("daemon".to_string(), "daemon: unplugged".to_string())),
        other => panic!("unexpected: {other:?}"),
    }
}

#[test]
fn malformed_envelope_has_no_id() {
    let r = malformed_envelope(&"expected value at line 1 column 1".into());
    assert!(r.id.is_empty());
    assert_eq!(
        error_of(r.body),
        ("invalidRequest".to_string(), "malformed envelope: expected value at line 1 column 1".to_string())
    );
}

#[test]
fn error_codes_and_messages() {
    let cases = [
        (Error::InvalidRequest("x".into()), "invalidRequest", "invalid request: x"),
        (Error::Daemon("x".into()), "daemon", "daemon: x"),
        (Error::Grpc("x".into()), "grpc", "grpc: x"),
        (Error::Cancelled, "cancelled", "cancelled"),
        (Error::Resource("x".into()), "invalidRequest", "resource: x"),
        (Error::Io("x".into()), "io", "x"),
    ];
    for (e, code, message) in cases {
        assert_eq!(e.code(), code);
        assert_eq!(e.message(), message);
        assert_eq!(error_of(error_body(&e)), (code.to_string(), message.to_string()));
    }
}

#[test]
fn sketch_names_are_filesystem_safe() {
    assert_eq!(sketch_name("42"), "sketch_42");
    assert_eq!(sketch_name(""), "sketch_");
    assert_eq!(sketch_name("a/b c-é"), "sketch_a_b_c__");
    let (dir, file) = sketch_paths(&"/tmp/tb".into(), "7");
    assert_eq!(dir, "/tmp/tb/sketch_7");
    assert_eq!(file, "/tmp/tb/sketch_7/sketch_7.ino");
}
