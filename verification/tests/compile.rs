use thingblock_link::grpc::cli::{CompileMessage, CompileResponse, Instance, TaskProgress};
use thingblock_link::grpc::compile::{
    artifact_event, compile_request, find_artifact, frame_step, name_ends_with, translate, CompileEvent, CompileStep,
    DirEntry, Translation,
};
use thingblock_link::grpc::stream::{Frame, FrameStep};
use thingblock_link::error::Error;
use thingblock_link::ws::protocol::{Artifact, CompileOptions};

/// The listing of a build directory `/build` holding the named files, in order.
fn build_dir(names: &[&str]) -> Vec<DirEntry> {
    names
        .iter()
        .map(|n| DirEntry { name: n.to_string(), path: format!("/build/{n}") })
        .collect()
}

#[test]
fn finds_hex_artifact() {
    let dir = build_dir(&["sketch.ino.hex"]);

    let artifact = find_artifact(&dir).expect("hex artifact found");
    assert_eq!(artifact.format, "hex");
    assert!(artifact.path.ends_with("sketch.ino.hex"));
}

#[test]
fn prefers_hex_over_bin() {
    let dir = build_dir(&["sketch.ino.bin", "sketch.ino.hex"]);

    let artifact = find_artifact(&dir).expect("artifact found");
    assert_eq!(artifact.format, "hex", "AVR hex wins over ESP bin");
}

#[test]
fn falls_back_to_bin() {
    let dir = build_dir(&["sketch.ino.bin", "sketch.ino.elf"]);

    let artifact = find_artifact(&dir).expect("bin artifact found");
    assert_eq!(artifact.format, "bin");
    assert!(artifact.path.ends_with("sketch.ino.bin"));
}

#[test]
fn skips_bootloader_merged_variant() {
    let dir = build_dir(&["sketch.ino.with_bootloader.hex", "sketch.ino.hex"]);

    let artifact = find_artifact(&dir).expect("artifact found");
    assert!(
        artifact.path.ends_with("sketch.ino.hex") && !artifact.path.contains("bootloader"),
        "the plain `.ino.hex` is chosen, not the bootloader-merged one"
    );
}

#[test]
fn no_flashable_binary_is_none() {
    let dir = build_dir(&["sketch.ino.elf", "sketch.ino.with_bootloader.hex"]);

    assert!(find_artifact(&dir).is_none());
}

#[test]
fn empty_build_dir_is_none() {
    assert!(find_artifact(&build_dir(&[])).is_none());
}

#[test]
fn missing_build_dir_is_none() {
    // An unreadable directory lists no entries.
    assert!(find_artifact(&[]).is_none());
}

#[test]
fn first_listed_match_wins() {
    let dir = build_dir(&["a.ino.hex", "b.ino.hex"]);
    assert_eq!(find_artifact(&dir).unwrap().path, "/build/a.ino.hex");
}

#[test]
fn options_default_when_empty() {
    let opts = CompileOptions::empty();
    assert!(!opts.verbose);
    assert!(opts.warnings.is_none());
    assert!(opts.libraries.is_empty());
    assert!(opts.build_properties.is_empty());
}

#[test]
fn suffix_matching() {
    assert!(name_ends_with(&"x.ino.hex".into(), ".ino.hex"));
    assert!(name_ends_with(&".ino.hex".into(), ".ino.hex"));
    assert!(!name_ends_with(&"ino.hex".into(), ".ino.hex"));
    assert!(!name_ends_with(&"x.ino.hex.bak".into(), ".ino.hex"));
}

#[test]
fn request_carries_editor_and_vendored_libraries_in_order() {
    let opts = CompileOptions {
        verbose: true,
        warnings: Some("all".into()),
        libraries: vec!["/libs/Servo".into()],
        build_properties: vec!["build.extra_flags=-DFOO".into()],
    };
    let req = compile_request(Instance { id: 7 }, "arduino:avr:uno", "/tmp/s/sketch_1", &opts, &["/res/dht/lib/DHT".into()]);
    assert_eq!(req.instance, Some(Instance { id: 7 }));
    assert_eq!(req.fqbn, "arduino:avr:uno");
    assert_eq!(req.sketch_path, "/tmp/s/sketch_1");
    assert!(req.verbose);
    assert_eq!(req.warnings, "all");
    assert_eq!(req.library, ["/libs/Servo", "/res/dht/lib/DHT"]);
    assert_eq!(req.build_properties, ["build.extra_flags=-DFOO"]);

    let plain = compile_request(Instance { id: 7 }, "f", "p", &CompileOptions::empty(), &[]);
    assert_eq!(plain.warnings, "");
    assert!(plain.library.is_empty());
}

#[test]
fn output_becomes_lossy_log_text() {
    let resp = CompileResponse { message: Some(CompileMessage::OutStream(vec![b'o', b'k', 0xff])) };
    match translate(resp) {
        Translation::Event(CompileEvent::Log(t)) => assert_eq!(t, "ok\u{fffd}"),
        other => panic!("unexpected: {other:?}"),
    }
    let resp = CompileResponse { message: Some(CompileMessage::ErrStream(b"warn".to_vec())) };
    assert!(matches!(translate(resp), Translation::Event(CompileEvent::Log(t)) if t == "warn"));
}

#[test]
fn progress_phase_falls_back_to_message() {
    let named = TaskProgress { name: "link".into(), message: "linking".into(), percent_bits: 75.0f32.to_bits() };
    match translate(CompileResponse { message: Some(CompileMessage::Progress(named)) }) {
        Translation::Event(CompileEvent::Progress { phase, percent_bits }) => {
            assert_eq!(phase, "link");
            assert_eq!(f32::from_bits(percent_bits), 75.0);
        }
        other => panic!("unexpected: {other:?}"),
    }
    let unnamed = TaskProgress { name: String::new(), message: "linking".into(), percent_bits: 0 };
    match translate(CompileResponse { message: Some(CompileMessage::Progress(unnamed)) }) {
        Translation::Event(CompileEvent::Progress { phase, .. }) => assert_eq!(phase, "linking"),
        other => panic!("unexpected: {other:?}"),
    }
}

#[test]
fn result_asks_for_the_artifact_and_empty_frames_are_skipped() {
    let done = CompileResponse { message: Some(CompileMessage::Result { build_path: "/b".into() }) };
    assert!(matches!(translate(done), Translation::LocateArtifact(d) if d == "/b"));
    assert!(matches!(translate(CompileResponse { message: None }), Translation::Empty));

    let done = CompileResponse { message: Some(CompileMessage::Result { build_path: "/b".into() }) };
    assert!(matches!(frame_step(Frame::Message(done)), CompileStep::LocateArtifact(d) if d == "/b"));
    assert!(matches!(frame_step(Frame::Message(CompileResponse { message: None })), CompileStep::Step(FrameStep::Skip)));
    assert!(matches!(frame_step(Frame::End), CompileStep::Step(FrameStep::End)));
    match frame_step(Frame::Failed("status: Internal".into())) {
        CompileStep::Step(FrameStep::Emit(Err(Error::Grpc(s)))) => assert_eq!(s, "status: Internal"),
        other => panic!("unexpected: {other:?}"),
    }
}

#[test]
fn missing_artifact_is_a_daemon_error() {
    match artifact_event(&"/tmp/build".into(), None) {
        Err(e) => {
            assert_eq!(e.code(), "daemon");
            assert_eq!(e.message(), "daemon: compile produced no flashable artifact in /tmp/build");
        }
        Ok(ev) => panic!("unexpected: {ev:?}"),
    }
    let a = Artifact { format: "hex".into(), path: "/tmp/build/s.ino.hex".into() };
    assert!(matches!(artifact_event(&"/tmp/build".into(), Some(a)), Ok(CompileEvent::Done(x)) if x.format == "hex"));
}
