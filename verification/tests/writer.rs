use thingblock_link::ws::protocol::{Response, ResponseBody, ResultPayload};
use thingblock_link::ws::writer::{writer_step, Timer, WriterEvent};

fn log(id: &str, chunk: &str) -> Response {
    Response { id: id.into(), body: ResponseBody::Log { chunk: chunk.into() } }
}

fn describe(frames: &[Response]) -> Vec<(String, String)> {
    frames
        .iter()
        .map(|r| {
            let text = match &r.body {
                ResponseBody::Log { chunk } => format!("log:{chunk}"),
                ResponseBody::MonitorData { data } => format!("data:{data}"),
                ResponseBody::Result(_) => "result".to_string(),
                other => format!("{other:?}"),
            };
            (r.id.clone(), text)
        })
        .collect()
}

#[test]
fn streamed_text_waits_and_arms_the_window() {
    let mut buf = Vec::new();
    let step = writer_step(&mut buf, WriterEvent::Queued(log("1", "a")));
    assert!(step.frames.is_empty());
    assert_eq!(step.timer, Timer::Arm);
    assert!(!step.stop);
    let step = writer_step(&mut buf, WriterEvent::Queued(log("1", "b")));
    assert!(step.frames.is_empty());
    assert_eq!(describe(&buf), vec![("1".to_string(), "log:ab".to_string())]);
}

#[test]
fn terminal_flushes_buffer_first_then_is_written() {
    let mut buf = Vec::new();
    writer_step(&mut buf, WriterEvent::Queued(log("1", "a")));
    writer_step(&mut buf, WriterEvent::Queued(log("2", "x")));
    let done = Response { id: "1".into(), body: ResponseBody::Result(ResultPayload::Empty) };
    let step = writer_step(&mut buf, WriterEvent::Queued(done));
    assert_eq!(step.timer, Timer::Disarm);
    assert!(buf.is_empty());
    assert_eq!(
        describe(&step.frames),
        vec![
            ("1".to_string(), "log:a".to_string()),
            ("2".to_string(), "log:x".to_string()),
            ("1".to_string(), "result".to_string()),
        ]
    );
}

#[test]
fn window_elapsing_flushes_and_teardown_stops() {
    let mut buf = Vec::new();
    writer_step(&mut buf, WriterEvent::Queued(log("1", "a")));
    let step = writer_step(&mut buf, WriterEvent::FlushDue);
    assert_eq!(describe(&step.frames), vec![("1".to_string(), "log:a".to_string())]);
    assert_eq!(step.timer, Timer::Disarm);
    assert!(!step.stop);

    writer_step(&mut buf, WriterEvent::Queued(log("1", "b")));
    let step = writer_step(&mut buf, WriterEvent::SendersGone);
    assert_eq!(describe(&step.frames), vec![("1".to_string(), "log:b".to_string())]);
    assert!(step.stop);
    assert!(buf.is_empty());
}
