use thingblock_link::ws::batch::{is_batchable, push_coalesced};
use thingblock_link::ws::protocol::{Response, ResponseBody, ResultPayload};

fn log(id: &str, chunk: &str) -> Response {
    Response { id: id.into(), body: ResponseBody::Log { chunk: chunk.into() } }
}

fn monitor(id: &str, data: &str) -> Response {
    Response { id: id.into(), body: ResponseBody::MonitorData { data: data.into() } }
}

#[test]
fn only_streamed_text_is_batchable() {
    assert!(is_batchable(&ResponseBody::Log { chunk: "x".into() }));
    assert!(is_batchable(&ResponseBody::MonitorData { data: "x".into() }));

    assert!(!is_batchable(&ResponseBody::Progress { phase: "link".into(), percent_bits: 50.0f32.to_bits() }));
    assert!(!is_batchable(&ResponseBody::Result(ResultPayload::Empty)));
    assert!(!is_batchable(&ResponseBody::Error { code: "boom".into(), message: "boom".into() }));
    assert!(!is_batchable(&ResponseBody::Event("{}".into())));
}

#[test]
fn merges_consecutive_same_id_log_chunks() {
    let mut buf = Vec::new();
    push_coalesced(&mut buf, log("7", "He"));
    push_coalesced(&mut buf, log("7", "ll"));
    push_coalesced(&mut buf, log("7", "o"));

    assert_eq!(buf.len(), 1);
    assert_eq!(buf[0].id, "7");
    match &buf[0].body {
        ResponseBody::Log { chunk } => assert_eq!(chunk, "Hello"),
        other => panic!("expected log, got {other:?}"),
    }
}

#[test]
fn merges_consecutive_same_id_monitor_data() {
    let mut buf = Vec::new();
    push_coalesced(&mut buf, monitor("m", "ab"));
    push_coalesced(&mut buf, monitor("m", "cd"));

    assert_eq!(buf.len(), 1);
    match &buf[0].body {
        ResponseBody::MonitorData { data } => assert_eq!(data, "abcd"),
        other => panic!("expected monitorData, got {other:?}"),
    }
}

#[test]
fn does_not_merge_across_ids() {
    let mut buf = Vec::new();
    push_coalesced(&mut buf, log("a", "1"));
    push_coalesced(&mut buf, log("b", "2"));

    assert_eq!(buf.len(), 2);
    assert_eq!(buf[0].id, "a");
    assert_eq!(buf[1].id, "b");
}

#[test]
fn does_not_merge_different_variants_same_id() {
    let mut buf = Vec::new();
    push_coalesced(&mut buf, log("x", "1"));
    push_coalesced(&mut buf, monitor("x", "2"));

    assert_eq!(buf.len(), 2);
    assert!(matches!(buf[0].body, ResponseBody::Log { .. }));
    assert!(matches!(buf[1].body, ResponseBody::MonitorData { .. }));
}

#[test]
fn interleaved_ids_keep_order_without_merging() {
    let mut buf = Vec::new();
    push_coalesced(&mut buf, log("a", "1"));
    push_coalesced(&mut buf, log("b", "2"));
    push_coalesced(&mut buf, log("a", "3"));

    let ids: Vec<&str> = buf.iter().map(|r| r.id.as_str()).collect();
    assert_eq!(ids, ["a", "b", "a"]);
}

#[test]
fn terminal_message_is_never_merged_into_the_stream() {
    let mut buf = Vec::new();
    push_coalesced(&mut buf, log("c", "compiling"));
    push_coalesced(&mut buf, Response { id: "c".into(), body: ResponseBody::Result(ResultPayload::Empty) });
    push_coalesced(&mut buf, log("c", "late"));

    assert_eq!(buf.len(), 3);
    assert!(matches!(buf[1].body, ResponseBody::Result(ResultPayload::Empty)));
    match &buf[2].body {
        ResponseBody::Log { chunk } => assert_eq!(chunk, "late"),
        other => panic!("expected log, got {other:?}"),
    }
}

#[test]
fn stream_text_survives_coalescing() {
    // Two interleaved streams: each one's text, read in buffer order, is the
    // concatenation of its chunks in push order.
    let mut buf = Vec::new();
    for (id, chunk) in [("a", "1"), ("a", "2"), ("b", "x"), ("a", "3"), ("b", "y"), ("b", "z")] {
        push_coalesced(&mut buf, log(id, chunk));
    }
    let text = |wanted: &str| -> String {
        buf.iter()
            .filter(|r| r.id == wanted)
            .map(|r| match &r.body {
                ResponseBody::Log { chunk } => chunk.clone(),
                _ => String::new(),
            })
            .collect()
    };
    assert_eq!(text("a"), "123");
    assert_eq!(text("b"), "xyz");
    assert_eq!(buf.len(), 4);
}

#[test]
fn percent_bits_carry_the_float() {
    let body = ResponseBody::Progress { phase: "link".into(), percent_bits: 42.5f32.to_bits() };
    match body {
        ResponseBody::Progress { percent_bits, .. } => assert_eq!(f32::from_bits(percent_bits), 42.5),
        other => panic!("expected progress, got {other:?}"),
    }
}
