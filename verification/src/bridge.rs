//! Translation between the WS envelope and the arduino-cli calls: what each
//! request does to the session and what the socket driver must do for it, and
//! how each streamed event of a long-running call becomes a WS response.
//!
//! A request produces zero or more streamed responses and one terminal
//! `result`/`error`, all under the request `id`. Short requests are answered at
//! once ([`Action::Reply`]); `compile` and `upload` run as tasks that own their
//! terminal reply; `cancel` and `monitorWrite` send none of their own.

use vstd::prelude::*;
use crate::error::{Error, ErrorView, spec_code, spec_message};
use crate::grpc::board::{detected_ports_to_targets, ports_view, strings_view, targets_of};
use crate::grpc::cli::DetectedPort;
use crate::grpc::compile::{CompileEvent, CompileEventView};
use crate::grpc::monitor::{MonitorEvent, MonitorEventView};
use crate::grpc::upload::{UploadEvent, UploadEventView};
use crate::resource::{spec_path_join, join};
use crate::text::{chars_of, owned, push_char};
use crate::ws::protocol::{
    Artifact, BodyView, CompileOptions, LibRef, RequestBody, Response, ResponseBody, ResponseView, ResultPayload,
    ResultView, is_terminal, targets_view,
};
use crate::ws::session::{Session, SessionView};

verus! {

/// The terminal `error` body for an error: its wire code and its message.
pub open spec fn spec_error_body(e: ErrorView) -> BodyView {
    BodyView::Error(spec_code(e), spec_message(e))
}

/// The terminal `error` reply for an error.
pub fn error_body(e: &Error) -> (r: ResponseBody)
    ensures
        r@ == spec_error_body(e@),
{
    ResponseBody::Error { code: owned(e.code()), message: e.message() }
}

/// The empty terminal `result {}`.
pub open spec fn spec_empty_result() -> BodyView {
    BodyView::Result(ResultView::Empty)
}

fn empty_result() -> (r: ResponseBody)
    ensures
        r@ == spec_empty_result(),
{
    ResponseBody::Result(ResultPayload::Empty)
}

fn invalid_request(message: &str) -> (r: ResponseBody)
    ensures
        r@ == spec_error_body(ErrorView::InvalidRequest(message@)),
{
    error_body(&Error::InvalidRequest(owned(message)))
}

/// The reply to a text frame that is not a valid envelope: an `invalidRequest`
/// error under an empty `id`, as there is nothing to correlate it with, whose
/// message is `malformed envelope: <detail>`.
pub fn malformed_envelope(detail: &String) -> (r: Response)
    ensures
        r@ == (ResponseView {
            id: Seq::empty(),
            body: BodyView::Error("invalidRequest"@, "malformed envelope: "@ + detail@),
        }),
{
    let mut m = owned("malformed envelope: ");
    m.append(detail.as_str());
    Response { id: String::new(), body: ResponseBody::Error { code: owned("invalidRequest"), message: m } }
}

/// What the socket driver must do for one request, after the session has been
/// updated.
#[derive(Debug)]
pub enum Action {
    /// Send this terminal reply now.
    Reply(ResponseBody),
    /// Run `BoardList` and answer with [`list_boards_reply`].
    ListBoards { pnpid: Vec<String> },
    /// Resolve `libs` against the resource root, prepare the scratch directory,
    /// register the id ([`compile_started`]) and run the compile task.
    Compile { fqbn: String, options: CompileOptions, source: String, libs: Vec<LibRef> },
    /// The id is registered in flight: run the upload task.
    Upload { fqbn: String, port: String, upload_speed: u32, artifact: Artifact },
    /// Fire the in-flight request's cancellation; its task sends the terminal.
    Cancel,
    /// Nothing to do and nothing to send.
    Ignore,
    /// Open the monitor stream and answer with [`monitor_opened`].
    OpenMonitor { port: String, baud_rate: u32 },
    /// Push these bytes into the open monitor; no reply.
    WriteMonitor(Vec<u8>),
    /// Close the live monitor when `was_open`, then send `reply`.
    CloseMonitorThenReply { was_open: bool, reply: ResponseBody },
}

/// The session is unchanged.
pub open spec fn unchanged(after: SessionView, before: SessionView) -> bool {
    after == before
}

/// The action replies with this terminal body.
pub open spec fn replies(a: Action, b: BodyView) -> bool {
    a matches Action::Reply(body) && body@ == b
}

/// The action closes the monitor when one was open, then replies `result {}`.
pub open spec fn closes_then_replies(a: Action, was_open: bool) -> bool {
    a matches Action::CloseMonitorThenReply { was_open: w, reply } && w == was_open && reply@ == spec_empty_result()
}

/// The session after a request is dispatched.
pub open spec fn spec_next(s: SessionView, id: Seq<char>, body: RequestBody) -> SessionView {
    match body {
        RequestBody::Connect { port } => if port@.len() == 0 {
            s
        } else {
            SessionView { selected_port: Some(port@), ..s }
        },
        RequestBody::Disconnect {  } => SessionView { selected_port: None, monitor_open: false, ..s },
        RequestBody::Upload { .. } => SessionView { in_flight: s.in_flight.insert(id), ..s },
        RequestBody::MonitorClose {  } => SessionView { monitor_open: false, ..s },
        _ => s,
    }
}

/// Dispatch one request: update the session and say what the driver must do.
///
/// - `listBoards` queries the daemon.
/// - `connect` selects a non-empty port (an empty one is an invalid request);
///   `disconnect` closes any monitor and clears the port.
/// - `compile` with readable options proceeds to preparation; unreadable options
///   are an invalid request.
/// - `cancel` fires the in-flight request with this `id`, if there is one.
/// - `upload` registers the `id` in flight and runs.
/// - `monitorOpen` opens a monitor unless one is already open; `monitorWrite`
///   needs an open monitor; `monitorClose` closes it (idempotent) and replies.
pub fn dispatch(session: &mut Session, id: &String, body: RequestBody) -> (r: Action)
    ensures
        final(session)@ == spec_next(old(session)@, id@, body),
        r matches Action::Reply(b) ==> is_terminal(b@),
        match body {
            RequestBody::ListBoards { pnpid } => r == (Action::ListBoards { pnpid }) && unchanged(
                final(session)@,
                old(session)@,
            ),
            RequestBody::Connect { port } => if port@.len() == 0 {
                replies(r, spec_error_body(ErrorView::InvalidRequest("connect requires a non-empty port"@)))
                    && unchanged(final(session)@, old(session)@)
            } else {
                replies(r, spec_empty_result()) && final(session)@ == (SessionView {
                    selected_port: Some(port@),
                    ..old(session)@
                })
            },
            RequestBody::Disconnect {  } => closes_then_replies(r, old(session)@.monitor_open)
                && final(session)@ == (SessionView {
                selected_port: None,
                monitor_open: false,
                ..old(session)@
            }),
            RequestBody::Compile { fqbn, options, source, libs } => (match options {
                Ok(o) => r == (Action::Compile { fqbn, options: o, source, libs }),
                Err(detail) => replies(
                    r,
                    spec_error_body(ErrorView::InvalidRequest("compile options: "@ + detail@)),
                ),
            }) && unchanged(final(session)@, old(session)@),
            RequestBody::Cancel {  } => (if old(session)@.in_flight.contains(id@) {
                r is Cancel
            } else {
                r is Ignore
            }) && unchanged(final(session)@, old(session)@),
            RequestBody::Upload { fqbn, port, upload_speed, artifact } => r == (Action::Upload {
                fqbn,
                port,
                upload_speed,
                artifact,
            }) && final(session)@ == (SessionView {
                in_flight: old(session)@.in_flight.insert(id@),
                ..old(session)@
            }),
            RequestBody::MonitorOpen { port, baud_rate } => (if old(session)@.monitor_open {
                replies(
                    r,
                    spec_error_body(
                        ErrorView::InvalidRequest(
                            "a monitor is already open; close it before opening another"@,
                        ),
                    ),
                )
            } else {
                r == (Action::OpenMonitor { port, baud_rate })
            }) && unchanged(final(session)@, old(session)@),
            RequestBody::MonitorWrite { data } => (if !old(session)@.monitor_open {
                replies(r, spec_error_body(ErrorView::InvalidRequest("monitorWrite with no monitor open"@)))
            } else {
                r matches Action::WriteMonitor(bytes) && bytes@ == vstd::utf8::encode_utf8(data@)
            }) && unchanged(final(session)@, old(session)@),
            RequestBody::MonitorClose {  } => closes_then_replies(r, old(session)@.monitor_open)
                && final(session)@ == (SessionView { monitor_open: false, ..old(session)@ }),
        },
{
    match body {
        RequestBody::ListBoards { pnpid } => Action::ListBoards { pnpid },
        RequestBody::Connect { port } => {
            if port.as_str().is_empty() {
                Action::Reply(invalid_request("connect requires a non-empty port"))
            } else {
                session.select_port(port);
                Action::Reply(empty_result())
            }
        },
        RequestBody::Disconnect {  } => {
            let was_open = session.close_monitor();
            session.clear_port();
            Action::CloseMonitorThenReply { was_open, reply: empty_result() }
        },
        RequestBody::Compile { fqbn, options, source, libs } => match options {
            Ok(options) => Action::Compile { fqbn, options, source, libs },
            Err(detail) => {
                let mut m = owned("compile options: ");
                m.append(detail.as_str());
                Action::Reply(error_body(&Error::InvalidRequest(m)))
            },
        },
        RequestBody::Cancel {  } => {
            if session.is_in_flight(id) {
                Action::Cancel
            } else {
                Action::Ignore
            }
        },
        RequestBody::Upload { fqbn, port, upload_speed, artifact } => {
            session.register_in_flight(id.clone());
            Action::Upload { fqbn, port, upload_speed, artifact }
        },
        RequestBody::MonitorOpen { port, baud_rate } => {
            if session.has_monitor() {
                Action::Reply(invalid_request("a monitor is already open; close it before opening another"))
            } else {
                Action::OpenMonitor { port, baud_rate }
            }
        },
        RequestBody::MonitorWrite { data } => {
            if !session.has_monitor() {
                Action::Reply(invalid_request("monitorWrite with no monitor open"))
            } else {
                Action::WriteMonitor(data.as_str().as_bytes_vec())
            }
        },
        RequestBody::MonitorClose {  } => {
            let was_open = session.close_monitor();
            Action::CloseMonitorThenReply { was_open, reply: empty_result() }
        },
    }
}

/// `disconnect` undoes `connect`: whatever port a `connect` selected, a
/// following `disconnect` leaves no port selected and no monitor open, and
/// touches nothing else.
pub proof fn lemma_disconnect_clears_connect(s: SessionView, id1: Seq<char>, id2: Seq<char>, port: String)
    ensures
        ({
            let after = spec_next(
                spec_next(s, id1, RequestBody::Connect { port }),
                id2,
                RequestBody::Disconnect {  },
            );
            &&& after.selected_port is None
            &&& !after.monitor_open
            &&& after.in_flight == s.in_flight
            &&& after.resource_root == s.resource_root
        }),
{
}

/// A refused `connect` (empty port) leaves the session as it was.
pub proof fn lemma_empty_connect_changes_nothing(s: SessionView, id: Seq<char>, port: String)
    requires
        port@.len() == 0,
    ensures
        spec_next(s, id, RequestBody::Connect { port }) == s,
{
}

/// Dispatch never opens a monitor: only a confirmed open ([`monitor_opened`])
/// does, so at most one monitor is ever open per session.
pub proof fn lemma_dispatch_never_opens_monitor(s: SessionView, id: Seq<char>, body: RequestBody)
    ensures
        spec_next(s, id, body).monitor_open ==> s.monitor_open,
{
}

/// Only `upload` registers an in-flight id during dispatch; `cancel` in
/// particular changes nothing, and no request removes an in-flight id.
pub proof fn lemma_only_upload_registers(s: SessionView, id: Seq<char>, body: RequestBody)
    ensures
        !(body is Upload) ==> spec_next(s, id, body).in_flight == s.in_flight,
        body is Upload ==> spec_next(s, id, body).in_flight == s.in_flight.insert(id),
        body is Cancel ==> spec_next(s, id, body) == s,
{
}

/// `monitorClose` is idempotent: closing twice is the same as closing once.
pub proof fn lemma_monitor_close_idempotent(s: SessionView, id1: Seq<char>, id2: Seq<char>)
    ensures
        spec_next(spec_next(s, id1, RequestBody::MonitorClose {  }), id2, RequestBody::MonitorClose {  })
            == spec_next(s, id1, RequestBody::MonitorClose {  }),
{
}

/// A finished task cannot be cancelled: once its id is deregistered, a `cancel`
/// for it is ignored, while the other in-flight ids stay registered.
pub proof fn lemma_finished_task_not_cancellable(s: SessionView, id: Seq<char>, other: Seq<char>)
    requires
        other != id,
    ensures
        !s.in_flight.remove(id).contains(id),
        s.in_flight.remove(id).contains(other) == s.in_flight.contains(other),
{
}

/// The `compile` request passed preparation: register its id in flight.
pub fn compile_started(session: &mut Session, id: String)
    ensures
        final(session)@ == (SessionView { in_flight: old(session)@.in_flight.insert(id@), ..old(session)@ }),
{
    session.register_in_flight(id);
}

/// A `compile` or `upload` task sent its terminal reply: deregister its id.
pub fn task_finished(session: &mut Session, id: &String)
    ensures
        final(session)@ == (SessionView { in_flight: old(session)@.in_flight.remove(id@), ..old(session)@ }),
{
    session.finish_in_flight(id);
}

/// The outcome of opening the monitor stream, from its first event: only an
/// `Opened` confirms the port; a port error, data before the confirmation, a
/// stream failure or an early end are failures.
pub open spec fn spec_open_outcome(first: Option<Result<MonitorEvent, Error>>) -> Result<(), ErrorView> {
    match first {
        Some(Ok(ev)) => match ev@ {
            MonitorEventView::Opened => Ok(()),
            MonitorEventView::Error(m) => Err(ErrorView::Daemon(m)),
            MonitorEventView::Data(_) => Err(
                ErrorView::Daemon("monitor streamed data before confirming the port opened"@),
            ),
        },
        Some(Err(e)) => Err(e@),
        None => Err(ErrorView::Daemon("monitor stream closed before opening"@)),
    }
}

/// Decide the monitor open from the stream's first event, then record it: on
/// success the session has an open monitor and the reply is `result {}`;
/// otherwise the session is unchanged and the reply is the failure.
pub fn monitor_opened(session: &mut Session, first: Option<Result<MonitorEvent, Error>>) -> (r: ResponseBody)
    ensures
        match spec_open_outcome(first) {
            Ok(_) => r@ == spec_empty_result() && final(session)@ == (SessionView {
                monitor_open: true,
                ..old(session)@
            }),
            Err(e) => r@ == spec_error_body(e) && final(session)@ == old(session)@,
        },
{
    let outcome: Result<(), Error> = match first {
        Some(Ok(MonitorEvent::Opened)) => Ok(()),
        Some(Ok(MonitorEvent::Error(message))) => Err(Error::Daemon(message)),
        Some(Ok(MonitorEvent::Data(_))) => Err(
            Error::Daemon(owned("monitor streamed data before confirming the port opened")),
        ),
        Some(Err(e)) => Err(e),
        None => Err(Error::Daemon(owned("monitor stream closed before opening"))),
    };
    match outcome {
        Ok(()) => {
            session.set_monitor();
            empty_result()
        },
        Err(e) => error_body(&e),
    }
}

/// The reply to `listBoards` from the `BoardList` outcome: the matching targets,
/// or the failure.
pub fn list_boards_reply(ports: Result<Vec<DetectedPort>, Error>, pnpid: &[String]) -> (r: ResponseBody)
    ensures
        match ports {
            Ok(p) => r@ == BodyView::Result(ResultView::Targets(targets_of(ports_view(p@), strings_view(pnpid@)))),
            Err(e) => r@ == spec_error_body(e@),
        },
{
    match ports {
        Ok(p) => {
            let targets = detected_ports_to_targets(p.as_slice(), pnpid);
            ResponseBody::Result(ResultPayload::Targets(targets))
        },
        Err(e) => error_body(&e),
    }
}

/// What one step of a streamed task sends.
#[derive(Debug)]
pub enum StreamOutcome {
    /// Send this streamed response and keep reading.
    Continue(ResponseBody),
    /// Send this terminal response; the task is done.
    Finish(ResponseBody),
}

/// The outcome is well formed: streamed responses are not terminal, a finishing
/// response is.
pub open spec fn outcome_shape(o: StreamOutcome) -> bool {
    outcome_view(o).1 == is_terminal(outcome_view(o).0)
}

/// The replies a pump sends for a run of step outcomes (each a body and whether
/// it finishes the task): every body up to and including the first finishing
/// one, after which the task is over.
pub open spec fn pump_replies(outs: Seq<(BodyView, bool)>) -> Seq<BodyView>
    decreases outs.len(),
{
    if outs.len() == 0 {
        Seq::empty()
    } else if outs[0].1 {
        seq![outs[0].0]
    } else {
        seq![outs[0].0] + pump_replies(outs.drop_first())
    }
}

/// One terminal per request: when every step outcome is well shaped (a finishing
/// step sends a terminal body, a continuing one a streamed body), a task's
/// replies hold no terminal before the last, and end with one exactly when some
/// step finished.
pub proof fn lemma_pump_sends_one_terminal_last(outs: Seq<(BodyView, bool)>)
    requires
        forall|i: int| 0 <= i < outs.len() ==> #[trigger] outs[i].1 == is_terminal(outs[i].0),
    ensures
        forall|i: int| 0 <= i < pump_replies(outs).len() - 1 ==> !is_terminal(#[trigger] pump_replies(outs)[i]),
        pump_replies(outs).len() > 0 ==> (is_terminal(pump_replies(outs).last()) <==> exists|j: int|
            0 <= j < outs.len() && #[trigger] outs[j].1),
    decreases outs.len(),
{
    if outs.len() > 0 {
        assert(outs[0].1 == is_terminal(outs[0].0));
        if !outs[0].1 {
            let rest = outs.drop_first();
            assert forall|i: int| 0 <= i < rest.len() implies #[trigger] rest[i].1 == is_terminal(rest[i].0) by {
                assert(rest[i] == outs[i + 1]);
            }
            lemma_pump_sends_one_terminal_last(rest);
            let r = pump_replies(outs);
            assert(r == seq![outs[0].0] + pump_replies(rest));
            assert forall|i: int| 0 <= i < r.len() - 1 implies !is_terminal(#[trigger] r[i]) by {
                if i > 0 {
                    assert(r[i] == pump_replies(rest)[i - 1]);
                }
            }
            if r.len() > 1 {
                assert(r.last() == pump_replies(rest).last());
                if exists|j: int| 0 <= j < outs.len() && #[trigger] outs[j].1 {
                    let j = choose|j: int| 0 <= j < outs.len() && #[trigger] outs[j].1;
                    assert(j > 0);
                    assert(rest[j - 1].1);
                }
                if exists|j: int| 0 <= j < rest.len() && #[trigger] rest[j].1 {
                    let j = choose|j: int| 0 <= j < rest.len() && #[trigger] rest[j].1;
                    assert(outs[j + 1].1);
                }
            } else {
                assert(pump_replies(rest).len() == 0);
                assert(rest.len() == 0);
                assert forall|j: int| 0 <= j < outs.len() implies !#[trigger] outs[j].1 by {
                    assert(j == 0);
                }
            }
        }
    }
}

/// The body a step outcome sends and whether it finishes the task.
pub open spec fn outcome_view(o: StreamOutcome) -> (BodyView, bool) {
    match o {
        StreamOutcome::Continue(b) => (b@, false),
        StreamOutcome::Finish(b) => (b@, true),
    }
}

/// The terminal reply of a cancelled request.
pub fn cancelled_reply() -> (r: ResponseBody)
    ensures
        r@ == spec_error_body(ErrorView::Cancelled),
{
    error_body(&Error::Cancelled)
}

/// One step of the compile pump: a log chunk or progress is streamed; the
/// artifact is the terminal `result {artifact}`; a failure is the terminal
/// error; an end without an artifact is a `daemon` error.
pub fn compile_outcome(item: Option<Result<CompileEvent, Error>>) -> (r: StreamOutcome)
    ensures
        outcome_shape(r),
        match item {
            Some(Ok(ev)) => match ev@ {
                CompileEventView::Log(t) => r matches StreamOutcome::Continue(b) && b@ == BodyView::Log(t),
                CompileEventView::Progress(ph, p) => r matches StreamOutcome::Continue(b) && b@
                    == BodyView::Progress(ph, p),
                CompileEventView::Done(a) => r matches StreamOutcome::Finish(b) && b@ == BodyView::Result(
                    ResultView::Compiled(a),
                ),
            },
            Some(Err(e)) => r matches StreamOutcome::Finish(b) && b@ == spec_error_body(e@),
            None => r matches StreamOutcome::Finish(b) && b@ == spec_error_body(
                ErrorView::Daemon("compile ended without producing an artifact"@),
            ),
        },
{
    match item {
        Some(Ok(CompileEvent::Log(chunk))) => StreamOutcome::Continue(ResponseBody::Log { chunk }),
        Some(Ok(CompileEvent::Progress { phase, percent_bits })) => StreamOutcome::Continue(
            ResponseBody::Progress { phase, percent_bits },
        ),
        Some(Ok(CompileEvent::Done(artifact))) => StreamOutcome::Finish(
            ResponseBody::Result(ResultPayload::Compiled(artifact)),
        ),
        Some(Err(e)) => StreamOutcome::Finish(error_body(&e)),
        None => StreamOutcome::Finish(
            error_body(&Error::Daemon(owned("compile ended without producing an artifact"))),
        ),
    }
}

/// One step of the upload pump: a log chunk is streamed; completion is the
/// terminal `result {}`; a failure is the terminal error; an end without
/// completion is a `daemon` error.
pub fn upload_outcome(item: Option<Result<UploadEvent, Error>>) -> (r: StreamOutcome)
    ensures
        outcome_shape(r),
        match item {
            Some(Ok(ev)) => match ev@ {
                UploadEventView::Log(t) => r matches StreamOutcome::Continue(b) && b@ == BodyView::Log(t),
                UploadEventView::Done => r matches StreamOutcome::Finish(b) && b@ == spec_empty_result(),
            },
            Some(Err(e)) => r matches StreamOutcome::Finish(b) && b@ == spec_error_body(e@),
            None => r matches StreamOutcome::Finish(b) && b@ == spec_error_body(
                ErrorView::Daemon("upload ended without completing"@),
            ),
        },
{
    match item {
        Some(Ok(UploadEvent::Log(chunk))) => StreamOutcome::Continue(ResponseBody::Log { chunk }),
        Some(Ok(UploadEvent::Done)) => StreamOutcome::Finish(empty_result()),
        Some(Err(e)) => StreamOutcome::Finish(error_body(&e)),
        None => StreamOutcome::Finish(error_body(&Error::Daemon(owned("upload ended without completing")))),
    }
}

/// What the monitor pump does with one inbound event.
#[derive(Debug)]
pub enum PumpOutcome {
    /// Stream this `monitorData` to the browser.
    Forward(ResponseBody),
    /// A duplicate `Opened` once the port is up: nothing to send.
    Ignore,
    /// Send this terminal error under the open request's id and stop.
    Finish(ResponseBody),
}

/// One step of the monitor pump: data is forwarded as `monitorData`, a second
/// `Opened` is ignored, a port error or a stream failure ends the pump with a
/// terminal error.
pub fn pump_outcome(event: Result<MonitorEvent, Error>) -> (r: PumpOutcome)
    ensures
        match event {
            Ok(ev) => match ev@ {
                MonitorEventView::Data(d) => r matches PumpOutcome::Forward(b) && b@ == BodyView::MonitorData(d),
                MonitorEventView::Opened => r is Ignore,
                MonitorEventView::Error(m) => r matches PumpOutcome::Finish(b) && b@ == spec_error_body(
                    ErrorView::Daemon(m),
                ),
            },
            Err(e) => r matches PumpOutcome::Finish(b) && b@ == spec_error_body(e@),
        },
{
    match event {
        Ok(MonitorEvent::Data(data)) => PumpOutcome::Forward(ResponseBody::MonitorData { data }),
        Ok(MonitorEvent::Opened) => PumpOutcome::Ignore,
        Ok(MonitorEvent::Error(message)) => PumpOutcome::Finish(error_body(&Error::Daemon(message))),
        Err(e) => PumpOutcome::Finish(error_body(&e)),
    }
}

/// A character is kept in a sketch name: ASCII letters and digits.
pub open spec fn is_ascii_alnum(c: char) -> bool {
    ('a' <= c && c <= 'z') || ('A' <= c && c <= 'Z') || ('0' <= c && c <= '9')
}

/// The filesystem-safe sketch folder name for a request id: `sketch_` followed by
/// the id with every character that is not an ASCII letter or digit replaced by
/// `_`. The prefix guards against ids that would be empty or lead with a digit.
pub open spec fn spec_sketch_name(id: Seq<char>) -> Seq<char> {
    "sketch_"@ + id.map_values(|c: char| if is_ascii_alnum(c) { c } else { '_' })
}

/// A filesystem-safe sketch folder name for a request id.
pub fn sketch_name(id: &str) -> (r: String)
    ensures
        r@ == spec_sketch_name(id@),
{
    let cs = chars_of(id);
    let mut s = owned("sketch_");
    let ghost safe = id@.map_values(|c: char| if is_ascii_alnum(c) { c } else { '_' });
    let n = cs.len();
    for i in 0..n
        invariant
            n == cs@.len(),
            cs@ == id@,
            safe == id@.map_values(|c: char| if is_ascii_alnum(c) { c } else { '_' }),
            s@ == "sketch_"@ + safe.take(i as int),
    {
        let c = cs[i];
        let keep = ('a' <= c && c <= 'z') || ('A' <= c && c <= 'Z') || ('0' <= c && c <= '9');
        if keep {
            push_char(&mut s, c);
        } else {
            push_char(&mut s, '_');
        }
        proof {
            assert(safe.take(i + 1) =~= safe.take(i as int).push(safe[i as int]));
            assert(s@ =~= "sketch_"@ + safe.take(i + 1));
        }
    }
    proof {
        assert(safe.take(n as int) =~= safe);
    }
    s
}

/// Where a request's sketch goes under the scratch directory `base`: arduino-cli
/// compiles a sketch directory whose main `.ino` shares the folder's name, so
/// `<base>/<name>/` and `<base>/<name>/<name>.ino`.
pub fn sketch_paths(base: &String, id: &str) -> (r: (String, String))
    ensures
        r.0@ == spec_path_join(base@, spec_sketch_name(id@)),
        r.1@ == spec_path_join(spec_path_join(base@, spec_sketch_name(id@)), spec_sketch_name(id@) + ".ino"@),
{
    let name = sketch_name(id);
    let dir = join(base, &name);
    let mut file_name = name.clone();
    file_name.append(".ino");
    let file = join(&dir, &file_name);
    (dir, file)
}

} // verus!
