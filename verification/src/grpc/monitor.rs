//! `Monitor` translation: arduino-cli's bidirectional `Monitor` stream mapped
//! onto [`MonitorEvent`]s and [`MonitorCommand`]s. Backs the WS `monitorOpen` /
//! `monitorWrite` / `monitorClose` family.
//!
//! The first outbound message opens the port; later outbound messages carry
//! serial bytes to write or a graceful close. Inbound responses are translated
//! back into events.

use vstd::prelude::*;
use crate::error::{Error, ErrorView};
use crate::grpc::cli::{
    Instance, MonitorPortConfiguration, MonitorPortOpenRequest, MonitorPortSetting, MonitorRequest,
    MonitorRequestMessage, MonitorResponse, MonitorResponseMessage, Port,
};
use crate::grpc::stream::Frame;
use crate::text::{decimal, decimal_string, decode_lossy, lossy_text, owned, spec_utf8_lossy};

verus! {

/// One translated step of a monitor session.
#[derive(Debug, Clone)]
pub enum MonitorEvent {
    /// The port opened successfully: the first event of a healthy session.
    Opened,
    /// A chunk of serial text received from the port.
    Data(String),
    /// A port-level error reported by the daemon (e.g. the board vanished).
    Error(String),
}

pub enum MonitorEventView {
    Opened,
    Data(Seq<char>),
    Error(Seq<char>),
}

impl View for MonitorEvent {
    type V = MonitorEventView;

    open spec fn view(&self) -> MonitorEventView {
        match self {
            MonitorEvent::Opened => MonitorEventView::Opened,
            MonitorEvent::Data(d) => MonitorEventView::Data(d@),
            MonitorEvent::Error(m) => MonitorEventView::Error(m@),
        }
    }
}

/// A helper-side command pushed into an open monitor's outbound stream.
#[derive(Debug, Clone)]
pub enum MonitorCommand {
    /// Serial bytes to transmit to the port.
    Write(Vec<u8>),
    /// Gracefully close the port; the daemon ends the stream after the close.
    Close,
}

/// Assemble the `MonitorPortOpenRequest`. The WS payload carries only a port
/// address and a baud rate: the protocol is `serial`, the baud rate becomes the
/// one `baudrate` port setting, and the FQBN stays empty (serial has a single
/// built-in monitor, so nothing needs disambiguating).
pub fn build_open_request(instance: Instance, port: &str, baud_rate: u32) -> (r: MonitorPortOpenRequest)
    ensures
        r.instance == Some(instance),
        r.fqbn@.len() == 0,
        r.port matches Some(p) && p.address@ == port@ && p.protocol@ == "serial"@ && p.label@.len() == 0
            && p.properties@.len() == 0,
        r.port_configuration matches Some(c) && c.settings@.len() == 1 && c.settings@[0].setting_id@
            == "baudrate"@ && c.settings@[0].value@ == decimal(baud_rate as nat),
{
    let mut settings: Vec<MonitorPortSetting> = Vec::new();
    settings.push(MonitorPortSetting { setting_id: owned("baudrate"), value: decimal_string(baud_rate as u64) });
    MonitorPortOpenRequest {
        instance: Some(instance),
        port: Some(Port {
            address: owned(port),
            label: String::new(),
            protocol: owned("serial"),
            properties: Vec::new(),
        }),
        fqbn: String::new(),
        port_configuration: Some(MonitorPortConfiguration { settings }),
    }
}

/// The leading outbound message, which opens the port.
pub fn open_message(open: MonitorPortOpenRequest) -> (r: MonitorRequest)
    ensures
        r.message == Some(MonitorRequestMessage::OpenRequest(open)),
{
    MonitorRequest { message: Some(MonitorRequestMessage::OpenRequest(open)) }
}

/// The outbound message for the next command, and whether the outbound stream
/// ends after it. A write becomes `tx_data`; a close becomes `close` and ends the
/// stream; a closed command channel (`None`) ends it with no message.
pub fn outbound_message(cmd: Option<MonitorCommand>) -> (r: Option<(MonitorRequest, bool)>)
    ensures
        match cmd {
            Some(MonitorCommand::Write(bytes)) => r matches Some((m, done)) && !done
                && m.message == Some(MonitorRequestMessage::TxData(bytes)),
            Some(MonitorCommand::Close) => r matches Some((m, done)) && done
                && m.message == Some(MonitorRequestMessage::Close(true)),
            None => r is None,
        },
{
    match cmd {
        Some(MonitorCommand::Write(bytes)) => Some(
            (MonitorRequest { message: Some(MonitorRequestMessage::TxData(bytes)) }, false),
        ),
        Some(MonitorCommand::Close) => Some(
            (MonitorRequest { message: Some(MonitorRequestMessage::Close(true)) }, true),
        ),
        None => None,
    }
}

/// The event a response carries: success means the port opened, received bytes
/// become text (lossy UTF-8), an error is surfaced; the applied settings and an
/// empty frame carry none.
pub open spec fn spec_translate(resp: MonitorResponse) -> Option<MonitorEventView> {
    match resp.message {
        Some(MonitorResponseMessage::Success(_)) => Some(MonitorEventView::Opened),
        Some(MonitorResponseMessage::RxData(b)) => Some(MonitorEventView::Data(lossy_text(b@))),
        Some(MonitorResponseMessage::Error(m)) => Some(MonitorEventView::Error(m@)),
        Some(MonitorResponseMessage::AppliedSettings(_)) => None,
        None => None,
    }
}

/// Map one `MonitorResponse` to a `MonitorEvent`, or `None` when it carries none.
pub fn translate(resp: MonitorResponse) -> (r: Option<MonitorEvent>)
    ensures
        match r {
            Some(e) => spec_translate(resp) == Some(e@),
            None => spec_translate(resp) is None,
        },
        resp.message matches Some(MonitorResponseMessage::RxData(b)) ==> r matches Some(MonitorEvent::Data(t))
            && t@ == spec_utf8_lossy(b@),
{
    match resp.message {
        Some(MonitorResponseMessage::Success(_)) => Some(MonitorEvent::Opened),
        Some(MonitorResponseMessage::RxData(bytes)) => Some(MonitorEvent::Data(decode_lossy(bytes.as_slice()))),
        Some(MonitorResponseMessage::Error(message)) => Some(MonitorEvent::Error(message)),
        Some(MonitorResponseMessage::AppliedSettings(_)) => None,
        None => None,
    }
}

/// What reading one frame of the `Monitor` stream produces.
#[derive(Debug)]
pub enum MonitorStep {
    /// Surface this item and keep reading.
    Emit(Result<MonitorEvent, Error>),
    /// Surface this item; the stream ends after it.
    EmitLast(Result<MonitorEvent, Error>),
    /// A frame carrying no event: keep reading.
    Skip,
    /// The stream is over.
    End,
}

/// An item after which the stream ends: a port `Error` event or a failure.
pub open spec fn ends_stream(item: Result<MonitorEventView, ErrorView>) -> bool {
    match item {
        Ok(MonitorEventView::Error(_)) => true,
        Ok(_) => false,
        Err(_) => true,
    }
}

pub open spec fn item_view(item: Result<MonitorEvent, Error>) -> Result<MonitorEventView, ErrorView> {
    match item {
        Ok(e) => Ok(e@),
        Err(e) => Err(e@),
    }
}

/// Received serial bytes that are valid UTF-8 reach the editor as exactly their
/// UTF-8 decoding: a multi-byte character stays one character.
pub proof fn lemma_serial_text_is_exact_utf8(resp: MonitorResponse, b: Vec<u8>)
    requires
        resp.message == Some(MonitorResponseMessage::RxData(b)),
        vstd::utf8::valid_utf8(b@),
    ensures
        spec_translate(resp) == Some(MonitorEventView::Data(vstd::utf8::decode_utf8(b@))),
{
}

/// Read one frame of the `Monitor` stream: a message becomes its event (frames
/// carrying none are skipped), a failed status becomes a `grpc` error, a clean
/// end ends. The stream ends after an `Error` event or a failure: those are
/// surfaced as its last item.
pub fn frame_step(frame: Frame<MonitorResponse>) -> (r: MonitorStep)
    ensures
        match frame {
            Frame::Message(resp) => match spec_translate(resp) {
                None => r is Skip,
                Some(MonitorEventView::Error(m)) => r matches MonitorStep::EmitLast(Ok(e))
                    && e@ == MonitorEventView::Error(m),
                Some(ev) => r matches MonitorStep::Emit(Ok(e)) && e@ == ev,
            },
            Frame::End => r is End,
            Frame::Failed(s) => r matches MonitorStep::EmitLast(Err(e)) && e@ == ErrorView::Grpc(s@),
        },
        match frame {
            Frame::Message(resp) => match resp.message {
                Some(MonitorResponseMessage::RxData(b)) => r matches MonitorStep::Emit(Ok(MonitorEvent::Data(t)))
                    && t@ == spec_utf8_lossy(b@),
                _ => true,
            },
            _ => true,
        },
        step_shape(r),
{
    match frame {
        Frame::Message(resp) => match translate(resp) {
            Some(MonitorEvent::Error(message)) => MonitorStep::EmitLast(Ok(MonitorEvent::Error(message))),
            Some(event) => MonitorStep::Emit(Ok(event)),
            None => MonitorStep::Skip,
        },
        Frame::End => MonitorStep::End,
        Frame::Failed(status) => MonitorStep::EmitLast(Err(Error::Grpc(status))),
    }
}

/// A step is well formed: it surfaces an item as the last one exactly when the
/// item ends the stream.
pub open spec fn step_shape(s: MonitorStep) -> bool {
    match s {
        MonitorStep::Emit(x) => !ends_stream(item_view(x)),
        MonitorStep::EmitLast(x) => ends_stream(item_view(x)),
        _ => true,
    }
}

/// The items a monitor stream yields for a run of frame steps: each surfaced
/// item, up to and including the first last one or the end.
pub open spec fn yielded(steps: Seq<MonitorStep>) -> Seq<Result<MonitorEventView, ErrorView>>
    decreases steps.len(),
{
    if steps.len() == 0 {
        Seq::empty()
    } else {
        match steps[0] {
            MonitorStep::Emit(x) => seq![item_view(x)] + yielded(steps.drop_first()),
            MonitorStep::EmitLast(x) => seq![item_view(x)],
            MonitorStep::Skip => yielded(steps.drop_first()),
            MonitorStep::End => Seq::empty(),
        }
    }
}

/// The stream ends after an `Error` event: over any run of frame steps, no
/// `Error` event or failure is followed by another item.
pub proof fn lemma_stream_ends_after_error(steps: Seq<MonitorStep>)
    requires
        forall|i: int| 0 <= i < steps.len() ==> step_shape(#[trigger] steps[i]),
    ensures
        forall|i: int| 0 <= i < yielded(steps).len() - 1 ==> !ends_stream(#[trigger] yielded(steps)[i]),
    decreases steps.len(),
{
    if steps.len() > 0 {
        let rest = steps.drop_first();
        assert forall|i: int| 0 <= i < rest.len() implies step_shape(#[trigger] rest[i]) by {
            assert(rest[i] == steps[i + 1]);
        }
        lemma_stream_ends_after_error(rest);
        assert(step_shape(steps[0]));
        match steps[0] {
            MonitorStep::Emit(x) => {
                let y = yielded(steps);
                assert(y == seq![item_view(x)] + yielded(rest));
                assert forall|i: int| 0 <= i < y.len() - 1 implies !ends_stream(#[trigger] y[i]) by {
                    if i > 0 {
                        assert(y[i] == yielded(rest)[i - 1]);
                    }
                }
            },
            _ => {},
        }
    }
}

} // verus!
