//! `Upload` translation: build arduino-cli's `UploadRequest` from the WS
//! payload, and map its `UploadResponse` stream onto [`UploadEvent`]s. Backs the
//! WS `upload` request.
//!
//! `UploadResponse` has no structured progress (the upload tool's progress
//! arrives inside the log text), so an upload yields only `Log` chunks and a
//! terminal `Done`. `UploadRequest` has no raw-binary field; `import_file` flashes
//! a prebuilt binary and overrides `sketch_path`.

use vstd::prelude::*;
use crate::error::{Error, ErrorView};
use crate::grpc::cli::{Instance, Port, UploadMessage, UploadRequest, UploadResponse};
use crate::grpc::stream::{Frame, FrameStep};
use crate::text::{decimal, decimal_string, decode_lossy, lossy_text, owned, spec_utf8_lossy};

verus! {

/// One translated step of an upload.
#[derive(Debug, Clone)]
pub enum UploadEvent {
    /// A stdout/stderr chunk from the upload tool.
    Log(String),
    /// Terminal success: the flash completed.
    Done,
}

/// An upload event over mathematical strings.
pub enum UploadEventView {
    Log(Seq<char>),
    Done,
}

impl View for UploadEvent {
    type V = UploadEventView;

    open spec fn view(&self) -> UploadEventView {
        match self {
            UploadEvent::Log(t) => UploadEventView::Log(t@),
            UploadEvent::Done => UploadEventView::Done,
        }
    }
}

/// The event a response carries: text output becomes a log chunk (decoded as
/// lossy UTF-8), the result marks completion, an empty frame carries none.
pub open spec fn spec_translate(resp: UploadResponse) -> Option<UploadEventView> {
    match resp.message {
        Some(UploadMessage::OutStream(b)) => Some(UploadEventView::Log(lossy_text(b@))),
        Some(UploadMessage::ErrStream(b)) => Some(UploadEventView::Log(lossy_text(b@))),
        Some(UploadMessage::Result) => Some(UploadEventView::Done),
        None => None,
    }
}

/// The `upload_properties` for a requested speed: none for `0` (the FQBN's
/// `boards.txt` decides), else one `upload.speed=<n>` override.
pub open spec fn speed_properties(upload_speed: u32) -> Seq<Seq<char>> {
    if upload_speed > 0 {
        seq!["upload.speed="@ + decimal(upload_speed as nat)]
    } else {
        Seq::empty()
    }
}

/// A requested speed overrides the board's default exactly when it is not
/// zero: any non-zero speed `n` gives the one property `upload.speed=<n>` (in
/// decimal), and zero gives none.
pub proof fn lemma_nonzero_speed_overrides(n: u32)
    ensures
        n != 0 ==> speed_properties(n) == seq!["upload.speed="@ + decimal(n as nat)],
        n == 0 ==> speed_properties(n).len() == 0,
{
}

/// Upload tool output that is valid UTF-8 reaches the editor as exactly its
/// UTF-8 decoding.
pub proof fn lemma_upload_log_is_exact_utf8(resp: UploadResponse, b: Vec<u8>)
    requires
        resp.message == Some(UploadMessage::OutStream(b)) || resp.message == Some(UploadMessage::ErrStream(b)),
        vstd::utf8::valid_utf8(b@),
    ensures
        spec_translate(resp) == Some(UploadEventView::Log(vstd::utf8::decode_utf8(b@))),
{
}

/// Assemble the `UploadRequest`. The WS payload carries only a port address;
/// for the local-helper USB-board case the protocol is `serial`.
pub fn build_request(
    instance: Instance,
    fqbn: &str,
    import_file: &str,
    port: &str,
    upload_speed: u32,
) -> (r: UploadRequest)
    ensures
        r.instance == Some(instance),
        r.fqbn@ == fqbn@,
        r.import_file@ == import_file@,
        r.sketch_path@.len() == 0,
        r.port matches Some(p) && p.address@ == port@ && p.protocol@ == "serial"@ && p.label@.len() == 0
            && p.properties@.len() == 0,
        r.upload_properties@.map_values(|s: String| s@) == speed_properties(upload_speed),
{
    let mut upload_properties: Vec<String> = Vec::new();
    if upload_speed > 0 {
        let mut prop = owned("upload.speed=");
        prop.append(decimal_string(upload_speed as u64).as_str());
        upload_properties.push(prop);
    }
    proof {
        assert(upload_properties@.map_values(|s: String| s@) =~= speed_properties(upload_speed));
    }
    UploadRequest {
        instance: Some(instance),
        fqbn: owned(fqbn),
        sketch_path: String::new(),
        port: Some(Port {
            address: owned(port),
            label: String::new(),
            protocol: owned("serial"),
            properties: Vec::new(),
        }),
        import_file: owned(import_file),
        upload_properties,
    }
}

/// Map one `UploadResponse` to an `UploadEvent`, or `None` for an empty frame.
pub fn translate(resp: UploadResponse) -> (r: Option<UploadEvent>)
    ensures
        match r {
            Some(e) => spec_translate(resp) == Some(e@),
            None => spec_translate(resp) is None,
        },
        match resp.message {
            Some(UploadMessage::OutStream(b)) => r matches Some(UploadEvent::Log(t)) && t@ == spec_utf8_lossy(b@),
            Some(UploadMessage::ErrStream(b)) => r matches Some(UploadEvent::Log(t)) && t@ == spec_utf8_lossy(b@),
            _ => true,
        },
{
    match resp.message {
        Some(UploadMessage::OutStream(bytes)) => Some(UploadEvent::Log(decode_lossy(bytes.as_slice()))),
        Some(UploadMessage::ErrStream(bytes)) => Some(UploadEvent::Log(decode_lossy(bytes.as_slice()))),
        Some(UploadMessage::Result) => Some(UploadEvent::Done),
        None => None,
    }
}

/// Read one frame of the `Upload` stream: a message becomes its event (empty
/// frames are skipped), a failed status becomes a `grpc` error, a clean end ends.
pub fn frame_step(frame: Frame<UploadResponse>) -> (r: FrameStep<UploadEvent>)
    ensures
        match frame {
            Frame::Message(resp) => match spec_translate(resp) {
                None => r is Skip,
                Some(ev) => r matches FrameStep::Emit(Ok(e)) && e@ == ev,
            },
            Frame::End => r is End,
            Frame::Failed(s) => r matches FrameStep::Emit(Err(e)) && e@ == ErrorView::Grpc(s@),
        },
        match frame {
            Frame::Message(resp) => match resp.message {
                Some(UploadMessage::OutStream(b)) => r matches FrameStep::Emit(Ok(UploadEvent::Log(t)))
                    && t@ == spec_utf8_lossy(b@),
                Some(UploadMessage::ErrStream(b)) => r matches FrameStep::Emit(Ok(UploadEvent::Log(t)))
                    && t@ == spec_utf8_lossy(b@),
                _ => true,
            },
            _ => true,
        },
{
    match frame {
        Frame::Message(resp) => match translate(resp) {
            Some(event) => FrameStep::Emit(Ok(event)),
            None => FrameStep::Skip,
        },
        Frame::End => FrameStep::End,
        Frame::Failed(status) => FrameStep::Emit(Err(Error::Grpc(status))),
    }
}

} // verus!
