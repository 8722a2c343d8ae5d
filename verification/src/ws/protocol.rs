//! The WS envelope, the cross-repo contract with the editor: every message in
//! both directions is `{ "id": string, "type": string, "payload": {...} }`.
//! These are the helper's own shapes; the JSON framing of them is done at the
//! socket edge.

use vstd::prelude::*;

verus! {

/// A connectable board returned by `listBoards`.
#[derive(Debug, Clone)]
pub struct ConnectionTarget {
    pub port: String,
    pub label: String,
}

/// A compiled binary the editor hands back to `upload`.
#[derive(Debug, Clone)]
pub struct Artifact {
    pub format: String,
    pub path: String,
}

/// A `{pack, lib}` reference to a vendored library under the resource root.
#[derive(Debug, Clone)]
pub struct LibRef {
    pub pack: String,
    pub lib: String,
}

/// The tolerant `compile` options: absent keys take these defaults, unknown
/// keys are ignored.
#[derive(Debug, Clone)]
pub struct CompileOptions {
    pub verbose: bool,
    pub warnings: Option<String>,
    pub libraries: Vec<String>,
    pub build_properties: Vec<String>,
}

impl CompileOptions {
    /// The options of an empty `{}` object.
    pub fn empty() -> (r: CompileOptions)
        ensures
            !r.verbose,
            r.warnings is None,
            r.libraries@.len() == 0,
            r.build_properties@.len() == 0,
    {
        CompileOptions { verbose: false, warnings: None, libraries: Vec::new(), build_properties: Vec::new() }
    }
}

/// A client request: the envelope `id` and the typed payload.
#[derive(Debug)]
pub struct Request {
    pub id: String,
    pub body: RequestBody,
}

/// The typed payload of a client request, one variant per envelope `type`.
#[derive(Debug)]
pub enum RequestBody {
    ListBoards { pnpid: Vec<String> },
    Connect { port: String },
    Disconnect {},
    /// `options` is the editor's options object read as [`CompileOptions`], or
    /// the reason it could not be read.
    Compile { fqbn: String, options: Result<CompileOptions, String>, source: String, libs: Vec<LibRef> },
    Cancel {},
    Upload { fqbn: String, port: String, upload_speed: u32, artifact: Artifact },
    MonitorOpen { port: String, baud_rate: u32 },
    MonitorWrite { data: String },
    MonitorClose {},
}

/// The payload of a terminal `result`.
#[derive(Debug, Clone)]
pub enum ResultPayload {
    /// `{}`
    Empty,
    /// `{ targets: ConnectionTarget[] }`, the reply to `listBoards`.
    Targets(Vec<ConnectionTarget>),
    /// `{ artifact: Artifact }`, the reply to `compile`.
    Compiled(Artifact),
}

/// The typed payload of a helper message, one variant per envelope `type`.
#[derive(Debug, Clone)]
pub enum ResponseBody {
    /// Streamed stdout/stderr for a request.
    Log { chunk: String },
    /// Streamed progress; `percent_bits` is the IEEE-754 bit pattern of the
    /// `f32` percentage.
    Progress { phase: String, percent_bits: u32 },
    /// Terminal success.
    Result(ResultPayload),
    /// Terminal failure.
    Error { code: String, message: String },
    /// Inbound serial text for the monitor session.
    MonitorData { data: String },
    /// Unsolicited message; holds the JSON text of its payload object.
    Event(String),
}

/// A helper message: the request `id` it answers and its payload.
#[derive(Debug, Clone)]
pub struct Response {
    pub id: String,
    pub body: ResponseBody,
}

/// A connection target as two strings.
pub struct TargetView {
    pub port: Seq<char>,
    pub label: Seq<char>,
}

impl View for ConnectionTarget {
    type V = TargetView;

    open spec fn view(&self) -> TargetView {
        TargetView { port: self.port@, label: self.label@ }
    }
}

/// An artifact as two strings.
pub struct ArtifactView {
    pub format: Seq<char>,
    pub path: Seq<char>,
}

impl View for Artifact {
    type V = ArtifactView;

    open spec fn view(&self) -> ArtifactView {
        ArtifactView { format: self.format@, path: self.path@ }
    }
}

pub enum ResultView {
    Empty,
    Targets(Seq<TargetView>),
    Compiled(ArtifactView),
}

pub open spec fn targets_view(v: Seq<ConnectionTarget>) -> Seq<TargetView> {
    v.map_values(|t: ConnectionTarget| t@)
}

impl View for ResultPayload {
    type V = ResultView;

    open spec fn view(&self) -> ResultView {
        match self {
            ResultPayload::Empty => ResultView::Empty,
            ResultPayload::Targets(t) => ResultView::Targets(targets_view(t@)),
            ResultPayload::Compiled(a) => ResultView::Compiled(a@),
        }
    }
}

/// A helper message payload over mathematical strings.
pub enum BodyView {
    Log(Seq<char>),
    Progress(Seq<char>, u32),
    Result(ResultView),
    Error(Seq<char>, Seq<char>),
    MonitorData(Seq<char>),
    Event(Seq<char>),
}

impl View for ResponseBody {
    type V = BodyView;

    open spec fn view(&self) -> BodyView {
        match self {
            ResponseBody::Log { chunk } => BodyView::Log(chunk@),
            ResponseBody::Progress { phase, percent_bits } => BodyView::Progress(phase@, *percent_bits),
            ResponseBody::Result(p) => BodyView::Result(p@),
            ResponseBody::Error { code, message } => BodyView::Error(code@, message@),
            ResponseBody::MonitorData { data } => BodyView::MonitorData(data@),
            ResponseBody::Event(e) => BodyView::Event(e@),
        }
    }
}

pub struct ResponseView {
    pub id: Seq<char>,
    pub body: BodyView,
}

impl View for Response {
    type V = ResponseView;

    open spec fn view(&self) -> ResponseView {
        ResponseView { id: self.id@, body: self.body@ }
    }
}

/// The views of a sequence of responses.
pub open spec fn responses_view(s: Seq<Response>) -> Seq<ResponseView> {
    s.map_values(|r: Response| r@)
}

/// A body is terminal: a `result` or an `error`.
pub open spec fn is_terminal(b: BodyView) -> bool {
    b is Result || b is Error
}

} // verus!
