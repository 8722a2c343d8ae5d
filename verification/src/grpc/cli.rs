//! The `cc.arduino.cli.commands.v1` messages, as plain values: the fields of
//! each message that the helper reads or writes.

use vstd::prelude::*;

verus! {

/// A daemon core instance, as returned by `Create`.
#[derive(Clone, Copy, Debug, PartialEq, Eq, Structural, Default)]
pub struct Instance {
    pub id: i32,
}

/// A port as discovered by arduino-cli. `properties` is the port's property map
/// (e.g. `vid`, `pid`), one entry per key.
#[derive(Clone, Debug, Default)]
pub struct Port {
    pub address: String,
    pub label: String,
    pub protocol: String,
    pub properties: Vec<(String, String)>,
}

/// A board that arduino-cli matched to a port.
#[derive(Clone, Debug, Default)]
pub struct BoardListItem {
    pub name: String,
    pub fqbn: String,
}

/// One entry of a `BoardList` reply: a port and the boards matched to it.
#[derive(Clone, Debug, Default)]
pub struct DetectedPort {
    pub matching_boards: Vec<BoardListItem>,
    pub port: Option<Port>,
}

/// `BoardListRequest`.
#[derive(Clone, Debug, Default)]
pub struct BoardListRequest {
    pub instance: Option<Instance>,
    pub timeout: i64,
    pub fqbn: String,
    pub skip_cloud_api_for_board_detection: bool,
}

/// `CompileRequest`.
#[derive(Clone, Debug, Default)]
pub struct CompileRequest {
    pub instance: Option<Instance>,
    pub fqbn: String,
    pub sketch_path: String,
    pub verbose: bool,
    pub warnings: String,
    pub library: Vec<String>,
    pub build_properties: Vec<String>,
}

/// `TaskProgress`; `percent_bits` is the bit pattern of its `f32` percent.
#[derive(Clone, Debug, Default)]
pub struct TaskProgress {
    pub name: String,
    pub message: String,
    pub percent_bits: u32,
}

/// The `CompileResponse` oneof.
#[derive(Clone, Debug)]
pub enum CompileMessage {
    OutStream(Vec<u8>),
    ErrStream(Vec<u8>),
    Progress(TaskProgress),
    /// The `BuilderResult`, of which the helper reads the build directory.
    Result { build_path: String },
}

/// `CompileResponse`.
#[derive(Clone, Debug)]
pub struct CompileResponse {
    pub message: Option<CompileMessage>,
}

/// `UploadRequest`.
#[derive(Clone, Debug, Default)]
pub struct UploadRequest {
    pub instance: Option<Instance>,
    pub fqbn: String,
    pub sketch_path: String,
    pub port: Option<Port>,
    pub import_file: String,
    pub upload_properties: Vec<String>,
}

/// The `UploadResponse` oneof.
#[derive(Clone, Debug)]
pub enum UploadMessage {
    OutStream(Vec<u8>),
    ErrStream(Vec<u8>),
    /// The `UploadResult` (its updated port is not read).
    Result,
}

/// `UploadResponse`.
#[derive(Clone, Debug)]
pub struct UploadResponse {
    pub message: Option<UploadMessage>,
}

/// `MonitorPortSetting`.
#[derive(Clone, Debug, Default)]
pub struct MonitorPortSetting {
    pub setting_id: String,
    pub value: String,
}

/// `MonitorPortConfiguration`.
#[derive(Clone, Debug, Default)]
pub struct MonitorPortConfiguration {
    pub settings: Vec<MonitorPortSetting>,
}

/// `MonitorPortOpenRequest`.
#[derive(Clone, Debug, Default)]
pub struct MonitorPortOpenRequest {
    pub instance: Option<Instance>,
    pub port: Option<Port>,
    pub fqbn: String,
    pub port_configuration: Option<MonitorPortConfiguration>,
}

/// The `MonitorRequest` oneof.
#[derive(Clone, Debug)]
pub enum MonitorRequestMessage {
    OpenRequest(MonitorPortOpenRequest),
    TxData(Vec<u8>),
    UpdatedConfiguration(MonitorPortConfiguration),
    Close(bool),
}

/// `MonitorRequest`.
#[derive(Clone, Debug)]
pub struct MonitorRequest {
    pub message: Option<MonitorRequestMessage>,
}

/// The `MonitorResponse` oneof.
#[derive(Clone, Debug)]
pub enum MonitorResponseMessage {
    Error(String),
    RxData(Vec<u8>),
    AppliedSettings(MonitorPortConfiguration),
    Success(bool),
}

/// `MonitorResponse`.
#[derive(Clone, Debug)]
pub struct MonitorResponse {
    pub message: Option<MonitorResponseMessage>,
}

/// A port over mathematical strings.
pub struct PortView {
    pub address: Seq<char>,
    pub label: Seq<char>,
    pub protocol: Seq<char>,
    pub properties: Seq<(Seq<char>, Seq<char>)>,
}

pub open spec fn pair_view(p: (String, String)) -> (Seq<char>, Seq<char>) {
    (p.0@, p.1@)
}

impl View for Port {
    type V = PortView;

    open spec fn view(&self) -> PortView {
        PortView {
            address: self.address@,
            label: self.label@,
            protocol: self.protocol@,
            properties: self.properties@.map_values(|p: (String, String)| pair_view(p)),
        }
    }
}

/// A detected port over mathematical strings: the matched boards' names and the
/// port.
pub struct DetectedPortView {
    pub board_names: Seq<Seq<char>>,
    pub port: Option<PortView>,
}

impl View for DetectedPort {
    type V = DetectedPortView;

    open spec fn view(&self) -> DetectedPortView {
        DetectedPortView {
            board_names: self.matching_boards@.map_values(|b: BoardListItem| b.name@),
            port: match self.port {
                Some(p) => Some(p@),
                None => None,
            },
        }
    }
}

} // verus!
