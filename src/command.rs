//! The wire vocabulary: commands sent by a controller, the results sent back,
//! and the device records that fleet snapshots carry.
use vstd::prelude::*;
use crate::ident::{format_id, id_text};

verus! {

/// What an output plays.
pub enum VideoMode {
    TestCard(String),
    Stream(String),
}

/// A command sent by a controller; devices are named by identifier.
#[derive(Clone, Copy, PartialEq, Eq, Structural, Debug)]
pub enum Command {
    Ping {},
    Start { device_id: u128 },
    Stop { device_id: u128 },
}

/// Coarse lifecycle state of an output's pipeline.
#[derive(Clone, Copy, PartialEq, Eq, Structural, Debug)]
pub enum DeviceState {
    Null,
    Ready,
    Paused,
    Playing,
}

/// One fleet slot: its identifier, physical output number and state.
#[derive(Clone, Copy, PartialEq, Eq, Structural, Debug)]
pub struct Device {
    pub id: u128,
    pub device_num: u16,
    pub state: DeviceState,
}

/// The outcome of a command, or an unsolicited notice.
#[derive(Debug)]
pub enum CommandResult {
    Error(String),
    Success,
    Pong,
    Sync(Vec<Device>),
}

/// Mathematical form of a `CommandResult`.
pub enum ResultView {
    Error(Seq<char>),
    Success,
    Pong,
    Sync(Seq<Device>),
}

impl View for CommandResult {
    type V = ResultView;

    open spec fn view(&self) -> ResultView {
        match self {
            CommandResult::Error(m) => ResultView::Error(m@),
            CommandResult::Success => ResultView::Success,
            CommandResult::Pong => ResultView::Pong,
            CommandResult::Sync(d) => ResultView::Sync(d@),
        }
    }
}

/// A message from the server; `id` is `None` for unsolicited messages.
#[derive(Debug)]
pub struct ServerMessage {
    pub id: Option<String>,
    pub result: CommandResult,
}

/// Mathematical form of a `ServerMessage`.
pub struct ServerMessageView {
    pub id: Option<Seq<char>>,
    pub result: ResultView,
}

impl View for ServerMessage {
    type V = ServerMessageView;

    open spec fn view(&self) -> ServerMessageView {
        ServerMessageView {
            id: match self.id {
                Some(s) => Some(s@),
                None => None,
            },
            result: self.result@,
        }
    }
}

/// A request from a controller: an opaque correlation id and a command.
#[derive(Debug)]
pub struct ControllerMessage {
    pub id: String,
    pub command: Command,
}

/// The state that a node reports.
#[derive(Clone, Copy, PartialEq, Eq, Structural, Debug)]
pub struct NodeState {
    pub state: DeviceState,
}

/// Text of the error for a device identifier that names no node.
pub open spec fn no_node_text(device_id: u128) -> Seq<char> {
    "no node with id "@ + id_text(device_id)
}

/// Text of the error for a failed dispatch to another actor.
pub open spec fn internal_error_text(detail: Seq<char>) -> Seq<char> {
    "internal server error: "@ + detail
}

/// Text of the error sent for a frame that does not decode.
pub open spec fn processing_error_text() -> Seq<char> {
    "Internal processing error"@
}

/// The error for a device identifier that names no node.
pub fn no_node_error(device_id: u128) -> (r: CommandResult)
    ensures
        r@ == ResultView::Error(no_node_text(device_id)),
{
    let text = String::from_str("no node with id ");
    let id = format_id(device_id);
    CommandResult::Error(text.concat(id.as_str()))
}

/// The error for a failed dispatch, carrying its detail.
pub fn internal_error(detail: &str) -> (r: CommandResult)
    ensures
        r@ == ResultView::Error(internal_error_text(detail@)),
{
    let text = String::from_str("internal server error: ");
    CommandResult::Error(text.concat(detail))
}

/// The unsolicited error sent for a frame that does not decode.
pub fn processing_error() -> (r: ServerMessage)
    ensures
        r@ == (ServerMessageView {
            id: None,
            result: ResultView::Error(processing_error_text()),
        }),
{
    ServerMessage { id: None, result: CommandResult::Error(String::from_str("Internal processing error")) }
}

} // verus!
