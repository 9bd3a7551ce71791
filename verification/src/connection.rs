//! The life of one connection, as a state machine.
//!
//! A connection serves one request. Whoever owns the socket and the file
//! system performs each action and reports what came of it as the next event;
//! `step` decides everything in between.

use vstd::prelude::*;
use vstd::slice::slice_to_vec;
use crate::handlers::{
    dir_bytes,
    file_response,
    handle_file,
    handle_file_upload,
    handle_request,
    plan,
    Step,
    StepModel,
};
use crate::request::{decode, HttpRequest};
use crate::response::{created_model, encode, HttpResponse};

verus! {

/// Where a connection stands.
#[derive(Clone, Copy, Debug, PartialEq, Eq, Structural)]
pub enum State {
    /// Nothing has been read yet.
    AwaitingRequest,
    /// A file read was asked for.
    AwaitingFileRead,
    /// A file write was asked for.
    AwaitingFileWrite,
    /// The connection is over.
    Closed,
}

/// What happened outside.
#[derive(Clone, Debug)]
pub enum Event {
    /// The one read of the connection returned these bytes.
    Received(Vec<u8>),
    /// The read failed.
    TransportFailed,
    /// The file read ended: with the bytes of the file, or without any when
    /// it could not be read.
    FileRead(Option<Vec<u8>>),
    /// The file write ended, well or not.
    FileWritten(bool),
}

/// What is to be done outside.
#[derive(Clone, Debug)]
pub enum Action {
    /// Close the connection without writing anything.
    Close,
    /// Write these bytes, then close the connection.
    Send(Vec<u8>),
    /// Read the file at `path` in full and report `Event::FileRead`.
    ReadFile { path: Vec<u8> },
    /// Create or truncate the file at `path`, write `content` to it in full
    /// and report `Event::FileWritten`.
    WriteFile { path: Vec<u8>, content: Vec<u8> },
}

/// The mathematical content of an event.
pub enum EventModel {
    Received(Seq<u8>),
    TransportFailed,
    FileRead(Option<Seq<u8>>),
    FileWritten(bool),
}

/// The mathematical content of an action.
pub enum ActionModel {
    Close,
    Send(Seq<u8>),
    ReadFile { path: Seq<u8> },
    WriteFile { path: Seq<u8>, content: Seq<u8> },
}

impl View for Event {
    type V = EventModel;

    open spec fn view(&self) -> EventModel {
        match self {
            Event::Received(data) => EventModel::Received(data@),
            Event::TransportFailed => EventModel::TransportFailed,
            Event::FileRead(Some(bytes)) => EventModel::FileRead(Some(bytes@)),
            Event::FileRead(None) => EventModel::FileRead(None),
            Event::FileWritten(written) => EventModel::FileWritten(*written),
        }
    }
}

impl View for Action {
    type V = ActionModel;

    open spec fn view(&self) -> ActionModel {
        match self {
            Action::Close => ActionModel::Close,
            Action::Send(bytes) => ActionModel::Send(bytes@),
            Action::ReadFile { path } => ActionModel::ReadFile { path: path@ },
            Action::WriteFile { path, content } => ActionModel::WriteFile {
                path: path@,
                content: content@,
            },
        }
    }
}

/// How a connection goes on once it is known what the request asks for.
pub open spec fn carry_out(step: StepModel) -> (State, ActionModel) {
    match step {
        StepModel::Respond(response) => (State::Closed, ActionModel::Send(encode(response))),
        StepModel::ReadFile { path } => (State::AwaitingFileRead, ActionModel::ReadFile { path }),
        StepModel::WriteFile { path, content } => (
            State::AwaitingFileWrite,
            ActionModel::WriteFile { path, content },
        ),
    }
}

/// The next state and the action to take, for every state and event.
///
/// A read that does not decode, a failed read, a failed file write and any
/// event that the state does not wait for close the connection without a
/// response.
pub open spec fn next(state: State, event: EventModel, dir: Option<Seq<u8>>) -> (
    State,
    ActionModel,
) {
    match (state, event) {
        (State::AwaitingRequest, EventModel::Received(data)) => match decode(data) {
            Ok(request) => carry_out(plan(request, dir)),
            Err(_) => (State::Closed, ActionModel::Close),
        },
        (State::AwaitingFileRead, EventModel::FileRead(contents)) => (
            State::Closed,
            ActionModel::Send(encode(file_response(contents))),
        ),
        (State::AwaitingFileWrite, EventModel::FileWritten(true)) => (
            State::Closed,
            ActionModel::Send(encode(created_model())),
        ),
        _ => (State::Closed, ActionModel::Close),
    }
}

/// `nom::AsBytes::as_bytes` on a byte slice: the view of a value as the bytes
/// to put on the wire. For a byte slice it hands back the slice itself.
#[verifier::external_body]
fn wire_bytes(encoded: &[u8]) -> (out: &[u8])
    ensures
        out@ == encoded@,
{
    nom::AsBytes::as_bytes(encoded)
}

/// The action that sends a response.
fn send(response: HttpResponse) -> (action: Action)
    ensures
        action@ == ActionModel::Send(encode(response@)),
{
    let encoded = response.to_byte_vector();
    Action::Send(slice_to_vec(wire_bytes(encoded.as_slice())))
}

/// Takes a connection one step further: from its state and what happened
/// outside to its next state and what is to be done.
pub fn step(state: State, event: Event, data_dir: Option<String>) -> (r: (State, Action))
    ensures
        (r.0, r.1@) == next(state, event@, dir_bytes(data_dir)),
{
    match (state, event) {
        (State::AwaitingRequest, Event::Received(data)) => {
            match HttpRequest::parse_request(data.as_slice()) {
                Ok(request) => match handle_request(request, data_dir) {
                    Step::Respond(response) => (State::Closed, send(response)),
                    Step::ReadFile { path } => (State::AwaitingFileRead, Action::ReadFile { path }),
                    Step::WriteFile { path, content } => (
                        State::AwaitingFileWrite,
                        Action::WriteFile { path, content },
                    ),
                },
                Err(_) => (State::Closed, Action::Close),
            }
        },
        (State::AwaitingFileRead, Event::FileRead(contents)) => (
            State::Closed,
            send(handle_file(contents)),
        ),
        (State::AwaitingFileWrite, Event::FileWritten(written)) => {
            match handle_file_upload(written) {
                Some(response) => (State::Closed, send(response)),
                None => (State::Closed, Action::Close),
            }
        },
        _ => (State::Closed, Action::Close),
    }
}

} // verus!
