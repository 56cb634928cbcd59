//! Requests and responses: a routing number and a payload.
//!
//! The payload of a request is not public. A request comes into being when an
//! endpoint operation emits it, or when bytes are decoded; nothing else can
//! make one.

use crate::command::{AbstractProcess, Command, CommandView, Condition, Wiring};
use crate::ids::ProcessId;
use std::collections::HashMap;
use vstd::prelude::*;

verus! {

/// What a request asks for, as a mathematical value.
pub enum RequestBody {
    BeginCommand { block_for: Map<usize, Condition>, process: Wiring, command: CommandView },
    CancelCommand { id: usize },
    BeginRemote { id: usize, command: CommandView },
    OpenFile { id: usize, path: Seq<char> },
    EndRemote { id: usize },
    ListDirectory { id: usize, path: Seq<char> },
    FinishEdit { id: usize, data: Seq<u8> },
    PipeData { id: usize, data: Seq<u8> },
    PipeRead { id: usize, count_bytes: usize },
}

/// A request as a mathematical value: the remote it is to run in, and what it
/// asks for.
pub struct RequestView {
    pub remote_id: usize,
    pub message: RequestBody,
}

/// What a response reports, as a mathematical value.
pub enum ResponseBody {
    CommandDone { id: usize, exit_code: i64 },
    DirectoryListing { id: usize, items: Seq<Seq<char>> },
    EditRequest { command_id: usize, edit_id: usize, name: Seq<char>, data: Seq<u8> },
    PipeData { id: usize, data: Seq<u8> },
    PipeRead { id: usize, count_bytes: usize },
}

/// A response as a mathematical value: the remote it is addressed to, and
/// what it reports.
pub struct ResponseView {
    pub remote_id: usize,
    pub message: ResponseBody,
}

#[derive(Clone, Debug, PartialEq)]
pub(crate) enum RemoteRequest {
    BeginCommand { block_for: HashMap<usize, Condition>, process: AbstractProcess, command: Command },
    CancelCommand { id: ProcessId },
    BeginRemote { id: usize, command: Command },
    OpenFile { id: usize, path: String },
    EndRemote { id: usize },
    ListDirectory { id: usize, path: String },
    FinishEdit { id: usize, data: Vec<u8> },
    PipeData { id: usize, data: Vec<u8> },
    PipeRead { id: usize, count_bytes: usize },
}

/// What a response reports.
#[derive(Clone, Debug, PartialEq)]
pub enum RemoteResponse {
    CommandDone { id: ProcessId, exit_code: i64 },
    DirectoryListing { id: usize, items: Vec<String> },
    EditRequest { command_id: ProcessId, edit_id: usize, name: String, data: Vec<u8> },
    PipeData { id: usize, data: Vec<u8> },
    PipeRead { id: usize, count_bytes: usize },
}

/// The sealed payload of a request.
#[derive(Clone, Debug, PartialEq)]
pub struct RemoteRequestEnvelope(pub(crate) RemoteRequest);

/// The sealed payload of a response.
#[derive(Clone, Debug, PartialEq)]
pub struct RemoteResponseEnvelope(pub(crate) RemoteResponse);

/// A message towards a backend.
#[derive(Clone, Debug, PartialEq)]
pub struct Request {
    pub remote_id: usize,
    pub message: RemoteRequestEnvelope,
}

/// A message towards an endpoint.
#[derive(Clone, Debug, PartialEq)]
pub struct Response {
    pub remote_id: usize,
    pub message: RemoteResponseEnvelope,
}

impl View for RemoteRequest {
    type V = RequestBody;

    open(crate) spec fn view(&self) -> RequestBody {
        match *self {
            RemoteRequest::BeginCommand { block_for, process, command } => RequestBody::BeginCommand {
                block_for: block_for@,
                process: process@,
                command: command@,
            },
            RemoteRequest::CancelCommand { id } => RequestBody::CancelCommand { id: id@ },
            RemoteRequest::BeginRemote { id, command } => RequestBody::BeginRemote {
                id,
                command: command@,
            },
            RemoteRequest::OpenFile { id, path } => RequestBody::OpenFile { id, path: path@ },
            RemoteRequest::EndRemote { id } => RequestBody::EndRemote { id },
            RemoteRequest::ListDirectory { id, path } => RequestBody::ListDirectory {
                id,
                path: path@,
            },
            RemoteRequest::FinishEdit { id, data } => RequestBody::FinishEdit { id, data: data@ },
            RemoteRequest::PipeData { id, data } => RequestBody::PipeData { id, data: data@ },
            RemoteRequest::PipeRead { id, count_bytes } => RequestBody::PipeRead {
                id,
                count_bytes,
            },
        }
    }
}

impl View for RemoteResponse {
    type V = ResponseBody;

    open spec fn view(&self) -> ResponseBody {
        match *self {
            RemoteResponse::CommandDone { id, exit_code } => ResponseBody::CommandDone {
                id: id@,
                exit_code,
            },
            RemoteResponse::DirectoryListing { id, items } => ResponseBody::DirectoryListing {
                id,
                items: items.deep_view(),
            },
            RemoteResponse::EditRequest { command_id, edit_id, name, data } => ResponseBody::EditRequest {
                command_id: command_id@,
                edit_id,
                name: name@,
                data: data@,
            },
            RemoteResponse::PipeData { id, data } => ResponseBody::PipeData { id, data: data@ },
            RemoteResponse::PipeRead { id, count_bytes } => ResponseBody::PipeRead {
                id,
                count_bytes,
            },
        }
    }
}

impl View for RemoteRequestEnvelope {
    type V = RequestBody;

    open(crate) spec fn view(&self) -> RequestBody {
        self.0@
    }
}

impl View for RemoteResponseEnvelope {
    type V = ResponseBody;

    open(crate) spec fn view(&self) -> ResponseBody {
        self.0@
    }
}

impl View for Request {
    type V = RequestView;

    open spec fn view(&self) -> RequestView {
        RequestView { remote_id: self.remote_id, message: self.message@ }
    }
}

impl View for Response {
    type V = ResponseView;

    open spec fn view(&self) -> ResponseView {
        ResponseView { remote_id: self.remote_id, message: self.message@ }
    }
}

impl Request {
    pub(crate) fn new(remote_id: usize, message: RemoteRequest) -> (request: Request)
        ensures
            request@ == (RequestView { remote_id, message: message@ }),
    {
        Request { remote_id, message: RemoteRequestEnvelope(message) }
    }
}

impl Response {
    pub(crate) fn new(remote_id: usize, message: RemoteResponse) -> (response: Response)
        ensures
            response@ == (ResponseView { remote_id, message: message@ }),
    {
        Response { remote_id, message: RemoteResponseEnvelope(message) }
    }
}

} // verus!
