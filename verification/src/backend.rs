//! The backend: the side that is asked. It routes each request to a handler,
//! and sends up what the handler has to report.

use crate::command::{Command, Condition, WriteProcess};
use crate::ids::{ProcessId, RemoteId, WritePipe};
use crate::message::{
    RemoteRequest,
    RemoteResponse,
    Request,
    RequestBody,
    ResponseBody,
    ResponseView,
};
use crate::transport::{failure_of, logged, Transport};
use crate::wire::{response_wire, ser_to_frontend};
use std::collections::HashMap;
use vstd::prelude::*;

verus! {

/// What a backend does with the requests it receives.
///
/// `handled` is the handler's own account of a callback: of the handler
/// before and after it, of what was asked, and of how it ended.
pub trait BackendHandler: Sized {
    /// Whether a callback that was handed `asked`, on the handler `before`,
    /// may leave the handler as `after` and end as `res`.
    open spec fn handled(
        before: Self,
        asked: RequestBody,
        after: Self,
        res: Result<(), failure::Error>,
    ) -> bool {
        true
    }

    /// Start a command once the gates of `block_for` are open. The process
    /// comes as this side holds it: its input to read, its outputs to write.
    fn begin_command(
        &mut self,
        block_for: HashMap<usize, Condition>,
        process: WriteProcess,
        command: Command,
    ) -> (res: Result<(), failure::Error>)
        ensures
            Self::handled(
                *old(self),
                RequestBody::BeginCommand {
                    block_for: block_for@,
                    process: process@,
                    command: command@,
                },
                *final(self),
                res,
            ),
    ;

    /// Stop a process, or forget it.
    fn cancel_command(&mut self, id: ProcessId) -> (res: Result<(), failure::Error>)
        ensures
            Self::handled(*old(self), RequestBody::CancelCommand { id: id@ }, *final(self), res),
    ;

    /// Set up a remote.
    fn begin_remote(&mut self, id: usize, command: Command) -> (res: Result<(), failure::Error>)
        ensures
            Self::handled(
                *old(self),
                RequestBody::BeginRemote { id, command: command@ },
                *final(self),
                res,
            ),
    ;

    /// Open a file for writing; what is written to the pipe goes to the file.
    fn open_file(&mut self, id: WritePipe, path: String) -> (res: Result<(), failure::Error>)
        ensures
            Self::handled(
                *old(self),
                RequestBody::OpenFile { id: id@, path: path@ },
                *final(self),
                res,
            ),
    ;

    /// Tear down a remote.
    fn end_remote(&mut self, id: usize) -> (res: Result<(), failure::Error>)
        ensures
            Self::handled(*old(self), RequestBody::EndRemote { id }, *final(self), res),
    ;

    /// List a directory, and report its entries once.
    fn list_directory(&mut self, id: usize, path: String) -> (res: Result<(), failure::Error>)
        ensures
            Self::handled(
                *old(self),
                RequestBody::ListDirectory { id, path: path@ },
                *final(self),
                res,
            ),
    ;

    /// The new content of a file whose edit was asked for.
    fn finish_edit(&mut self, id: usize, data: Vec<u8>) -> (res: Result<(), failure::Error>)
        ensures
            Self::handled(
                *old(self),
                RequestBody::FinishEdit { id, data: data@ },
                *final(self),
                res,
            ),
    ;

    /// Bytes that were written to a pipe.
    fn pipe_data(&mut self, id: usize, data: Vec<u8>) -> (res: Result<(), failure::Error>)
        ensures
            Self::handled(
                *old(self),
                RequestBody::PipeData { id, data: data@ },
                *final(self),
                res,
            ),
    ;

    /// The reader of a pipe is ready for about `count_bytes` more bytes.
    fn pipe_read(&mut self, id: usize, count_bytes: usize) -> (res: Result<(), failure::Error>)
        ensures
            Self::handled(
                *old(self),
                RequestBody::PipeRead { id, count_bytes },
                *final(self),
                res,
            ),
    ;
}

impl Request {
    /// Hands the request to the handler: to the one callback that is meant
    /// for what the request asks. A process is handed over as the running
    /// side holds it, with the numbers it has on the wire.
    pub fn route<H: BackendHandler>(self, handler: &mut H) -> (res: Result<(), failure::Error>)
        ensures
            H::handled(*old(handler), self@.message, *final(handler), res),
    {
        match self.message.0 {
            RemoteRequest::BeginCommand { block_for, process, command } => handler.begin_command(
                block_for,
                process.backend_side(),
                command,
            ),
            RemoteRequest::CancelCommand { id } => handler.cancel_command(id),
            RemoteRequest::BeginRemote { id, command } => handler.begin_remote(id, command),
            RemoteRequest::OpenFile { id, path } => handler.open_file(WritePipe::new(id), path),
            RemoteRequest::EndRemote { id } => handler.end_remote(id),
            RemoteRequest::ListDirectory { id, path } => handler.list_directory(id, path),
            RemoteRequest::FinishEdit { id, data } => handler.finish_edit(id, data),
            RemoteRequest::PipeData { id, data } => handler.pipe_data(id, data),
            RemoteRequest::PipeRead { id, count_bytes } => handler.pipe_read(id, count_bytes),
        }
    }
}

/// The backend of a session. It keeps no books; everything it sends is
/// addressed to the root remote, number 0.
pub struct Backend<T: Transport> {
    pub trans: T,
}

impl<T: Transport + Default> Default for Backend<T> {
    /// A backend that sends through the transport's default.
    fn default() -> (backend: Backend<T>) {
        Backend { trans: T::default() }
    }
}

impl<T: Transport> Backend<T> {
    /// A backend that sends through `trans`.
    pub fn new(trans: T) -> (backend: Backend<T>)
        ensures
            backend.trans == trans,
    {
        Backend { trans }
    }

    /// Hands one response to the transport, addressed to the root.
    fn emit(&mut self, message: RemoteResponse) -> (res: Result<(), failure::Error>)
        ensures
            logged(
                old(self).trans.log(),
                final(self).trans.log(),
                response_wire(ResponseView { remote_id: 0, message: message@ }),
                failure_of(res),
            ),
    {
        let bytes: Vec<u8> = ser_to_frontend(RemoteId::new(0), message);
        self.trans.send(bytes.as_slice())
    }

    /// Reports bytes that a process wrote to `id`: one `PipeData` response.
    pub fn pipe(&mut self, id: WritePipe, data: Vec<u8>) -> (res: Result<(), failure::Error>)
        ensures
            logged(
                old(self).trans.log(),
                final(self).trans.log(),
                response_wire(
                    ResponseView {
                        remote_id: 0,
                        message: ResponseBody::PipeData { id: id@, data: data@ },
                    },
                ),
                failure_of(res),
            ),
    {
        self.emit(RemoteResponse::PipeData { id: id.number(), data })
    }

    /// Reports that the process `id` has ended: one `CommandDone` response.
    pub fn command_done(&mut self, id: ProcessId, exit_code: i64) -> (res: Result<
        (),
        failure::Error,
    >)
        ensures
            logged(
                old(self).trans.log(),
                final(self).trans.log(),
                response_wire(
                    ResponseView {
                        remote_id: 0,
                        message: ResponseBody::CommandDone { id: id@, exit_code },
                    },
                ),
                failure_of(res),
            ),
    {
        self.emit(RemoteResponse::CommandDone { id, exit_code })
    }

    /// Reports the entries of a directory: one `DirectoryListing` response.
    pub fn directory_listing(&mut self, id: usize, items: Vec<String>) -> (res: Result<
        (),
        failure::Error,
    >)
        ensures
            logged(
                old(self).trans.log(),
                final(self).trans.log(),
                response_wire(
                    ResponseView {
                        remote_id: 0,
                        message: ResponseBody::DirectoryListing { id, items: items.deep_view() },
                    },
                ),
                failure_of(res),
            ),
    {
        self.emit(RemoteResponse::DirectoryListing { id, items })
    }

    /// Asks the endpoint to have a file edited: one `EditRequest` response.
    pub fn edit_request(
        &mut self,
        command_id: ProcessId,
        edit_id: usize,
        name: String,
        data: Vec<u8>,
    ) -> (res: Result<(), failure::Error>)
        ensures
            logged(
                old(self).trans.log(),
                final(self).trans.log(),
                response_wire(
                    ResponseView {
                        remote_id: 0,
                        message: ResponseBody::EditRequest {
                            command_id: command_id@,
                            edit_id,
                            name: name@,
                            data: data@,
                        },
                    },
                ),
                failure_of(res),
            ),
    {
        self.emit(RemoteResponse::EditRequest { command_id, edit_id, name, data })
    }
}

} // verus!
