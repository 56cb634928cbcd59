//! The endpoint: the side that starts remotes, commands and files, and that
//! receives what comes back.
//!
//! An operation that is asked of something the endpoint does not know (a
//! remote that is not open, a process that is not registered, a handle that
//! was used up) is a mistake of the caller, not a failure of the session. The
//! operations rule it out by `requires`; `is_remote`, `parent`, `owner`,
//! `is_open`, `ids_left` and `accepts` let a caller test for it. The one thing
//! that can fail at run time is the transport, and its error is passed on as
//! it is.
//!
//! Nothing is cleaned up behind the caller's back. Closing a remote closes
//! that remote only: its processes stay registered, and since a process can be
//! closed or answered only while its remote is open, they stay for good; a
//! caller closes the processes first. An open pipe stays open until a command
//! takes it as its output; the end of a stream closes nothing here.

use crate::command::{AbstractProcess, Command, Condition, ReadProcess};
use vstd::pervasive::unreached;
use crate::ids::{Handle, Ids, ProcessId, ReadPipe, RemoteId, WritePipe};
use crate::message::{
    RemoteRequest,
    RemoteResponse,
    RequestBody,
    RequestView,
    Response,
    ResponseBody,
};
use crate::registry::{lemma_step_preserves, Op, Registry};
use crate::transport::{failure_of, logged, Transport};
use crate::wire::{request_wire, ser_to_endpoint};
use std::collections::{HashMap, HashSet};
use vstd::prelude::*;

verus! {

/// What an endpoint does with the responses it receives.
///
/// Each callback is handed the endpoint itself, and may use it. `handled` is
/// the handler's own account of a callback: of the endpoint before and after
/// it, of what was delivered, and of how it ended.
pub trait EndpointHandler<T: Transport>: Sized {
    /// Whether a callback that was handed `delivered`, on the endpoint
    /// `before`, may leave the endpoint as `after` and end as `res`.
    open spec fn handled(
        before: Endpoint<T, Self>,
        delivered: ResponseBody,
        after: Endpoint<T, Self>,
        res: Result<(), failure::Error>,
    ) -> bool {
        true
    }

    /// A process has ended.
    fn command_done(endpoint: &mut Endpoint<T, Self>, id: ProcessId, exit_code: i64) -> (res:
        Result<(), failure::Error>)
        requires
            old(endpoint)@.wf(),
        ensures
            final(endpoint)@.wf(),
            Self::handled(
                *old(endpoint),
                ResponseBody::CommandDone { id: id@, exit_code },
                *final(endpoint),
                res,
            ),
    ;

    /// The entries of a directory that was asked for.
    fn directory_listing(endpoint: &mut Endpoint<T, Self>, id: usize, items: Vec<String>) -> (res:
        Result<(), failure::Error>)
        requires
            old(endpoint)@.wf(),
        ensures
            final(endpoint)@.wf(),
            Self::handled(
                *old(endpoint),
                ResponseBody::DirectoryListing { id, items: items.deep_view() },
                *final(endpoint),
                res,
            ),
    ;

    /// A process asks for a file to be edited.
    fn edit_request(
        endpoint: &mut Endpoint<T, Self>,
        edit_id: usize,
        command_id: ProcessId,
        name: String,
        data: Vec<u8>,
    ) -> (res: Result<(), failure::Error>)
        requires
            old(endpoint)@.wf(),
        ensures
            final(endpoint)@.wf(),
            Self::handled(
                *old(endpoint),
                ResponseBody::EditRequest {
                    command_id: command_id@,
                    edit_id,
                    name: name@,
                    data: data@,
                },
                *final(endpoint),
                res,
            ),
    ;

    /// Bytes have arrived on an open pipe that the endpoint reads.
    fn pipe(endpoint: &mut Endpoint<T, Self>, id: ReadPipe, data: Vec<u8>) -> (res: Result<
        (),
        failure::Error,
    >)
        requires
            old(endpoint)@.wf(),
            old(endpoint)@.pipes.contains(id@),
        ensures
            final(endpoint)@.wf(),
            Self::handled(
                *old(endpoint),
                ResponseBody::PipeData { id: id@, data: data@ },
                *final(endpoint),
                res,
            ),
    ;

    /// The far side is ready to take `count_bytes` bytes on an open pipe that
    /// the endpoint writes.
    fn pipe_read(endpoint: &mut Endpoint<T, Self>, id: WritePipe, count_bytes: usize) -> (res:
        Result<(), failure::Error>)
        requires
            old(endpoint)@.wf(),
            old(endpoint)@.pipes.contains(id@),
        ensures
            final(endpoint)@.wf(),
            Self::handled(
                *old(endpoint),
                ResponseBody::PipeRead { id: id@, count_bytes },
                *final(endpoint),
                res,
            ),
    ;
}

/// The endpoint of a session. Its view is its bookkeeping.
pub struct Endpoint<T, H> {
    pub trans: T,
    pub handler: H,
    ids: Ids,
    remotes: HashMap<usize, Option<usize>>,
    jobs: HashMap<usize, usize>,
    pipes: HashSet<usize>,
}

impl<T, H> View for Endpoint<T, H> {
    type V = Registry;

    closed spec fn view(&self) -> Registry {
        Registry {
            next_id: self.ids@,
            remotes: self.remotes@,
            processes: self.jobs@,
            pipes: self.pipes@,
        }
    }
}

/// The number of the pipe behind a handle that may be absent.
pub open spec fn pipe_of(redirect: Option<Handle>) -> Option<usize> {
    match redirect {
        Some(handle) => Some(handle@),
        None => None,
    }
}

impl<T, H> Endpoint<T, H> {
    /// The endpoint's transport.
    pub closed spec fn transport(&self) -> T {
        self.trans
    }

    /// The endpoint's handler.
    pub closed spec fn handling(&self) -> H {
        self.handler
    }
}

impl<T: Transport, H: EndpointHandler<T>> Endpoint<T, H> {
    /// An endpoint with the root remote open and nothing else.
    pub fn new(trans: T, handler: H) -> (endpoint: Endpoint<T, H>)
        ensures
            endpoint@ == Registry::initial(),
            endpoint@.wf(),
            endpoint.transport() == trans,
            endpoint.handling() == handler,
    {
        broadcast use vstd::std_specs::hash::group_hash_axioms;

        let mut remotes: HashMap<usize, Option<usize>> = HashMap::new();
        remotes.insert(0, None);
        let endpoint = Endpoint {
            trans,
            handler,
            ids: Ids::new(),
            remotes,
            jobs: HashMap::new(),
            pipes: HashSet::new(),
        };
        assert(endpoint@.remotes =~= Registry::initial().remotes);
        assert(endpoint@.processes =~= Registry::initial().processes);
        assert(endpoint@.pipes =~= Registry::initial().pipes);
        endpoint
    }

    /// The root remote.
    pub fn root(&self) -> (root: RemoteId)
        ensures
            root@ == 0,
    {
        RemoteId::new(0)
    }

    /// Whether `remote` is open.
    pub fn is_remote(&self, remote: RemoteId) -> (open: bool)
        ensures
            open == self@.remotes.contains_key(remote@),
    {
        broadcast use vstd::std_specs::hash::group_hash_axioms;

        self.remotes.contains_key(&remote.number())
    }

    /// The parent of `remote`, if `remote` is open and not the root.
    pub fn parent(&self, remote: RemoteId) -> (parent: Option<RemoteId>)
        ensures
            match parent {
                Some(p) => self@.remotes.contains_key(remote@) && self@.remotes[remote@] == Some(
                    p@,
                ),
                None => !self@.remotes.contains_key(remote@) || self@.remotes[remote@] is None,
            },
    {
        broadcast use vstd::std_specs::hash::group_hash_axioms;

        match self.remotes.get(&remote.number()) {
            Some(Some(parent)) => Some(RemoteId::new(*parent)),
            _ => None,
        }
    }

    /// The remote that owns the process `id`, if the process is registered.
    pub fn owner(&self, id: ProcessId) -> (owner: Option<RemoteId>)
        ensures
            match owner {
                Some(o) => self@.processes.contains_key(id@) && self@.processes[id@] == o@,
                None => !self@.processes.contains_key(id@),
            },
    {
        broadcast use vstd::std_specs::hash::group_hash_axioms;

        match self.jobs.get(&id.number()) {
            Some(owner) => Some(RemoteId::new(*owner)),
            None => None,
        }
    }

    /// Whether the pipe with this number is open.
    pub fn is_open(&self, pipe: usize) -> (open: bool)
        ensures
            open == self@.pipes.contains(pipe),
    {
        broadcast use vstd::std_specs::hash::group_hash_axioms;

        self.pipes.contains(&pipe)
    }

    /// How many identifiers the endpoint can still issue.
    pub fn ids_left(&self) -> (left: usize)
        ensures
            left == usize::MAX - self@.next_id,
    {
        self.ids.remaining()
    }

    /// Whether `message` may be handed to `receive`.
    pub fn accepts(&self, message: &Response) -> (accepted: bool)
        ensures
            accepted == self@.accepts(message@.message),
    {
        match &message.message.0 {
            RemoteResponse::PipeData { id, .. } => self.is_open(*id),
            RemoteResponse::PipeRead { id, .. } => self.is_open(*id),
            _ => true,
        }
    }

    /// Hands the transport the one request that asks `remote` for `message`.
    fn emit(&mut self, remote: RemoteId, message: RemoteRequest) -> (res: Result<
        (),
        failure::Error,
    >)
        ensures
            final(self)@ == old(self)@,
            final(self).handling() == old(self).handling(),
            logged(
                old(self).transport().log(),
                final(self).transport().log(),
                request_wire(RequestView { remote_id: remote@, message: message@ }),
                failure_of(res),
            ),
    {
        let bytes: Vec<u8> = ser_to_endpoint(remote, message);
        self.trans.send(bytes.as_slice())
    }

    /// Opens a remote under `remote`, which is to be set up by `command`.
    ///
    /// One `BeginRemote` request goes to `remote`. The new remote's number is
    /// spent whether or not the transport takes the request, and the remote is
    /// registered only if it does.
    pub fn remote(&mut self, remote: RemoteId, command: Command) -> (res: Result<
        RemoteId,
        failure::Error,
    >)
        requires
            old(self)@.wf(),
            old(self)@.admits(Op::Remote { parent: remote@ }),
        ensures
            final(self)@ == old(self)@.after(Op::Remote { parent: remote@ }, res is Ok),
            final(self)@.wf(),
            res matches Ok(id) ==> id@ == old(self)@.next_id,
            logged(
                old(self).transport().log(),
                final(self).transport().log(),
                request_wire(
                    RequestView {
                        remote_id: remote@,
                        message: RequestBody::BeginRemote {
                            id: old(self)@.next_id as usize,
                            command: command@,
                        },
                    },
                ),
                failure_of(res),
            ),
            final(self).handling() == old(self).handling(),
    {
        broadcast use vstd::std_specs::hash::group_hash_axioms;

        proof {
            lemma_step_preserves(old(self)@, Op::Remote { parent: remote@ }, true);
            lemma_step_preserves(old(self)@, Op::Remote { parent: remote@ }, false);
        }
        let id: usize = self.ids.next_id();
        let sent = self.emit(remote, RemoteRequest::BeginRemote { id, command });
        self.settle_remote(id, remote, sent)
    }

    /// What follows the `send` of `remote`: the remote is registered where
    /// the transport took the request, and the transport's error is passed on
    /// where it did not.
    fn settle_remote(&mut self, id: usize, parent: RemoteId, sent: Result<(), failure::Error>) -> (res:
        Result<RemoteId, failure::Error>)
        ensures
            failure_of(res) == failure_of(sent),
            res matches Ok(made) ==> made@ == id,
            final(self)@ == (Registry {
                remotes: if sent is Ok {
                    old(self)@.remotes.insert(id, Some(parent@))
                } else {
                    old(self)@.remotes
                },
                ..old(self)@
            }),
            final(self).transport() == old(self).transport(),
            final(self).handling() == old(self).handling(),
    {
        broadcast use vstd::std_specs::hash::group_hash_axioms;

        match sent {
            Ok(_) => {
                self.remotes.insert(id, Some(parent.number()));
                Ok(RemoteId::new(id))
            },
            Err(error) => Err(error),
        }
    }

    /// Starts `command` in `remote`, behind the gates of `block_for`.
    ///
    /// The process and its input and error pipes get fresh numbers. Its
    /// output pipe is the one behind `redirect`, which is closed by this, or a
    /// fresh one. The fresh output and error pipes are open afterwards. One
    /// `BeginCommand` request goes to `remote`; the process is registered only
    /// if the transport takes it.
    pub fn command(
        &mut self,
        remote: RemoteId,
        command: Command,
        block_for: HashMap<usize, Condition>,
        redirect: Option<Handle>,
    ) -> (res: Result<ReadProcess, failure::Error>)
        requires
            old(self)@.wf(),
            old(self)@.admits(Op::Command { remote: remote@, redirect: pipe_of(redirect) }),
        ensures
            final(self)@ == old(self)@.after(
                Op::Command { remote: remote@, redirect: pipe_of(redirect) },
                res is Ok,
            ),
            final(self)@.wf(),
            res matches Ok(process) ==> process@ == old(self)@.command_wiring(pipe_of(redirect)),
            logged(
                old(self).transport().log(),
                final(self).transport().log(),
                request_wire(
                    RequestView {
                        remote_id: remote@,
                        message: RequestBody::BeginCommand {
                            block_for: block_for@,
                            process: old(self)@.command_wiring(pipe_of(redirect)),
                            command: command@,
                        },
                    },
                ),
                failure_of(res),
            ),
            final(self).handling() == old(self).handling(),
    {
        broadcast use vstd::std_specs::hash::group_hash_axioms;

        let ghost op = Op::Command { remote: remote@, redirect: pipe_of(redirect) };
        proof {
            lemma_step_preserves(old(self)@, op, true);
            lemma_step_preserves(old(self)@, op, false);
        }
        let id: ProcessId = ProcessId::new(self.ids.next_id());
        let stdin_pipe: usize = self.ids.next_id();
        let stdout_pipe: usize = match redirect {
            Some(handle) => {
                self.pipes.remove(&handle.number());
                handle.number()
            },
            None => {
                let fresh: usize = self.ids.next_id();
                self.pipes.insert(fresh);
                fresh
            },
        };
        let stderr_pipe: usize = self.ids.next_id();
        self.pipes.insert(stderr_pipe);
        let process = AbstractProcess {
            id,
            stdin: stdin_pipe,
            stdout: stdout_pipe,
            stderr: stderr_pipe,
        };
        assert(self@.pipes =~= old(self)@.after(op, false).pipes);
        let sent = self.emit(remote, RemoteRequest::BeginCommand { block_for, process, command });
        self.settle_command(process, remote, sent)
    }

    /// What follows the `send` of `command`: the process is registered where
    /// the transport took the request, and the transport's error is passed on
    /// where it did not.
    fn settle_command(
        &mut self,
        process: AbstractProcess,
        owner: RemoteId,
        sent: Result<(), failure::Error>,
    ) -> (res: Result<ReadProcess, failure::Error>)
        ensures
            failure_of(res) == failure_of(sent),
            res matches Ok(started) ==> started@ == process@,
            final(self)@ == (Registry {
                processes: if sent is Ok {
                    old(self)@.processes.insert(process@.id, owner@)
                } else {
                    old(self)@.processes
                },
                ..old(self)@
            }),
            final(self).transport() == old(self).transport(),
            final(self).handling() == old(self).handling(),
    {
        broadcast use vstd::std_specs::hash::group_hash_axioms;

        match sent {
            Ok(_) => {
                self.jobs.insert(process.id.number(), owner.number());
                Ok(process.endpoint_side())
            },
            Err(error) => Err(error),
        }
    }

    /// Opens the file at `path` in `remote` for writing.
    ///
    /// The file's pipe gets a fresh number and is open afterwards, whether or
    /// not the transport takes the one `OpenFile` request that goes to
    /// `remote`.
    pub fn open_file(&mut self, remote: RemoteId, path: String) -> (res: Result<
        Handle,
        failure::Error,
    >)
        requires
            old(self)@.wf(),
            old(self)@.admits(Op::OpenFile { remote: remote@ }),
        ensures
            final(self)@ == old(self)@.after(Op::OpenFile { remote: remote@ }, res is Ok),
            final(self)@.wf(),
            res matches Ok(handle) ==> handle@ == old(self)@.next_id,
            logged(
                old(self).transport().log(),
                final(self).transport().log(),
                request_wire(
                    RequestView {
                        remote_id: remote@,
                        message: RequestBody::OpenFile {
                            id: old(self)@.next_id as usize,
                            path: path@,
                        },
                    },
                ),
                failure_of(res),
            ),
            final(self).handling() == old(self).handling(),
    {
        broadcast use vstd::std_specs::hash::group_hash_axioms;

        proof {
            lemma_step_preserves(old(self)@, Op::OpenFile { remote: remote@ }, true);
        }
        let id: usize = self.ids.next_id();
        self.pipes.insert(id);
        let sent = self.emit(remote, RemoteRequest::OpenFile { id, path });
        Self::settle_open_file(id, sent)
    }

    /// What follows the `send` of `open_file`: the handle is given out where
    /// the transport took the request, and the transport's error is passed on
    /// where it did not.
    fn settle_open_file(id: usize, sent: Result<(), failure::Error>) -> (res: Result<
        Handle,
        failure::Error,
    >)
        ensures
            failure_of(res) == failure_of(sent),
            res matches Ok(handle) ==> handle@ == id,
    {
        match sent {
            Ok(_) => Ok(Handle::new(id)),
            Err(error) => Err(error),
        }
    }

    /// Closes `remote`, which is not the root.
    ///
    /// The remote is no longer open afterwards, whether or not the transport
    /// takes the one `EndRemote` request that goes to the remote's parent.
    /// Processes that the remote owns stay registered; they can no longer be
    /// closed or answered.
    pub fn close_remote(&mut self, remote: RemoteId) -> (res: Result<(), failure::Error>)
        requires
            old(self)@.wf(),
            old(self)@.admits(Op::CloseRemote { remote: remote@ }),
        ensures
            final(self)@ == old(self)@.after(Op::CloseRemote { remote: remote@ }, res is Ok),
            final(self)@.wf(),
            logged(
                old(self).transport().log(),
                final(self).transport().log(),
                request_wire(
                    RequestView {
                        remote_id: old(self)@.addressee(Op::CloseRemote { remote: remote@ }),
                        message: RequestBody::EndRemote { id: remote@ },
                    },
                ),
                failure_of(res),
            ),
            final(self).handling() == old(self).handling(),
    {
        broadcast use vstd::std_specs::hash::group_hash_axioms;

        proof {
            lemma_step_preserves(old(self)@, Op::CloseRemote { remote: remote@ }, true);
        }
        let parent: usize = match self.remotes.remove(&remote.number()) {
            Some(Some(parent)) => parent,
            _ => unreached(),
        };
        self.emit(RemoteId::new(parent), RemoteRequest::EndRemote { id: remote.number() })
    }

    /// Closes the process `id`, whose owning remote is open.
    ///
    /// The process is no longer registered afterwards, whether or not the
    /// transport takes the one `CancelCommand` request that goes to the
    /// remote that owns the process.
    pub fn close_process(&mut self, id: ProcessId) -> (res: Result<(), failure::Error>)
        requires
            old(self)@.wf(),
            old(self)@.admits(Op::CloseProcess { process: id@ }),
        ensures
            final(self)@ == old(self)@.after(Op::CloseProcess { process: id@ }, res is Ok),
            final(self)@.wf(),
            logged(
                old(self).transport().log(),
                final(self).transport().log(),
                request_wire(
                    RequestView {
                        remote_id: old(self)@.addressee(Op::CloseProcess { process: id@ }),
                        message: RequestBody::CancelCommand { id: id@ },
                    },
                ),
                failure_of(res),
            ),
            final(self).handling() == old(self).handling(),
    {
        broadcast use vstd::std_specs::hash::group_hash_axioms;

        proof {
            lemma_step_preserves(old(self)@, Op::CloseProcess { process: id@ }, true);
        }
        let owner: usize = match self.jobs.remove(&id.number()) {
            Some(owner) => owner,
            None => unreached(),
        };
        self.emit(RemoteId::new(owner), RemoteRequest::CancelCommand { id })
    }

    /// Answers the edit `edit_id` that the process `command_id` asked for,
    /// with the file's new content.
    ///
    /// One `FinishEdit` request goes to the remote that owns the process.
    /// Nothing is registered or forgotten.
    pub fn finish_edit(&mut self, command_id: ProcessId, edit_id: usize, data: Vec<u8>) -> (res:
        Result<(), failure::Error>)
        requires
            old(self)@.wf(),
            old(self)@.admits(Op::FinishEdit { process: command_id@ }),
        ensures
            final(self)@ == old(self)@,
            logged(
                old(self).transport().log(),
                final(self).transport().log(),
                request_wire(
                    RequestView {
                        remote_id: old(self)@.addressee(Op::FinishEdit { process: command_id@ }),
                        message: RequestBody::FinishEdit { id: edit_id, data: data@ },
                    },
                ),
                failure_of(res),
            ),
            final(self).handling() == old(self).handling(),
    {
        broadcast use vstd::std_specs::hash::group_hash_axioms;

        let owner: usize = match self.jobs.get(&command_id.number()) {
            Some(owner) => *owner,
            None => unreached(),
        };
        self.emit(RemoteId::new(owner), RemoteRequest::FinishEdit { id: edit_id, data })
    }

    /// Hands a response to the handler: to the one callback that is meant
    /// for what the response reports.
    pub fn receive(&mut self, message: Response) -> (res: Result<(), failure::Error>)
        requires
            old(self)@.wf(),
            old(self)@.accepts(message@.message),
        ensures
            final(self)@.wf(),
            H::handled(*old(self), message@.message, *final(self), res),
    {
        match message.message.0 {
            RemoteResponse::CommandDone { id, exit_code } => H::command_done(self, id, exit_code),
            RemoteResponse::DirectoryListing { id, items } => H::directory_listing(
                self,
                id,
                items,
            ),
            RemoteResponse::EditRequest { command_id, edit_id, name, data } => H::edit_request(
                self,
                edit_id,
                command_id,
                name,
                data,
            ),
            RemoteResponse::PipeData { id, data } => H::pipe(self, ReadPipe::new(id), data),
            RemoteResponse::PipeRead { id, count_bytes } => H::pipe_read(
                self,
                WritePipe::new(id),
                count_bytes,
            ),
        }
    }
}

} // verus!
