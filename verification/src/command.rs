//! Commands, the gates a command can wait behind, and the two typed pictures
//! of a process's pipes.

use crate::ids::{ProcessId, ReadPipe, WritePipe};
use std::collections::HashMap;
use vstd::pervasive::unreached;
use vstd::prelude::*;
use vstd::std_specs::iter::IteratorSpec;

verus! {

/// A command as a mathematical value.
pub enum CommandView {
    Unknown(Seq<char>, Seq<Seq<char>>),
    SetDirectory(Seq<char>),
    Edit(Seq<char>),
}

impl CommandView {
    /// The command with `extra` put behind its arguments. Only `Unknown` has
    /// arguments; the other commands stay as they are.
    pub open spec fn with_args(self, extra: Seq<Seq<char>>) -> CommandView {
        match self {
            CommandView::Unknown(name, args) => CommandView::Unknown(name, args + extra),
            other => other,
        }
    }
}

/// Something a remote can be asked to run.
#[derive(Clone, Debug, PartialEq)]
pub enum Command {
    /// A program by name, with its arguments in order.
    Unknown(String, Vec<String>),
    SetDirectory(String),
    Edit(String),
}

impl View for Command {
    type V = CommandView;

    open spec fn view(&self) -> CommandView {
        match *self {
            Command::Unknown(name, args) => CommandView::Unknown(name@, args.deep_view()),
            Command::SetDirectory(path) => CommandView::SetDirectory(path@),
            Command::Edit(path) => CommandView::Edit(path@),
        }
    }
}

impl Command {
    /// Whether the command carries an argument list, so that `add_args` may
    /// be called on it.
    pub fn takes_args(&self) -> (takes: bool)
        ensures
            takes == (self@ is Unknown),
    {
        match self {
            Command::Unknown(_, _) => true,
            _ => false,
        }
    }

    /// Puts `new_args` behind the arguments the command already has.
    pub fn add_args(&mut self, new_args: Vec<String>)
        requires
            old(self)@ is Unknown,
        ensures
            final(self)@ == old(self)@.with_args(new_args.deep_view()),
    {
        let mut new_args = new_args;
        let ghost extra = new_args.deep_view();
        match self {
            Command::Unknown(_, args) => {
                let ghost before = args.deep_view();
                args.append(&mut new_args);
                assert(args.deep_view() =~= before + extra);
            },
            _ => {},
        }
    }
}

/// How a process ended.
#[derive(Copy, Clone, Debug, PartialEq, Eq, Hash, Structural)]
pub enum ExitStatus {
    Success,
    Failure,
}

/// What a command asks of a process it waits for: `None` asks only that the
/// process has ended, `Some(status)` that it has ended with that status.
pub type Condition = Option<ExitStatus>;

/// Whether a gate lets its command through, given what the awaited process
/// has reported: `None` while it is still running, its status once it ended.
pub open spec fn gate_open(condition: Condition, report: Option<ExitStatus>) -> bool {
    match report {
        None => false,
        Some(status) => match condition {
            None => true,
            Some(wanted) => wanted == status,
        },
    }
}

/// What a process has reported, given the status of every process that has
/// ended so far.
pub open spec fn report_of(ended: Map<usize, ExitStatus>, process: usize) -> Option<ExitStatus> {
    if ended.contains_key(process) {
        Some(ended[process])
    } else {
        None
    }
}

/// Whether a command that waits behind `block_for` may start, given the
/// status of every process that has ended so far: every one of its gates is
/// open.
pub open spec fn eligible(
    block_for: Map<usize, Condition>,
    ended: Map<usize, ExitStatus>,
) -> bool {
    forall|process: usize| #[trigger]
        block_for.contains_key(process) ==> gate_open(
            block_for[process],
            report_of(ended, process),
        )
}

/// Decides one gate.
pub fn gate_is_open(condition: Condition, report: Option<ExitStatus>) -> (open: bool)
    ensures
        open == gate_open(condition, report),
{
    match report {
        None => false,
        Some(status) => match condition {
            None => true,
            Some(wanted) => wanted == status,
        },
    }
}

/// The processes that a gate map names, each once, in no particular order.
pub(crate) fn gate_keys(block_for: &HashMap<usize, Condition>) -> (keys: Vec<usize>)
    ensures
        keys@.no_duplicates(),
        keys@.to_set() == block_for@.dom(),
{
    broadcast use vstd::std_specs::hash::group_hash_axioms;

    let mut keys: Vec<usize> = Vec::new();
    let ghost all: Seq<&usize> = block_for.keys().remaining();
    for key in it: block_for.keys()
        invariant
            it.seq() == all,
            keys@.len() == it.index(),
            forall|i: int| 0 <= i < keys@.len() ==> keys@[i] == *all[i],
    {
        keys.push(*key);
    }
    assert(keys@ =~= all.unref());
    keys
}

/// Decides whether a command that waits behind `block_for` may start.
pub fn is_eligible(block_for: &HashMap<usize, Condition>, ended: &HashMap<usize, ExitStatus>) -> (ready:
    bool)
    ensures
        ready == eligible(block_for@, ended@),
{
    broadcast use vstd::std_specs::hash::group_hash_axioms;

    let keys: Vec<usize> = gate_keys(block_for);
    let mut i: usize = 0;
    while i < keys.len()
        invariant
            i <= keys.len(),
            keys@.to_set() == block_for@.dom(),
            forall|k: int|
                0 <= k < i ==> gate_open(
                    block_for@[#[trigger] keys@[k]],
                    report_of(ended@, keys@[k]),
                ),
        decreases keys.len() - i,
    {
        let process: usize = keys[i];
        assert(keys@.to_set().contains(process));
        let condition: Condition = match block_for.get(&process) {
            Some(condition) => *condition,
            None => unreached(),
        };
        let report: Option<ExitStatus> = match ended.get(&process) {
            Some(status) => Some(*status),
            None => None,
        };
        if !gate_is_open(condition, report) {
            return false;
        }
        i = i + 1;
    }
    assert forall|process: usize| #[trigger] block_for@.contains_key(process) implies gate_open(
        block_for@[process],
        report_of(ended@, process),
    ) by {
        assert(keys@.to_set().contains(process));
        let k = choose|k: int| 0 <= k < keys@.len() && keys@[k] == process;
        assert(gate_open(block_for@[keys@[k]], report_of(ended@, keys@[k])));
    }
    true
}

/// A gate that asks for `Success` opens when the process reports `Success`
/// and at no other time: not while the process runs, and not when it reports
/// `Failure`. A command behind that one gate may start exactly then.
pub proof fn lemma_success_gate(process: usize, ended: Map<usize, ExitStatus>)
    ensures
        forall|report: Option<ExitStatus>|
            gate_open(Some(ExitStatus::Success), report) <==> report == Some(ExitStatus::Success),
        !gate_open(Some(ExitStatus::Success), Some(ExitStatus::Failure)),
        eligible(map![process => Some(ExitStatus::Success)], ended) <==> (ended.contains_key(
            process,
        ) && ended[process] == ExitStatus::Success),
{
    let block_for = map![process => Some(ExitStatus::Success)];
    assert(block_for.contains_key(process));
}

/// The numbers that tie a process to its three pipes, without direction.
pub struct Wiring {
    pub id: usize,
    pub stdin: usize,
    pub stdout: usize,
    pub stderr: usize,
}

/// A process as the side that runs it sees it: it reads the input pipe and
/// writes the two output pipes.
#[derive(Copy, Clone, Debug, PartialEq)]
pub struct WriteProcess {
    pub id: ProcessId,
    pub stdin: ReadPipe,
    pub stdout: WritePipe,
    pub stderr: WritePipe,
}

/// A process as the side that started it sees it: it writes the input pipe
/// and reads the two output pipes.
#[derive(Copy, Clone, Debug, PartialEq)]
pub struct ReadProcess {
    pub id: ProcessId,
    pub stdin: WritePipe,
    pub stdout: ReadPipe,
    pub stderr: ReadPipe,
}

impl View for WriteProcess {
    type V = Wiring;

    open spec fn view(&self) -> Wiring {
        Wiring { id: self.id@, stdin: self.stdin@, stdout: self.stdout@, stderr: self.stderr@ }
    }
}

impl View for ReadProcess {
    type V = Wiring;

    open spec fn view(&self) -> Wiring {
        Wiring { id: self.id@, stdin: self.stdin@, stdout: self.stdout@, stderr: self.stderr@ }
    }
}

/// A process as it travels: its identifier and three bare pipe numbers.
#[derive(Copy, Clone, Debug, PartialEq)]
pub(crate) struct AbstractProcess {
    pub(crate) id: ProcessId,
    pub(crate) stdin: usize,
    pub(crate) stdout: usize,
    pub(crate) stderr: usize,
}

impl View for AbstractProcess {
    type V = Wiring;

    open(crate) spec fn view(&self) -> Wiring {
        Wiring { id: self.id@, stdin: self.stdin, stdout: self.stdout, stderr: self.stderr }
    }
}

impl AbstractProcess {
    /// The process as the side that started it holds it.
    pub(crate) fn endpoint_side(&self) -> (process: ReadProcess)
        ensures
            process@ == self@,
    {
        ReadProcess {
            id: self.id,
            stdin: WritePipe::new(self.stdin),
            stdout: ReadPipe::new(self.stdout),
            stderr: ReadPipe::new(self.stderr),
        }
    }

    /// The process as the side that runs it holds it.
    pub(crate) fn backend_side(&self) -> (process: WriteProcess)
        ensures
            process@ == self@,
    {
        WriteProcess {
            id: self.id,
            stdin: ReadPipe::new(self.stdin),
            stdout: WritePipe::new(self.stdout),
            stderr: WritePipe::new(self.stderr),
        }
    }
}

/// Where the two sides hold one process, each of its pipes has the same number
/// on both, and opposite directions: what one side may write, the other may
/// read.
pub proof fn lemma_pipe_duality(started: ReadProcess, running: WriteProcess)
    requires
        started@ == running@,
    ensures
        started.id == running.id,
        started.stdin@ == running.stdin@,
        started.stdout@ == running.stdout@,
        started.stderr@ == running.stderr@,
{
    ProcessId::lemma_same_number(started.id, running.id);
}

} // verus!
