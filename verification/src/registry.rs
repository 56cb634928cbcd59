//! The endpoint's bookkeeping as a mathematical state, and what each operation
//! does to it.
//!
//! The endpoint's contracts are stated over this state. The laws at the end
//! hold of every sequence of operations, because they are proved of this state
//! and each operation is proved to follow it.

use crate::command::Wiring;
use crate::message::ResponseBody;
use vstd::prelude::*;

verus! {

/// What an endpoint keeps track of.
pub struct Registry {
    /// The next identifier to be issued.
    pub next_id: nat,
    /// Each open remote with its parent; the root has none.
    pub remotes: Map<usize, Option<usize>>,
    /// Each registered process with the remote that owns it.
    pub processes: Map<usize, usize>,
    /// The pipes that are open.
    pub pipes: Set<usize>,
}

/// What an endpoint can be asked to do.
pub enum Op {
    Remote { parent: usize },
    Command { remote: usize, redirect: Option<usize> },
    OpenFile { remote: usize },
    CloseRemote { remote: usize },
    CloseProcess { process: usize },
    FinishEdit { process: usize },
}

/// One operation of an endpoint, with whether the transport took its request.
pub struct Step {
    pub op: Op,
    pub sent: bool,
}

impl Registry {
    /// The state of a new endpoint: the root remote, and nothing else.
    pub open spec fn initial() -> Registry {
        Registry {
            next_id: 1,
            remotes: map![0usize => None::<usize>],
            processes: Map::empty(),
            pipes: Set::empty(),
        }
    }

    /// What holds of an endpoint at all times.
    ///
    /// The root is open and has no parent. Every other open remote has a
    /// parent with a smaller number than its own. Every number in use was
    /// issued before, and no number is in use for two things.
    pub open spec fn wf(self) -> bool {
        &&& 1 <= self.next_id <= usize::MAX
        &&& self.remotes.contains_key(0)
        &&& self.remotes[0] is None
        &&& forall|r: usize| #[trigger]
            self.remotes.contains_key(r) && r != 0 ==> r < self.next_id && self.remotes[r] is Some
                && self.remotes[r]->Some_0 < r
        &&& forall|p: usize| #[trigger]
            self.processes.contains_key(p) ==> 0 < p < self.next_id && self.processes[p] < p
                && !self.remotes.contains_key(p)
        &&& forall|x: usize| #[trigger]
            self.pipes.contains(x) ==> 0 < x < self.next_id && !self.remotes.contains_key(x)
                && !self.processes.contains_key(x)
    }

    /// Whether `count` more identifiers can be issued.
    pub open spec fn has_ids(self, count: nat) -> bool {
        self.next_id + count <= usize::MAX
    }

    /// How many identifiers a command takes: one for the process, one for each
    /// pipe that is not redirected.
    pub open spec fn command_ids(redirect: Option<usize>) -> nat {
        if redirect is Some {
            3
        } else {
            4
        }
    }

    /// The wiring of the process that a command started now would get.
    pub open spec fn command_wiring(self, redirect: Option<usize>) -> Wiring {
        Wiring {
            id: self.next_id as usize,
            stdin: (self.next_id + 1) as usize,
            stdout: match redirect {
                Some(pipe) => pipe,
                None => (self.next_id + 2) as usize,
            },
            stderr: match redirect {
                Some(_) => (self.next_id + 2) as usize,
                None => (self.next_id + 3) as usize,
            },
        }
    }

    /// Whether a response may be handed to the endpoint: one that speaks of a
    /// pipe must speak of an open one.
    pub open spec fn accepts(self, body: ResponseBody) -> bool {
        match body {
            ResponseBody::PipeData { id, .. } => self.pipes.contains(id),
            ResponseBody::PipeRead { id, .. } => self.pipes.contains(id),
            _ => true,
        }
    }

    /// Whether an operation may be asked for in this state.
    ///
    /// The remote it addresses is open. A redirected handle is open. A remote
    /// to be closed has a parent, which the root has not. A process to be
    /// closed or answered is registered, and the remote that owns it is open.
    /// The identifiers it takes can still be issued.
    pub open spec fn admits(self, op: Op) -> bool {
        match op {
            Op::Remote { parent } => self.remotes.contains_key(parent) && self.has_ids(1),
            Op::Command { remote, redirect } => {
                &&& self.remotes.contains_key(remote)
                &&& self.has_ids(Self::command_ids(redirect))
                &&& redirect matches Some(pipe) ==> self.pipes.contains(pipe)
            },
            Op::OpenFile { remote } => self.remotes.contains_key(remote) && self.has_ids(1),
            Op::CloseRemote { remote } => self.remotes.contains_key(remote)
                && self.remotes[remote] is Some,
            Op::CloseProcess { process } => self.processes.contains_key(process)
                && self.remotes.contains_key(self.processes[process]),
            Op::FinishEdit { process } => self.processes.contains_key(process)
                && self.remotes.contains_key(self.processes[process]),
        }
    }

    /// The remote that the request of an operation is addressed to.
    pub open spec fn addressee(self, op: Op) -> usize {
        match op {
            Op::Remote { parent } => parent,
            Op::Command { remote, .. } => remote,
            Op::OpenFile { remote } => remote,
            Op::CloseRemote { remote } => self.remotes[remote]->Some_0,
            Op::CloseProcess { process } => self.processes[process],
            Op::FinishEdit { process } => self.processes[process],
        }
    }

    /// The state after a remote was asked for under `parent`. Its number is
    /// spent either way; it is registered only if the request was sent.
    pub open spec fn after_remote(self, parent: usize, sent: bool) -> Registry {
        Registry {
            next_id: self.next_id + 1,
            remotes: if sent {
                self.remotes.insert(self.next_id as usize, Some(parent))
            } else {
                self.remotes
            },
            ..self
        }
    }

    /// The state after a command was asked for in `remote`. A redirected
    /// handle is closed and the fresh output pipes are opened either way; the
    /// process is registered only if the request was sent.
    pub open spec fn after_command(
        self,
        remote: usize,
        redirect: Option<usize>,
        sent: bool,
    ) -> Registry {
        let wiring = self.command_wiring(redirect);
        Registry {
            next_id: self.next_id + Self::command_ids(redirect),
            processes: if sent {
                self.processes.insert(wiring.id, remote)
            } else {
                self.processes
            },
            pipes: match redirect {
                Some(pipe) => self.pipes.remove(pipe).insert(wiring.stderr),
                None => self.pipes.insert(wiring.stdout).insert(wiring.stderr),
            },
            ..self
        }
    }

    /// The state after a file was opened: its pipe is open, whether or not
    /// the request was sent.
    pub open spec fn after_open_file(self) -> Registry {
        Registry {
            next_id: self.next_id + 1,
            pipes: self.pipes.insert(self.next_id as usize),
            ..self
        }
    }

    /// The state after a remote was closed. Its processes stay registered.
    pub open spec fn after_close_remote(self, remote: usize) -> Registry {
        Registry { remotes: self.remotes.remove(remote), ..self }
    }

    /// The state after a process was closed.
    pub open spec fn after_close_process(self, process: usize) -> Registry {
        Registry { processes: self.processes.remove(process), ..self }
    }

    /// The state after one operation, given whether the transport took its
    /// request.
    pub open spec fn after(self, op: Op, sent: bool) -> Registry {
        match op {
            Op::Remote { parent } => self.after_remote(parent, sent),
            Op::Command { remote, redirect } => self.after_command(remote, redirect, sent),
            Op::OpenFile { .. } => self.after_open_file(),
            Op::CloseRemote { remote } => self.after_close_remote(remote),
            Op::CloseProcess { process } => self.after_close_process(process),
            Op::FinishEdit { .. } => self,
        }
    }

    /// Whether a sequence of operations may be asked for one after another,
    /// starting in this state.
    pub open spec fn admits_all(self, steps: Seq<Step>) -> bool
        decreases steps.len(),
    {
        if steps.len() == 0 {
            true
        } else {
            self.admits(steps[0].op) && self.after(steps[0].op, steps[0].sent).admits_all(
                steps.drop_first(),
            )
        }
    }

    /// The state after a sequence of operations.
    pub open spec fn after_all(self, steps: Seq<Step>) -> Registry
        decreases steps.len(),
    {
        if steps.len() == 0 {
            self
        } else {
            self.after(steps[0].op, steps[0].sent).after_all(steps.drop_first())
        }
    }

    /// Whether nothing that is in use in `self` and not in `earlier` has a
    /// number that `earlier` had already issued.
    pub open spec fn grew_from(self, earlier: Registry) -> bool {
        &&& earlier.next_id <= self.next_id
        &&& forall|r: usize| #[trigger]
            self.remotes.contains_key(r) && !earlier.remotes.contains_key(r) ==> earlier.next_id
                <= r
        &&& forall|p: usize| #[trigger]
            self.processes.contains_key(p) && !earlier.processes.contains_key(p)
                ==> earlier.next_id <= p
        &&& forall|x: usize| #[trigger]
            self.pipes.contains(x) && !earlier.pipes.contains(x) ==> earlier.next_id <= x
    }
}

/// One operation keeps the state well formed, and whatever it adds carries a
/// number that had not been issued before.
pub proof fn lemma_step_preserves(state: Registry, op: Op, sent: bool)
    requires
        state.wf(),
        state.admits(op),
    ensures
        state.after(op, sent).wf(),
        state.after(op, sent).grew_from(state),
{
}

/// Whatever operations an endpoint performs: the root stays open and without
/// a parent, every other open remote has a parent with a smaller number than
/// its own, and no number is issued twice or used for two things.
pub proof fn lemma_registry_stays_well_formed(state: Registry, steps: Seq<Step>)
    requires
        state.wf(),
        state.admits_all(steps),
    ensures
        state.after_all(steps).wf(),
        state.after_all(steps).grew_from(state),
        state.after_all(steps).remotes.contains_key(0),
    decreases steps.len(),
{
    if steps.len() > 0 {
        lemma_step_preserves(state, steps[0].op, steps[0].sent);
        lemma_registry_stays_well_formed(
            state.after(steps[0].op, steps[0].sent),
            steps.drop_first(),
        );
    }
}

/// A remote is registered only under a parent that is open at that moment,
/// and under a number that no open remote has. The root cannot be closed.
pub proof fn lemma_remote_tree(state: Registry, op: Op, sent: bool)
    requires
        state.wf(),
        state.admits(op),
    ensures
        op matches Op::Remote { parent } ==> {
            &&& state.remotes.contains_key(parent)
            &&& !state.remotes.contains_key(state.next_id as usize)
            &&& sent ==> state.after(op, sent).remotes[state.next_id as usize] == Some(parent)
        },
        op matches Op::CloseRemote { remote } ==> remote != 0,
        state.after(op, sent).remotes.contains_key(0),
{
}

/// A remote that stays open through a run keeps its parent.
pub proof fn lemma_parent_is_kept(state: Registry, steps: Seq<Step>, remote: usize)
    requires
        state.wf(),
        state.admits_all(steps),
        state.remotes.contains_key(remote),
        state.after_all(steps).remotes.contains_key(remote),
    ensures
        state.after_all(steps).remotes[remote] == state.remotes[remote],
    decreases steps.len(),
{
    if steps.len() > 0 {
        let next = state.after(steps[0].op, steps[0].sent);
        lemma_step_preserves(state, steps[0].op, steps[0].sent);
        lemma_registry_stays_well_formed(next, steps.drop_first());
        lemma_parent_is_kept(next, steps.drop_first(), remote);
    }
}

/// Whether the step number `index` of a run made `remote`: it asked for a
/// remote and its request was sent, the remote's number was the next to be
/// issued, the parent it named was open at that moment, and it is the parent
/// that the remote has after the run.
pub open spec fn made_at(state: Registry, steps: Seq<Step>, remote: usize, index: int) -> bool {
    &&& 0 <= index < steps.len()
    &&& steps[index].sent
    &&& steps[index].op is Remote
    &&& state.after_all(steps.take(index)).next_id == remote
    &&& state.after_all(steps.take(index)).remotes.contains_key(steps[index].op->parent)
    &&& state.after_all(steps).remotes[remote] == Some(steps[index].op->parent)
}

/// Every remote that is open after a run and was not open before it was made
/// by a step of the run, under a parent that was open when that step was
/// taken. Of a new endpoint this holds of every remote but the root.
pub proof fn lemma_parent_was_open(state: Registry, steps: Seq<Step>, remote: usize)
    requires
        state.wf(),
        state.admits_all(steps),
        state.after_all(steps).remotes.contains_key(remote),
        !state.remotes.contains_key(remote),
    ensures
        exists|index: int| made_at(state, steps, remote, index),
    decreases steps.len(),
{
    let next = state.after(steps[0].op, steps[0].sent);
    let rest = steps.drop_first();
    lemma_step_preserves(state, steps[0].op, steps[0].sent);
    if next.remotes.contains_key(remote) {
        lemma_parent_is_kept(next, rest, remote);
        assert(steps.take(0) =~= Seq::<Step>::empty());
        assert(made_at(state, steps, remote, 0));
    } else {
        lemma_parent_was_open(next, rest, remote);
        let index = choose|index: int| made_at(next, rest, remote, index);
        assert(steps.take(index + 1).drop_first() =~= rest.take(index));
        assert(steps.take(index + 1)[0] == steps[0]);
        assert(state.after_all(steps.take(index + 1)) == next.after_all(rest.take(index)));
        assert(made_at(state, steps, remote, index + 1));
    }
}

/// Once a command has taken a handle as its output, the handle's pipe is
/// closed, and it stays closed whatever the endpoint does next: every pipe
/// opened later has a number that had not been issued when the handle was
/// taken.
pub proof fn lemma_redirect_consumes(
    state: Registry,
    remote: usize,
    handle: usize,
    sent: bool,
    later: Seq<Step>,
)
    requires
        state.wf(),
        state.admits(Op::Command { remote, redirect: Some(handle) }),
        state.after_command(remote, Some(handle), sent).admits_all(later),
    ensures
        state.command_wiring(Some(handle)).stdout == handle,
        !state.after_command(remote, Some(handle), sent).pipes.contains(handle),
        !state.after_command(remote, Some(handle), sent).after_all(later).pipes.contains(handle),
        handle < state.next_id <= state.after_command(remote, Some(handle), sent).after_all(
            later,
        ).next_id,
        state.after_command(remote, Some(handle), sent).after_all(later).grew_from(
            state.after_command(remote, Some(handle), sent),
        ),
{
    let op = Op::Command { remote, redirect: Some(handle) };
    lemma_step_preserves(state, op, sent);
    lemma_registry_stays_well_formed(state.after(op, sent), later);
}

} // verus!
