//! Identifiers: the allocator that issues them and the typed wrappers that
//! carry them.
//!
//! Remotes, processes and pipes draw their numbers from one counter, so no two
//! resources of any kind share a number. The wrappers keep their number
//! private: a caller can read it, and cannot make one up.

use vstd::prelude::*;

verus! {

/// What one allocation does to a counter that stands at `next`: the
/// identifier it returns, and where the counter stands afterwards.
pub open spec fn allocate(next: nat) -> (nat, nat) {
    (next, next + 1)
}

/// The identifiers that `count` allocations in a row return, starting from a
/// counter that stands at `next`.
pub open spec fn allocations(next: nat, count: nat) -> Seq<nat>
    decreases count,
{
    if count == 0 {
        Seq::empty()
    } else {
        seq![allocate(next).0] + allocations(allocate(next).1, (count - 1) as nat)
    }
}

/// Where a counter that stood at `next` stands after `count` allocations.
pub open spec fn after_allocations(next: nat, count: nat) -> nat
    decreases count,
{
    if count == 0 {
        next
    } else {
        after_allocations(allocate(next).1, (count - 1) as nat)
    }
}

/// Where a counter stands after a number of allocations: as many steps on.
pub proof fn lemma_counter_after_allocations(next: nat, count: nat)
    ensures
        after_allocations(next, count) == next + count,
    decreases count,
{
    if count > 0 {
        lemma_counter_after_allocations(next + 1, (count - 1) as nat);
    }
}

/// However many allocations are made in a row, each returns a larger number
/// than every one before it, so no number is returned twice; and none returns
/// a number below where the counter stood, or one that the counter has not
/// passed afterwards.
pub proof fn lemma_allocations_strictly_increase(next: nat, count: nat)
    ensures
        allocations(next, count).len() == count,
        forall|i: int, j: int|
            0 <= i < j < count ==> allocations(next, count)[i] < allocations(next, count)[j],
        allocations(next, count).no_duplicates(),
        forall|i: int|
            0 <= i < count ==> next <= #[trigger] allocations(next, count)[i] < after_allocations(
                next,
                count,
            ),
    decreases count,
{
    lemma_counter_after_allocations(next, count);
    if count > 0 {
        let rest = allocations(next + 1, (count - 1) as nat);
        lemma_allocations_strictly_increase(next + 1, (count - 1) as nat);
        lemma_counter_after_allocations(next + 1, (count - 1) as nat);
        assert forall|i: int| 0 < i < count implies #[trigger] allocations(next, count)[i]
            == rest[i - 1] by {}
        assert forall|i: int, j: int| 0 <= i < j < count implies allocations(next, count)[i]
            < allocations(next, count)[j] by {
            assert(allocations(next, count)[j] == rest[j - 1]);
        }
    }
}

/// The identifier allocator. Its view is the next number it will issue.
pub struct Ids {
    next_id: usize,
}

impl View for Ids {
    type V = nat;

    closed spec fn view(&self) -> nat {
        self.next_id as nat
    }
}

impl Ids {
    /// An allocator that has issued nothing yet. Number 0 belongs to the root
    /// remote, so the first number issued is 1.
    pub fn new() -> (ids: Ids)
        ensures
            ids@ == 1,
    {
        Ids { next_id: 1 }
    }

    /// Returns the next identifier and moves past it. An identifier is never
    /// issued twice.
    pub fn next_id(&mut self) -> (id: usize)
        requires
            old(self)@ < usize::MAX,
        ensures
            (id as nat, final(self)@) == allocate(old(self)@),
    {
        let id: usize = self.next_id;
        self.next_id = id + 1;
        id
    }

    /// The number that the next call of `next_id` returns.
    pub fn peek(&self) -> (next: usize)
        ensures
            next == self@,
    {
        self.next_id
    }

    /// How many identifiers can still be issued.
    pub fn remaining(&self) -> (left: usize)
        ensures
            left == usize::MAX - self@,
    {
        usize::MAX - self.next_id
    }
}

/// Identifier of a process. Its view is its number.
#[derive(Copy, Clone, Debug, PartialEq, Eq, Hash, Structural)]
pub struct ProcessId(usize);

/// Identifier of a remote. Its view is its number.
#[derive(Copy, Clone, Debug, PartialEq, Eq, Hash, Structural)]
pub struct RemoteId(usize);

/// A pipe seen from the side that reads it. Its view is the pipe's number.
#[derive(Copy, Clone, Debug, PartialEq, Eq, Hash, Structural)]
pub struct ReadPipe(usize);

/// A pipe seen from the side that writes it. Its view is the pipe's number.
#[derive(Copy, Clone, Debug, PartialEq, Eq, Hash, Structural)]
pub struct WritePipe(usize);

/// An open file that a command's output can still be redirected into. Its
/// view is the number of the pipe behind it.
#[derive(Copy, Clone, Debug, PartialEq, Eq, Hash, Structural)]
pub struct Handle(usize);

impl View for ProcessId {
    type V = usize;

    closed spec fn view(&self) -> usize {
        self.0
    }
}

impl View for RemoteId {
    type V = usize;

    closed spec fn view(&self) -> usize {
        self.0
    }
}

impl View for ReadPipe {
    type V = usize;

    closed spec fn view(&self) -> usize {
        self.0
    }
}

impl View for WritePipe {
    type V = usize;

    closed spec fn view(&self) -> usize {
        self.0
    }
}

impl View for Handle {
    type V = usize;

    closed spec fn view(&self) -> usize {
        self.0
    }
}

impl ProcessId {
    pub(crate) fn new(number: usize) -> (id: ProcessId)
        ensures
            id@ == number,
    {
        ProcessId(number)
    }

    /// The identifier's number.
    pub fn number(&self) -> (number: usize)
        ensures
            number == self@,
    {
        self.0
    }

    /// Two process identifiers with one number are one identifier.
    pub proof fn lemma_same_number(a: ProcessId, b: ProcessId)
        requires
            a@ == b@,
        ensures
            a == b,
    {
    }
}

impl RemoteId {
    pub(crate) fn new(number: usize) -> (id: RemoteId)
        ensures
            id@ == number,
    {
        RemoteId(number)
    }

    /// The identifier's number.
    pub fn number(&self) -> (number: usize)
        ensures
            number == self@,
    {
        self.0
    }
}

impl ReadPipe {
    pub(crate) fn new(number: usize) -> (pipe: ReadPipe)
        ensures
            pipe@ == number,
    {
        ReadPipe(number)
    }

    /// The pipe's number.
    pub fn number(&self) -> (number: usize)
        ensures
            number == self@,
    {
        self.0
    }
}

impl WritePipe {
    pub(crate) fn new(number: usize) -> (pipe: WritePipe)
        ensures
            pipe@ == number,
    {
        WritePipe(number)
    }

    /// The pipe's number.
    pub fn number(&self) -> (number: usize)
        ensures
            number == self@,
    {
        self.0
    }
}

impl Handle {
    pub(crate) fn new(number: usize) -> (handle: Handle)
        ensures
            handle@ == number,
    {
        Handle(number)
    }

    /// The number of the pipe behind the handle.
    pub fn number(&self) -> (number: usize)
        ensures
            number == self@,
    {
        self.0
    }
}

} // verus!
