use vstd::prelude::*;
use crate::error::IpcError;

verus! {

/// One operating-system step of building a channel or a segment.
#[derive(Debug, Clone, Copy, PartialEq, Eq, Structural)]
pub enum Step {
    /// Open (or create) the message queue.
    OpenQueue,
    /// Open (or create) the shared-memory segment.
    OpenSegment,
    /// Size the segment to its capacity.
    ResizeSegment,
    /// Map the segment into the address space.
    MapSegment,
}

/// A resource that a step leaves held and that must be given back.
#[derive(Debug, Clone, Copy, PartialEq, Eq, Structural)]
pub enum Resource {
    /// A queue descriptor, released by closing it.
    Queue,
    /// A segment descriptor, released by closing it.
    Segment,
    /// A mapping, released by unmapping it.
    Mapping,
}

/// The resource a step leaves held when it succeeds, if any.
pub open spec fn spec_acquires(s: Step) -> Option<Resource> {
    match s {
        Step::OpenQueue => Some(Resource::Queue),
        Step::OpenSegment => Some(Resource::Segment),
        Step::ResizeSegment => None,
        Step::MapSegment => Some(Resource::Mapping),
    }
}

/// A held resource and the handle the operating system gave for it (a
/// descriptor or a base address).
#[derive(Debug, Clone, Copy, PartialEq, Eq, Structural)]
pub struct Held {
    pub resource: Resource,
    pub handle: u64,
}

/// Where a construction stands.
#[derive(Debug, Clone, Copy, PartialEq, Eq, Structural)]
pub enum Phase {
    /// Steps remain to be performed.
    Opening,
    /// Every step succeeded; the held resources belong to the caller.
    Ready,
    /// A step failed and everything acquired was handed back for release.
    Failed(IpcError),
}

/// What the caller is to do next.
#[derive(Debug, Clone, Copy, PartialEq, Eq, Structural)]
pub enum Action {
    /// Perform this step and report its outcome.
    Perform(Step),
    /// Release this resource.
    Release(Held),
    /// Construction is complete.
    Finish,
    /// Construction failed with this error; nothing is held.
    Abort(IpcError),
}

/// The actions that undo a failed construction holding `held`: each held
/// resource released, the most recent first, then the failure reported.
pub open spec fn spec_rollback(held: Seq<Held>, error: IpcError) -> Seq<Action> {
    Seq::new(held.len(), |i: int| Action::Release(held[held.len() - 1 - i])).push(
        Action::Abort(error),
    )
}

/// The state of one multi-step construction: which steps are done, what they
/// acquired, and whether it is still going, complete or failed.
pub struct Provisioning {
    steps: Vec<Step>,
    done: usize,
    held: Vec<Held>,
    phase: Phase,
}

impl Provisioning {
    pub closed spec fn spec_steps(&self) -> Seq<Step> {
        self.steps@
    }

    pub closed spec fn spec_done(&self) -> nat {
        self.done as nat
    }

    pub closed spec fn spec_held(&self) -> Seq<Held> {
        self.held@
    }

    pub closed spec fn spec_phase(&self) -> Phase {
        self.phase
    }

    /// The construction is consistent: no step is planned twice, the phase
    /// matches the progress, a failed construction holds nothing, and each
    /// held resource was acquired by a finished step.
    pub closed spec fn wf(&self) -> bool {
        &&& self.steps@.no_duplicates()
        &&& self.done <= self.steps@.len()
        &&& (self.phase == Phase::Opening ==> self.done < self.steps@.len())
        &&& (self.phase == Phase::Ready ==> self.done == self.steps@.len())
        &&& (self.phase is Failed ==> self.held@.len() == 0)
        &&& forall|k: int|
            0 <= k < self.held@.len() ==> exists|j: int|
                0 <= j < self.done && spec_acquires(#[trigger] self.steps@[j]) == Some(
                    (#[trigger] self.held@[k]).resource,
                )
        &&& forall|a: int, b: int|
            0 <= a < b < self.held@.len() ==> self.held@[a].resource != self.held@[b].resource
    }

    fn new(steps: Vec<Step>) -> (r: Self)
        requires
            steps@.no_duplicates(),
        ensures
            r.wf(),
            r.spec_steps() == steps@,
            r.spec_done() == 0,
            r.spec_held() == Seq::<Held>::empty(),
            r.spec_phase() == (if steps@.len() == 0 {
                Phase::Ready
            } else {
                Phase::Opening
            }),
    {
        let phase = if steps.len() == 0 {
            Phase::Ready
        } else {
            Phase::Opening
        };
        Provisioning { steps, done: 0, held: Vec::new(), phase }
    }

    /// Opening a segment: open it, then, when `resize` is set, size it.
    pub fn for_segment(resize: bool) -> (r: Self)
        ensures
            r.wf(),
            r.spec_steps() == (if resize {
                seq![Step::OpenSegment, Step::ResizeSegment]
            } else {
                seq![Step::OpenSegment]
            }),
            r.spec_done() == 0,
            r.spec_held() == Seq::<Held>::empty(),
            r.spec_phase() == Phase::Opening,
    {
        let mut steps: Vec<Step> = Vec::new();
        steps.push(Step::OpenSegment);
        if resize {
            steps.push(Step::ResizeSegment);
        }
        Self::new(steps)
    }

    /// Building one endpoint over a segment that is already open: open the
    /// queue, then map the segment.
    pub fn for_endpoint() -> (r: Self)
        ensures
            r.wf(),
            r.spec_steps() == seq![Step::OpenQueue, Step::MapSegment],
            r.spec_done() == 0,
            r.spec_held() == Seq::<Held>::empty(),
            r.spec_phase() == Phase::Opening,
    {
        let mut steps: Vec<Step> = Vec::new();
        steps.push(Step::OpenQueue);
        steps.push(Step::MapSegment);
        Self::new(steps)
    }

    /// Building a channel: open the queue; when `uses_mapping` is set, then
    /// open, size and map the segment.
    pub fn for_channel(uses_mapping: bool) -> (r: Self)
        ensures
            r.wf(),
            r.spec_steps() == (if uses_mapping {
                seq![Step::OpenQueue, Step::OpenSegment, Step::ResizeSegment, Step::MapSegment]
            } else {
                seq![Step::OpenQueue]
            }),
            r.spec_done() == 0,
            r.spec_held() == Seq::<Held>::empty(),
            r.spec_phase() == Phase::Opening,
    {
        let mut steps: Vec<Step> = Vec::new();
        steps.push(Step::OpenQueue);
        if uses_mapping {
            steps.push(Step::OpenSegment);
            steps.push(Step::ResizeSegment);
            steps.push(Step::MapSegment);
        }
        Self::new(steps)
    }

    /// The next thing to do: the next step while opening, `Finish` once
    /// ready, `Abort` once failed.
    pub fn next_action(&self) -> (r: Action)
        requires
            self.wf(),
        ensures
            r == (match self.spec_phase() {
                Phase::Opening => Action::Perform(self.spec_steps()[self.spec_done() as int]),
                Phase::Ready => Action::Finish,
                Phase::Failed(e) => Action::Abort(e),
            }),
    {
        match self.phase {
            Phase::Opening => Action::Perform(self.steps[self.done]),
            Phase::Ready => Action::Finish,
            Phase::Failed(e) => Action::Abort(e),
        }
    }

    /// Records that the pending step succeeded; `handle` is what it returned
    /// (ignored for a step that acquires nothing).
    pub fn succeeded(&mut self, handle: u64)
        requires
            old(self).wf(),
            old(self).spec_phase() == Phase::Opening,
        ensures
            final(self).wf(),
            final(self).spec_steps() == old(self).spec_steps(),
            final(self).spec_done() == old(self).spec_done() + 1,
            final(self).spec_held() == (match spec_acquires(
                old(self).spec_steps()[old(self).spec_done() as int],
            ) {
                Some(res) => old(self).spec_held().push(Held { resource: res, handle }),
                None => old(self).spec_held(),
            }),
            final(self).spec_phase() == (if final(self).spec_done() == old(self).spec_steps().len() {
                Phase::Ready
            } else {
                Phase::Opening
            }),
    {
        let total: usize = self.steps.len();
        assert(self.done < total);
        let step = self.steps[self.done];
        let next: usize = self.done + 1;
        let ghost old_held = self.held@;
        let ghost done0 = self.done as int;
        let acquired = match step {
            Step::OpenQueue => Some(Resource::Queue),
            Step::OpenSegment => Some(Resource::Segment),
            Step::ResizeSegment => None,
            Step::MapSegment => Some(Resource::Mapping),
        };
        match acquired {
            Some(resource) => {
                proof {
                    assert forall|k: int| 0 <= k < old_held.len() implies old_held[k].resource
                        != resource by {
                        let j = choose|j: int|
                            0 <= j < done0 && spec_acquires(#[trigger] self.steps@[j]) == Some(
                                old_held[k].resource,
                            );
                        if old_held[k].resource == resource {
                            assert(self.steps@[j] == self.steps@[done0]);
                        }
                    }
                }
                self.held.push(Held { resource, handle });
            },
            None => {},
        }
        self.done = next;
        if self.done == self.steps.len() {
            self.phase = Phase::Ready;
        }
        proof {
            assert forall|k: int| 0 <= k < self.held@.len() implies exists|j: int|
                0 <= j < self.done && spec_acquires(#[trigger] self.steps@[j]) == Some(
                    (#[trigger] self.held@[k]).resource,
                ) by {
                if k < old_held.len() {
                    assert(self.held@[k] == old_held[k]);
                    let j = choose|j: int|
                        0 <= j < done0 && spec_acquires(#[trigger] self.steps@[j]) == Some(
                            old_held[k].resource,
                        );
                    assert(0 <= j < self.done);
                } else {
                    assert(spec_acquires(self.steps@[done0]) == Some(self.held@[k].resource));
                }
            }
        }
    }

    /// Records that the pending step failed with `error`: the construction
    /// becomes failed, holds nothing, and returns the actions that release
    /// everything it acquired, most recent first, followed by `Abort(error)`.
    pub fn failed(&mut self, error: IpcError) -> (r: Vec<Action>)
        requires
            old(self).wf(),
            old(self).spec_phase() == Phase::Opening,
        ensures
            final(self).wf(),
            final(self).spec_steps() == old(self).spec_steps(),
            final(self).spec_done() == old(self).spec_done(),
            final(self).spec_held() == Seq::<Held>::empty(),
            final(self).spec_phase() == Phase::Failed(error),
            r@ == spec_rollback(old(self).spec_held(), error),
    {
        let mut actions: Vec<Action> = Vec::new();
        let n: usize = self.held.len();
        let mut i: usize = 0;
        while i < n
            invariant
                n == self.held@.len(),
                i <= n,
                actions@ == Seq::new(i as nat, |k: int| Action::Release(self.held@[n - 1 - k])),
            decreases n - i,
        {
            actions.push(Action::Release(self.held[n - 1 - i]));
            i = i + 1;
        }
        actions.push(Action::Abort(error));
        proof {
            assert(actions@ =~= spec_rollback(self.held@, error));
        }
        self.held = Vec::new();
        self.phase = Phase::Failed(error);
        actions
    }

    /// The resources of a complete construction, in the order acquired; they
    /// now belong to the caller.
    pub fn into_held(self) -> (r: Vec<Held>)
        requires
            self.wf(),
            self.spec_phase() == Phase::Ready,
        ensures
            r@ == self.spec_held(),
    {
        self.held
    }

    /// The resources held so far.
    pub fn held_count(&self) -> (r: usize)
        ensures
            r == self.spec_held().len(),
    {
        self.held.len()
    }

    /// Where the construction stands.
    pub fn phase(&self) -> (r: Phase)
        ensures
            r == self.spec_phase(),
    {
        self.phase
    }
}

/// Rolling back a consistent construction releases every resource it holds
/// exactly once, releases nothing else, and ends by reporting the failure.
pub proof fn lemma_rollback_releases_each_once(p: Provisioning, error: IpcError)
    requires
        p.wf(),
    ensures
        spec_rollback(p.spec_held(), error).no_duplicates(),
        spec_rollback(p.spec_held(), error).len() == p.spec_held().len() + 1,
        spec_rollback(p.spec_held(), error).last() == Action::Abort(error),
        forall|k: int|
            0 <= k < p.spec_held().len() ==> spec_rollback(p.spec_held(), error).contains(
                Action::Release(#[trigger] p.spec_held()[k]),
            ),
        forall|i: int|
            0 <= i < p.spec_held().len() ==> (#[trigger] spec_rollback(p.spec_held(), error)[i]
                matches Action::Release(h) && p.spec_held().contains(h)),
{
    let held = p.spec_held();
    let n = held.len();
    let r = spec_rollback(held, error);
    assert forall|a: int, b: int| 0 <= a < r.len() && 0 <= b < r.len() && a != b implies r[a]
        != r[b] by {
        if a < n && b < n {
            let x = n - 1 - a;
            let y = n - 1 - b;
            if x < y {
                assert(held[x].resource != held[y].resource);
            } else {
                assert(held[y].resource != held[x].resource);
            }
        }
    }
    assert forall|k: int| 0 <= k < n implies r.contains(Action::Release(#[trigger] held[k])) by {
        assert(r[n - 1 - k] == Action::Release(held[k]));
    }
    assert forall|i: int| 0 <= i < n implies (#[trigger] r[i] matches Action::Release(h)
        && held.contains(h)) by {
        assert(held[n - 1 - i] == held[n - 1 - i]);
    }
}

} // verus!
