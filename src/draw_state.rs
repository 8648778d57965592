use vstd::prelude::*;

verus! {

/// Which shader program and vertex-attribute bindings are active on the GPU.
#[derive(Clone, Copy, Debug, PartialEq, Eq, Structural)]
pub enum DrawState {
    /// No program bound: the state at frame boundaries.
    Unbound,
    /// The flat-color program with position and color attributes.
    Colored,
    /// The textured program with position, color and UV attributes.
    Textured,
}

/// A change of GPU binding state that the caller must carry out: first the
/// attributes of `from` are disabled, then `to` is activated.
#[derive(Clone, Copy, Debug, PartialEq, Eq, Structural)]
pub struct Transition {
    pub from: DrawState,
    pub to: DrawState,
}

/// Tracks the bound draw state and the per-frame diagnostic counters.
/// Both counters saturate at `usize::MAX`.
#[derive(Clone, Copy, Debug)]
pub struct DrawStateMachine {
    pub state: DrawState,
    pub transition_count: usize,
    pub calls: usize,
}

pub open spec fn bump(n: usize) -> usize {
    if n < usize::MAX {
        (n + 1) as usize
    } else {
        n
    }
}

/// Count of positions `i >= 1` with `s[i] != s[i - 1]`.
pub open spec fn changes(s: Seq<DrawState>) -> nat
    decreases s.len(),
{
    if s.len() < 2 {
        0
    } else {
        changes(s.drop_last()) + if s[s.len() - 1] != s[s.len() - 2] {
            1nat
        } else {
            0nat
        }
    }
}

/// `n + k`, capped at `usize::MAX`.
pub open spec fn saturated(n: usize, k: nat) -> usize {
    if n + k <= usize::MAX {
        (n + k) as usize
    } else {
        usize::MAX
    }
}

impl DrawStateMachine {
    /// The machine after one request for `target`.
    pub open spec fn step(self, target: DrawState) -> Self {
        DrawStateMachine {
            state: target,
            transition_count: if self.state != target {
                bump(self.transition_count)
            } else {
                self.transition_count
            },
            calls: bump(self.calls),
        }
    }

    /// The machine after the requests of `reqs`, in order.
    pub open spec fn run(self, reqs: Seq<DrawState>) -> Self
        decreases reqs.len(),
    {
        if reqs.len() == 0 {
            self
        } else {
            self.run(reqs.drop_last()).step(reqs.last())
        }
    }

    pub open spec fn new_spec() -> Self {
        DrawStateMachine { state: DrawState::Unbound, transition_count: 0, calls: 0 }
    }

    /// A machine at the start of a frame: nothing bound, counters at zero.
    pub fn new() -> (m: Self)
        ensures
            m == (DrawStateMachine { state: DrawState::Unbound, transition_count: 0, calls: 0 }),
    {
        DrawStateMachine { state: DrawState::Unbound, transition_count: 0, calls: 0 }
    }

    /// Requests `target`. Returns the transition to perform, or `None` when
    /// `target` is already bound.
    pub fn configure_state(&mut self, target: DrawState) -> (t: Option<Transition>)
        ensures
            *final(self) == old(self).step(target),
            t == (if old(self).state != target {
                Some(Transition { from: old(self).state, to: target })
            } else {
                None
            }),
    {
        if self.calls < usize::MAX {
            self.calls = self.calls + 1;
        }
        if self.state != target {
            if self.transition_count < usize::MAX {
                self.transition_count = self.transition_count + 1;
            }
            let from = self.state;
            self.state = target;
            Some(Transition { from, to: target })
        } else {
            None
        }
    }
}

/// The transition counter counts exactly the adjacent pairs of distinct
/// states in the sequence made of the bound state followed by the requests.
pub proof fn lemma_transitions_count_changes(m: DrawStateMachine, reqs: Seq<DrawState>)
    ensures
        m.run(reqs).transition_count == saturated(
            m.transition_count,
            changes(seq![m.state] + reqs),
        ),
        m.run(reqs).state == (seq![m.state] + reqs).last(),
    decreases reqs.len(),
{
    let s = seq![m.state] + reqs;
    if reqs.len() > 0 {
        let p = reqs.drop_last();
        lemma_transitions_count_changes(m, p);
        assert(s.drop_last() =~= seq![m.state] + p);
        assert(s[s.len() - 2] == (seq![m.state] + p).last());
    } else {
        assert(s =~= seq![m.state]);
    }
}

/// Requests that all name one state cause at most one transition, however
/// many there are.
pub proof fn lemma_repeated_requests_bind_once(
    m: DrawStateMachine,
    target: DrawState,
    reqs: Seq<DrawState>,
)
    requires
        forall|i: int| 0 <= i < reqs.len() ==> reqs[i] == target,
    ensures
        m.run(reqs).transition_count <= bump(m.transition_count),
        reqs.len() > 0 ==> m.run(reqs).state == target,
    decreases reqs.len(),
{
    if reqs.len() > 0 {
        let p = reqs.drop_last();
        lemma_repeated_requests_bind_once(m, target, p);
        if p.len() == 0 {
            assert(m.run(p) == m);
        }
    }
}

/// One request: the requested state is bound, a request for the state
/// already bound changes no binding and counts no transition, and one for
/// another state counts one; every request counts as a call.
pub proof fn lemma_step_counts(m: DrawStateMachine, target: DrawState)
    requires
        m.calls < usize::MAX,
        m.transition_count < usize::MAX,
    ensures
        m.step(target).state == target,
        m.step(target).calls == m.calls + 1,
        m.step(target).transition_count == m.transition_count + if m.state != target {
            1int
        } else {
            0int
        },
{
}

/// There are never more changes than requests.
proof fn lemma_changes_bound(s: Seq<DrawState>)
    ensures
        changes(s) <= if s.len() == 0 {
            0
        } else {
            s.len() - 1
        },
    decreases s.len(),
{
    if s.len() >= 2 {
        lemma_changes_bound(s.drop_last());
    }
}

/// Over a frame, which starts with nothing bound and both counters at zero,
/// the transition count after any requests is the number of adjacent pairs
/// of distinct states in the sequence made of the unbound state followed by
/// the requests.
pub proof fn lemma_frame_transitions(reqs: Seq<DrawState>)
    requires
        reqs.len() <= usize::MAX,
    ensures
        DrawStateMachine::new_spec().run(reqs).transition_count == changes(
            seq![DrawState::Unbound] + reqs,
        ),
{
    let m = DrawStateMachine::new_spec();
    lemma_transitions_count_changes(m, reqs);
    lemma_changes_bound(seq![DrawState::Unbound] + reqs);
}

} // verus!
