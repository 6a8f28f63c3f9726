//! The cleanup task: it waits on the receiving end of the cancellation
//! channel and tears down exactly once, when it first sees the signal. The
//! waiting itself is done by the caller; this module decides what each
//! observation of the channel calls for.
use tokio::sync::oneshot::error::{RecvError, TryRecvError};
use tokio::sync::oneshot::Receiver;
use vstd::prelude::*;

verus! {

/// What the cleanup task sees when it looks at its receiver.
#[derive(Clone, Copy, Debug, PartialEq, Eq, Structural)]
pub enum Observation {
    /// Nothing yet: the handle is still alive.
    Empty,
    /// The handle fired the signal explicitly.
    Sent,
    /// The handle went away and its sender with it.
    Dropped,
}

/// What the cleanup task does in answer to one observation.
#[derive(Clone, Copy, Debug, PartialEq, Eq, Structural)]
pub enum CleanupAction {
    /// Keep waiting.
    Wait,
    /// Run the teardown now.
    Teardown,
    /// Teardown has already run: nothing is left to do.
    Finished,
}

/// Whether an observation means the signal has fired. An explicit send and a
/// dropped sender count alike.
pub open spec fn fired(o: Observation) -> bool {
    o != Observation::Empty
}

/// One step of the cleanup task: from whether teardown has run and an
/// observation, the action and whether teardown has run afterwards.
pub open spec fn cleanup_step(done: bool, o: Observation) -> (CleanupAction, bool) {
    if done {
        (CleanupAction::Finished, true)
    } else if fired(o) {
        (CleanupAction::Teardown, true)
    } else {
        (CleanupAction::Wait, false)
    }
}

/// The actions taken in answer to a sequence of observations.
pub open spec fn cleanup_run(done: bool, obs: Seq<Observation>) -> Seq<CleanupAction>
    decreases obs.len(),
{
    if obs.len() == 0 {
        Seq::empty()
    } else {
        let (a, d) = cleanup_step(done, obs[0]);
        seq![a] + cleanup_run(d, obs.drop_first())
    }
}

/// How many teardowns a sequence of actions holds.
pub open spec fn teardowns(acts: Seq<CleanupAction>) -> nat
    decreases acts.len(),
{
    if acts.len() == 0 {
        0
    } else {
        (if acts[0] == CleanupAction::Teardown { 1nat } else { 0nat }) + teardowns(acts.drop_first())
    }
}

/// The observation that the awaited receiver gives: `Ok` after an explicit
/// send, an error when the sender was dropped without one.
pub fn observe_recv(r: Result<(), RecvError>) -> (o: Observation)
    ensures
        o == (match r {
            Ok(()) => Observation::Sent,
            Err(_) => Observation::Dropped,
        }),
{
    match r {
        Ok(()) => Observation::Sent,
        Err(_) => Observation::Dropped,
    }
}

/// The observation that a non-waiting look at the receiver gives. A receiver
/// that has already handed out the signal reports `Closed`, which still means
/// the signal fired.
pub fn observe_try_recv(r: Result<(), TryRecvError>) -> (o: Observation)
    ensures
        o == (match r {
            Ok(()) => Observation::Sent,
            Err(TryRecvError::Empty) => Observation::Empty,
            Err(TryRecvError::Closed) => Observation::Dropped,
        }),
{
    match r {
        Ok(()) => Observation::Sent,
        Err(TryRecvError::Empty) => Observation::Empty,
        Err(TryRecvError::Closed) => Observation::Dropped,
    }
}

/// The state of one cleanup task.
pub struct CleanupTask {
    done: bool,
}

impl CleanupTask {
    /// Whether the teardown has run.
    pub closed spec fn is_done(&self) -> bool {
        self.done
    }

    /// A task that has not torn anything down yet.
    pub fn new() -> (r: Self)
        ensures
            !r.is_done(),
    {
        CleanupTask { done: false }
    }

    /// Whether the teardown has run.
    pub fn done(&self) -> (r: bool)
        ensures
            r == self.is_done(),
    {
        self.done
    }

    /// Answers one observation of the channel.
    pub fn on_observation(&mut self, o: Observation) -> (r: CleanupAction)
        ensures
            (r, final(self).is_done()) == cleanup_step(old(self).is_done(), o),
    {
        if self.done {
            CleanupAction::Finished
        } else if o != Observation::Empty {
            self.done = true;
            CleanupAction::Teardown
        } else {
            CleanupAction::Wait
        }
    }

    /// Looks at the receiver without waiting and answers what it shows.
    pub fn poll(&mut self, rx: &mut Receiver<()>) -> (r: CleanupAction)
        ensures
            exists|o: Observation| (r, final(self).is_done()) == cleanup_step(old(self).is_done(), o),
    {
        let o = observe_try_recv(rx.try_recv());
        self.on_observation(o)
    }
}

proof fn lemma_run_len(done: bool, obs: Seq<Observation>)
    ensures
        cleanup_run(done, obs).len() == obs.len(),
    decreases obs.len(),
{
    if obs.len() > 0 {
        lemma_run_len(cleanup_step(done, obs[0]).1, obs.drop_first());
    }
}

proof fn lemma_teardowns_prepend(a: CleanupAction, rest: Seq<CleanupAction>)
    ensures
        teardowns(seq![a] + rest) == (if a == CleanupAction::Teardown { 1nat } else { 0nat })
            + teardowns(rest),
{
    assert((seq![a] + rest).drop_first() =~= rest);
}

/// However the observations go, the teardown runs exactly once if the signal
/// is ever seen and never otherwise; a task that has already torn down never
/// does so again.
pub proof fn lemma_teardown_once(done: bool, obs: Seq<Observation>)
    ensures
        teardowns(cleanup_run(done, obs)) == if !done && exists|i: int|
            0 <= i < obs.len() && fired(#[trigger] obs[i]) {
            1nat
        } else {
            0nat
        },
    decreases obs.len(),
{
    if obs.len() > 0 {
        let (a, d) = cleanup_step(done, obs[0]);
        lemma_teardown_once(d, obs.drop_first());
        lemma_teardowns_prepend(a, cleanup_run(d, obs.drop_first()));
        if !done && !fired(obs[0]) {
            if exists|i: int| 0 <= i < obs.len() && fired(#[trigger] obs[i]) {
                let i = choose|i: int| 0 <= i < obs.len() && fired(#[trigger] obs[i]);
                assert(fired(obs.drop_first()[i - 1]));
            }
            if exists|j: int| 0 <= j < obs.len() - 1 && fired(#[trigger] obs.drop_first()[j]) {
                let j = choose|j: int| 0 <= j < obs.len() - 1 && fired(#[trigger] obs.drop_first()[j]);
                assert(fired(obs[j + 1]));
            }
        }
    }
}

/// When the handle goes at observation `d` (nothing is seen before it, the
/// signal is seen at it), the task waits at every earlier observation, tears
/// down at `d` itself, and does nothing after.
pub proof fn lemma_teardown_timing(obs: Seq<Observation>, d: int)
    requires
        0 <= d <= obs.len(),
        forall|i: int| 0 <= i < d ==> !fired(#[trigger] obs[i]),
        d < obs.len() ==> fired(obs[d]),
    ensures
        cleanup_run(false, obs).len() == obs.len(),
        forall|i: int| 0 <= i < d ==> #[trigger] cleanup_run(false, obs)[i] == CleanupAction::Wait,
        d < obs.len() ==> cleanup_run(false, obs)[d] == CleanupAction::Teardown,
        forall|i: int|
            d < i < obs.len() ==> #[trigger] cleanup_run(false, obs)[i] == CleanupAction::Finished,
    decreases obs.len(),
{
    lemma_run_len(false, obs);
    if obs.len() > 0 {
        if d > 0 {
            let rest = obs.drop_first();
            assert forall|i: int| 0 <= i < d - 1 implies !fired(#[trigger] rest[i]) by {
                assert(!fired(obs[i + 1]));
            }
            lemma_teardown_timing(rest, d - 1);
            assert forall|i: int| 0 <= i < d implies #[trigger] cleanup_run(false, obs)[i]
                == CleanupAction::Wait by {
                if i > 0 {
                    assert(cleanup_run(false, obs)[i] == cleanup_run(false, rest)[i - 1]);
                }
            }
            assert forall|i: int| d < i < obs.len() implies #[trigger] cleanup_run(false, obs)[i]
                == CleanupAction::Finished by {
                assert(cleanup_run(false, obs)[i] == cleanup_run(false, rest)[i - 1]);
            }
        } else {
            lemma_finished_forever(obs.drop_first());
            assert forall|i: int| d < i < obs.len() implies #[trigger] cleanup_run(false, obs)[i]
                == CleanupAction::Finished by {
                assert(cleanup_run(false, obs)[i] == cleanup_run(true, obs.drop_first())[i - 1]);
            }
        }
    }
}

proof fn lemma_finished_forever(obs: Seq<Observation>)
    ensures
        cleanup_run(true, obs).len() == obs.len(),
        forall|i: int| 0 <= i < obs.len() ==> #[trigger] cleanup_run(true, obs)[i] == CleanupAction::Finished,
    decreases obs.len(),
{
    lemma_run_len(true, obs);
    if obs.len() > 0 {
        lemma_finished_forever(obs.drop_first());
        assert forall|i: int| 0 <= i < obs.len() implies #[trigger] cleanup_run(true, obs)[i]
            == CleanupAction::Finished by {
            if i > 0 {
                assert(cleanup_run(true, obs)[i] == cleanup_run(true, obs.drop_first())[i - 1]);
            }
        }
    }
}

} // verus!
