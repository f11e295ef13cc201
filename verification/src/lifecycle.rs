//! The engine's terminal-state machine: the race between cancellation
//! and the arbiter's own outcome.

use vstd::prelude::*;

use crate::checkpoint::Checkpoint;
use crate::outcome::Outcome;

verus! {

/// Where a run stands. `Running` feeds candidates; `Cancelling` has
/// stopped feeding and is draining in-flight attempts; `Terminated`
/// has produced its one outcome.
#[derive(Clone, Copy, Debug, PartialEq, Eq, Structural)]
pub enum EngineState {
    Running,
    Cancelling,
    Terminated,
}

/// What can happen to a run: an external interrupt carrying the
/// checkpoint taken when dispatch stopped, a worker's success, the
/// source running dry, the in-flight attempts draining naturally, or
/// the grace period for that drain elapsing.
#[derive(Clone, Debug)]
pub enum Event {
    Interrupt(Checkpoint),
    WorkerFound(Vec<u8>),
    SourceExhausted,
    Drained,
    GraceTimeout,
}

/// The run's lifecycle. Two independent triggers race to terminate it —
/// the external interrupt and the arbiter reaching a result — and
/// whichever arrives first decides the outcome; the loser is disarmed,
/// so a run never reports twice.
pub struct Engine {
    pub state: EngineState,
    /// The single terminal outcome; set exactly when `Terminated`.
    pub outcome: Option<Outcome>,
    /// The checkpoint requested when cancellation began.
    pub pending_checkpoint: Option<Checkpoint>,
}

/// How the lifecycle answers one event. A terminated engine ignores
/// everything; a cancelling engine only waits for its drain (a late
/// success or exhaustion is discarded); a running engine terminates on
/// success or exhaustion and moves to `Cancelling` on an interrupt.
/// A timed-out drain finalizes exactly as a natural one: the grace
/// period elapsing abandons the unfinished attempts, it does not
/// abandon the cancellation.
pub open spec fn engine_step(e: Engine, ev: Event) -> Engine {
    match e.state {
        EngineState::Running => match ev {
            Event::Interrupt(cp) => Engine {
                state: EngineState::Cancelling,
                outcome: e.outcome,
                pending_checkpoint: Some(cp),
            },
            Event::WorkerFound(c) => Engine {
                state: EngineState::Terminated,
                outcome: Some(Outcome::Found(c)),
                pending_checkpoint: e.pending_checkpoint,
            },
            Event::SourceExhausted => Engine {
                state: EngineState::Terminated,
                outcome: Some(Outcome::Exhausted),
                pending_checkpoint: e.pending_checkpoint,
            },
            Event::Drained => e,
            Event::GraceTimeout => e,
        },
        EngineState::Cancelling => match ev {
            Event::Drained | Event::GraceTimeout => match e.pending_checkpoint {
                Some(cp) => Engine {
                    state: EngineState::Terminated,
                    outcome: Some(Outcome::Cancelled(cp)),
                    pending_checkpoint: e.pending_checkpoint,
                },
                None => e,
            },
            _ => e,
        },
        EngineState::Terminated => e,
    }
}

impl Engine {
    /// The outcome exists exactly once the run has terminated, and a
    /// cancelling run holds the checkpoint it will report.
    pub open spec fn wf(self) -> bool {
        &&& (self.state is Terminated <==> self.outcome is Some)
        &&& (self.state is Cancelling ==> self.pending_checkpoint is Some)
    }

    /// A fresh run, feeding candidates and holding no outcome.
    pub fn new() -> (r: Engine)
        ensures
            r.wf(),
            r.state is Running,
            r.outcome is None,
            r.pending_checkpoint is None,
    {
        Engine { state: EngineState::Running, outcome: None, pending_checkpoint: None }
    }

    /// Answer one event, exactly as `engine_step` says.
    pub fn handle(&mut self, ev: Event)
        requires
            old(self).wf(),
        ensures
            *final(self) == engine_step(*old(self), ev),
            final(self).wf(),
    {
        match self.state {
            EngineState::Running => match ev {
                Event::Interrupt(cp) => {
                    self.state = EngineState::Cancelling;
                    self.pending_checkpoint = Some(cp);
                },
                Event::WorkerFound(c) => {
                    self.state = EngineState::Terminated;
                    self.outcome = Some(Outcome::Found(c));
                },
                Event::SourceExhausted => {
                    self.state = EngineState::Terminated;
                    self.outcome = Some(Outcome::Exhausted);
                },
                Event::Drained => {},
                Event::GraceTimeout => {},
            },
            EngineState::Cancelling => match ev {
                Event::Drained | Event::GraceTimeout => match &self.pending_checkpoint {
                    Some(cp) => {
                        let taken = *cp;
                        self.state = EngineState::Terminated;
                        self.outcome = Some(Outcome::Cancelled(taken));
                    },
                    None => {},
                },
                _ => {},
            },
            EngineState::Terminated => {},
        }
    }

    /// Whether the run has produced its outcome.
    pub fn is_terminated(&self) -> (r: bool)
        ensures
            r == (self.state is Terminated),
    {
        match self.state {
            EngineState::Terminated => true,
            _ => false,
        }
    }

    /// The run's single outcome, once terminated.
    pub fn into_outcome(self) -> (r: Option<Outcome>)
        ensures
            r == self.outcome,
    {
        self.outcome
    }
}

/// The lifecycle after answering the events of `evs`, in order.
pub open spec fn engine_run(e: Engine, evs: Seq<Event>) -> Engine
    decreases evs.len(),
{
    if evs.len() == 0 {
        e
    } else {
        engine_run(engine_step(e, evs[0]), evs.skip(1))
    }
}

/// Answering one event keeps the lifecycle well-formed.
pub proof fn lemma_step_preserves_wf(e: Engine, ev: Event)
    requires
        e.wf(),
    ensures
        engine_step(e, ev).wf(),
{
}

/// A terminated run ignores every further event: nothing resurrects it
/// and nothing changes its outcome.
pub proof fn lemma_terminal_state_stable(e: Engine, ev: Event)
    requires
        e.state is Terminated,
    ensures
        engine_step(e, ev) == e,
{
}

/// At most one outcome per run: once an outcome exists, no event
/// replaces or erases it.
pub proof fn lemma_at_most_one_outcome(e: Engine, ev: Event)
    requires
        e.wf(),
        e.outcome is Some,
    ensures
        engine_step(e, ev).outcome == e.outcome,
{
}

/// Exactly one outcome terminates a run: once an outcome exists, no
/// sequence of further events, of any length and in any order, changes
/// the engine at all. The first outcome is the run's outcome.
pub proof fn lemma_outcome_is_final(e: Engine, evs: Seq<Event>)
    requires
        e.wf(),
        e.outcome is Some,
    ensures
        engine_run(e, evs) == e,
    decreases evs.len(),
{
    if evs.len() > 0 {
        lemma_terminal_state_stable(e, evs[0]);
        lemma_outcome_is_final(e, evs.skip(1));
    }
}

/// Cancellation issued while the run is still undecided always ends in
/// `Cancelled` carrying exactly the requested checkpoint: the interrupt
/// moves the run to `Cancelling` without an outcome, any late success
/// or exhaustion is discarded there, and the drain — natural or timed
/// out — finalizes `Cancelled(cp)`.
pub proof fn lemma_cancellation_wins(e: Engine, cp: Checkpoint, ev: Event)
    requires
        e.wf(),
        e.state is Running,
    ensures
        ({
            let c = engine_step(e, Event::Interrupt(cp));
            &&& c.state is Cancelling
            &&& c.outcome is None
            &&& c.wf()
            &&& ((ev is Drained || ev is GraceTimeout) ==> engine_step(c, ev).outcome == Some(
                Outcome::Cancelled(cp),
            ))
            &&& ((ev is WorkerFound || ev is SourceExhausted || ev is Interrupt) ==> engine_step(
                c,
                ev,
            ) == c)
        }),
{
}

} // verus!
