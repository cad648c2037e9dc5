//! The pipeline lifecycle state machine and the main-loop decisions.
//!
//! The pipeline climbs `Null → Ready → Paused → Playing` through explicit,
//! single-step commands, and descends the same way on shutdown; `Playing`
//! is the only state in which data flows end to end. While playing, the
//! controller reads the runtime's control channel: end-of-stream finishes
//! the loop successfully, a reported error finishes it with a runtime
//! fault, and state-transition notices are logged and ignored.

use crate::error::PipelineError;
use vstd::prelude::*;

verus! {

/// The lifecycle states, in climbing order.
#[derive(Clone, Copy, PartialEq, Eq, Structural, Debug)]
pub enum PipelineState {
    Null,
    Ready,
    Paused,
    Playing,
}

/// A state's height on the climb from `Null` (0) to `Playing` (3).
pub open spec fn rank(s: PipelineState) -> int {
    match s {
        PipelineState::Null => 0,
        PipelineState::Ready => 1,
        PipelineState::Paused => 2,
        PipelineState::Playing => 3,
    }
}

/// The next state up; `Playing` stays put.
pub open spec fn next_up(s: PipelineState) -> PipelineState {
    match s {
        PipelineState::Null => PipelineState::Ready,
        PipelineState::Ready => PipelineState::Paused,
        PipelineState::Paused => PipelineState::Playing,
        PipelineState::Playing => PipelineState::Playing,
    }
}

/// The next state down; `Null` stays put.
pub open spec fn next_down(s: PipelineState) -> PipelineState {
    match s {
        PipelineState::Null => PipelineState::Null,
        PipelineState::Ready => PipelineState::Null,
        PipelineState::Paused => PipelineState::Ready,
        PipelineState::Playing => PipelineState::Paused,
    }
}

/// Two states one explicit command apart.
pub open spec fn adjacent(a: PipelineState, b: PipelineState) -> bool {
    b == next_up(a) || b == next_down(a)
}

/// One explicit command toward `Playing`.
pub fn step_up(s: PipelineState) -> (r: PipelineState)
    ensures
        r == next_up(s),
        s != PipelineState::Playing ==> rank(r) == rank(s) + 1,
{
    match s {
        PipelineState::Null => PipelineState::Ready,
        PipelineState::Ready => PipelineState::Paused,
        PipelineState::Paused => PipelineState::Playing,
        PipelineState::Playing => PipelineState::Playing,
    }
}

/// One explicit command toward `Null`.
pub fn step_down(s: PipelineState) -> (r: PipelineState)
    ensures
        r == next_down(s),
        s != PipelineState::Null ==> rank(r) == rank(s) - 1,
{
    match s {
        PipelineState::Null => PipelineState::Null,
        PipelineState::Ready => PipelineState::Null,
        PipelineState::Paused => PipelineState::Ready,
        PipelineState::Playing => PipelineState::Paused,
    }
}

/// A message read from the runtime's control channel while playing.
#[derive(Debug)]
pub enum BusMessage {
    /// End of stream: the session is over.
    Eos,
    /// The runtime reports a fatal error, with its source, its message and
    /// optional debug detail.
    RuntimeError { source: String, message: String, debug_detail: Option<String> },
    /// A component changed state; diagnostic only.
    StateChanged { old_state: PipelineState, new_state: PipelineState },
    /// Anything else on the channel; ignored.
    Other,
}

/// What the main loop does after one control-channel message.
#[derive(Debug)]
pub enum LoopVerdict {
    /// Keep reading messages; data keeps flowing.
    KeepRunning,
    /// Terminate successfully.
    StopSuccess,
    /// Terminate with the fault to surface to the operator.
    StopFailure(PipelineError),
}

/// The main-loop decision rule: end-of-stream stops the loop successfully,
/// a runtime error stops it with a fault carrying the error's source,
/// message and debug detail, and everything else keeps it running.
pub open spec fn verdict_spec(m: BusMessage) -> LoopVerdict {
    match m {
        BusMessage::Eos => LoopVerdict::StopSuccess,
        BusMessage::RuntimeError { source, message, debug_detail } => LoopVerdict::StopFailure(
            PipelineError::RuntimeFault { source, message, debug_detail },
        ),
        BusMessage::StateChanged { .. } => LoopVerdict::KeepRunning,
        BusMessage::Other => LoopVerdict::KeepRunning,
    }
}

/// Decides what the main loop does with one control-channel message.
pub fn handle_message(m: BusMessage) -> (v: LoopVerdict)
    ensures
        v == verdict_spec(m),
{
    match m {
        BusMessage::Eos => LoopVerdict::StopSuccess,
        BusMessage::RuntimeError { source, message, debug_detail } => LoopVerdict::StopFailure(
            PipelineError::RuntimeFault { source, message, debug_detail },
        ),
        BusMessage::StateChanged { .. } => LoopVerdict::KeepRunning,
        BusMessage::Other => LoopVerdict::KeepRunning,
    }
}

/// The lifecycle controller. The ghost `trace` records every state the
/// pipeline has been in, in order, starting from `Null`.
pub struct Controller {
    pub state: PipelineState,
    pub trace: Ghost<Seq<PipelineState>>,
}

impl Controller {
    /// The trace starts at `Null`, ends at the current state, and every
    /// recorded transition is one explicit command: no state was ever
    /// skipped.
    pub open spec fn wf(self) -> bool {
        &&& self.trace@.len() > 0
        &&& self.trace@.first() == PipelineState::Null
        &&& self.trace@.last() == self.state
        &&& forall|i: int|
            0 <= i < self.trace@.len() - 1 ==> adjacent(
                #[trigger] self.trace@[i],
                self.trace@[i + 1],
            )
    }

    /// A freshly built pipeline, not yet started.
    pub fn new() -> (r: Controller)
        ensures
            r.wf(),
            r.state == PipelineState::Null,
    {
        let ghost t: Seq<PipelineState> = seq![PipelineState::Null];
        Controller { state: PipelineState::Null, trace: Ghost(t) }
    }

    /// Climbs, one explicit command at a time, until the pipeline plays.
    pub fn start(&mut self)
        requires
            old(self).wf(),
        ensures
            final(self).wf(),
            final(self).state == PipelineState::Playing,
    {
        while self.state != PipelineState::Playing
            invariant
                self.wf(),
            decreases 3 - rank(self.state),
        {
            let ghost prev = self.trace@;
            self.state = step_up(self.state);
            proof {
                self.trace@ = self.trace@.push(self.state);
                assert(forall|i: int|
                    0 <= i < prev.len() - 1 ==> adjacent(#[trigger] prev[i], prev[i + 1]));
            }
        }
    }

    /// Descends, one explicit command at a time, until the pipeline is
    /// torn down.
    pub fn shutdown(&mut self)
        requires
            old(self).wf(),
        ensures
            final(self).wf(),
            final(self).state == PipelineState::Null,
    {
        while self.state != PipelineState::Null
            invariant
                self.wf(),
            decreases rank(self.state),
        {
            let ghost prev = self.trace@;
            self.state = step_down(self.state);
            proof {
                self.trace@ = self.trace@.push(self.state);
                assert(forall|i: int|
                    0 <= i < prev.len() - 1 ==> adjacent(#[trigger] prev[i], prev[i + 1]));
            }
        }
    }
}

} // verus!
