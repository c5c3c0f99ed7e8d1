//! The translator's runtime decisions for one instance. Liveness has one
//! definition throughout: a control-protocol connection to the expected
//! socket succeeding. Stopping awaits the power-off acknowledgement and
//! then the session's close before it is complete; rebooting awaits only
//! the acknowledgement and leaves the session open.

use vstd::prelude::*;
use crate::Error;
use crate::qmp_types::{InvokeCommand, InvokeCommandView};

verus! {

/// What the last liveness probe showed.
#[derive(Debug, Clone, Copy, PartialEq, Eq, Structural)]
pub enum InstanceState {
    NotRunning,
    Running,
}

/// Whether an instance in this state counts as running.
pub open spec fn spec_is_running(s: InstanceState) -> bool {
    s == InstanceState::Running
}

/// The translator's record of one instance, refreshed by the probe.
#[derive(Debug)]
pub struct InstanceRuntime {
    state: InstanceState,
}

impl View for InstanceRuntime {
    type V = InstanceState;

    closed spec fn view(&self) -> InstanceState {
        self.state
    }
}

impl InstanceRuntime {
    /// A record that has not seen the instance running.
    pub fn new() -> (r: Self)
        ensures
            r@ == InstanceState::NotRunning,
    {
        InstanceRuntime { state: InstanceState::NotRunning }
    }

    /// Records the outcome of one liveness probe: whether a
    /// control-protocol connection to the instance's socket succeeded.
    pub fn observe_probe(&mut self, connect_ok: bool)
        ensures
            final(self)@ == if connect_ok {
                InstanceState::Running
            } else {
                InstanceState::NotRunning
            },
    {
        self.state = if connect_ok {
            InstanceState::Running
        } else {
            InstanceState::NotRunning
        };
    }

    /// Whether the instance is running, exactly as the last probe saw
    /// it; asking does not change the record.
    pub fn is_running(&self) -> (r: bool)
        ensures
            r == spec_is_running(self@),
    {
        matches!(self.state, InstanceState::Running)
    }
}

/// The liveness probe is idempotent: two probe interpretations of the
/// same observed state — so two probes in a row with no start or stop
/// between them — yield the same boolean.
pub proof fn lemma_liveness_idempotent(r1: bool, r2: bool, s: InstanceState)
    requires
        r1 == spec_is_running(s),
        r2 == spec_is_running(s),
    ensures
        r1 == r2,
{
}

/// Starting is allowed exactly when the instance is not running; a
/// running instance is a conflict, reported distinctly.
pub fn start_gate(running: bool) -> (r: Result<(), Error>)
    ensures
        r matches Ok(u) <==> !running,
        r matches Err(e) ==> e == Error::VMRunning,
{
    if running {
        Err(Error::VMRunning)
    } else {
        Ok(())
    }
}

/// Connecting to the control socket for a runtime operation is allowed
/// exactly when the instance is running; otherwise the caller gets the
/// distinct not-running failure.
pub fn connect_gate(running: bool) -> (r: Result<(), Error>)
    ensures
        r matches Ok(u) <==> running,
        r matches Err(e) ==> e == Error::VMNotRunning,
{
    if running {
        Ok(())
    } else {
        Err(Error::VMNotRunning)
    }
}

/// Where a graceful stop stands.
#[derive(Debug, Clone, Copy, PartialEq, Eq, Structural)]
pub enum StopPhase {
    /// Opening the control-protocol connection.
    Connecting,
    /// Power-off sent; awaiting its acknowledgement.
    AwaitingAck,
    /// Acknowledged; awaiting the session's close.
    AwaitingClose,
    /// The session closed after the acknowledgement: the instance is
    /// actually down, not merely told to go down.
    Done,
    /// The connection or the session failed.
    Failed,
}

/// What a stop operation can observe.
#[derive(Debug, Clone, Copy, PartialEq, Eq, Structural)]
pub enum StopEvent {
    /// The connection and handshake succeeded.
    Connected,
    /// The in-flight command's response arrived.
    ResponseReceived,
    /// The session closed.
    SessionClosed,
    /// The connection or the session failed.
    OperationFailed,
}

/// One step of a graceful stop: connect, send power-off, await the
/// acknowledgement, await the close; any failure is final, and an event
/// out of order changes nothing.
pub open spec fn spec_stop_step(p: StopPhase, e: StopEvent) -> StopPhase {
    if e == StopEvent::OperationFailed && p != StopPhase::Done {
        StopPhase::Failed
    } else {
        match (p, e) {
            (StopPhase::Connecting, StopEvent::Connected) => StopPhase::AwaitingAck,
            (StopPhase::AwaitingAck, StopEvent::ResponseReceived) => StopPhase::AwaitingClose,
            (StopPhase::AwaitingClose, StopEvent::SessionClosed) => StopPhase::Done,
            _ => p,
        }
    }
}

/// A graceful stop of one instance.
#[derive(Debug)]
pub struct StopOperation {
    phase: StopPhase,
}

impl View for StopOperation {
    type V = StopPhase;

    closed spec fn view(&self) -> StopPhase {
        self.phase
    }
}

impl StopOperation {
    /// A stop about to open its connection.
    pub fn new() -> (r: Self)
        ensures
            r@ == StopPhase::Connecting,
    {
        StopOperation { phase: StopPhase::Connecting }
    }

    /// The command a stop sends once connected: power-off.
    pub fn command(&self) -> (r: InvokeCommand)
        ensures
            r@ == (InvokeCommandView::Empty { execute: "quit"@ }),
    {
        InvokeCommand::quit()
    }

    /// Feeds one observation through the stop.
    pub fn step(&mut self, e: StopEvent)
        ensures
            final(self)@ == spec_stop_step(old(self)@, e),
    {
        if matches!(e, StopEvent::OperationFailed) && !matches!(self.phase, StopPhase::Done) {
            self.phase = StopPhase::Failed;
            return;
        }
        match (self.phase, e) {
            (StopPhase::Connecting, StopEvent::Connected) => {
                self.phase = StopPhase::AwaitingAck;
            },
            (StopPhase::AwaitingAck, StopEvent::ResponseReceived) => {
                self.phase = StopPhase::AwaitingClose;
            },
            (StopPhase::AwaitingClose, StopEvent::SessionClosed) => {
                self.phase = StopPhase::Done;
            },
            _ => {},
        }
    }

    /// Whether the stop is complete: the instance was observed down.
    pub fn is_done(&self) -> (r: bool)
        ensures
            r == (self@ == StopPhase::Done),
    {
        matches!(self.phase, StopPhase::Done)
    }
}

/// A stop completes only after the power-off command was acknowledged
/// and the session then closed: the one step that reaches completion is
/// the session's close, observed while awaiting it — so a caller that
/// waits for completion observes actual termination, never mere command
/// acceptance.
pub proof fn lemma_stop_completes_only_after_close(p: StopPhase, e: StopEvent)
    ensures
        spec_stop_step(p, e) == StopPhase::Done ==> p == StopPhase::Done || (p
            == StopPhase::AwaitingClose && e == StopEvent::SessionClosed),
{
}

/// Where a soft reboot stands.
#[derive(Debug, Clone, Copy, PartialEq, Eq, Structural)]
pub enum RebootPhase {
    /// Opening the control-protocol connection.
    Connecting,
    /// Reset sent; awaiting its acknowledgement.
    AwaitingAck,
    /// Acknowledged; the session stays open across the reset.
    Done,
    /// The connection or the session failed.
    Failed,
}

/// One step of a soft reboot: connect, send reset, await only the
/// acknowledgement; the close is not awaited.
pub open spec fn spec_reboot_step(p: RebootPhase, e: StopEvent) -> RebootPhase {
    if e == StopEvent::OperationFailed && p != RebootPhase::Done {
        RebootPhase::Failed
    } else {
        match (p, e) {
            (RebootPhase::Connecting, StopEvent::Connected) => RebootPhase::AwaitingAck,
            (RebootPhase::AwaitingAck, StopEvent::ResponseReceived) => RebootPhase::Done,
            _ => p,
        }
    }
}

/// A soft reboot of one instance.
#[derive(Debug)]
pub struct RebootOperation {
    phase: RebootPhase,
}

impl View for RebootOperation {
    type V = RebootPhase;

    closed spec fn view(&self) -> RebootPhase {
        self.phase
    }
}

impl RebootOperation {
    /// A reboot about to open its connection.
    pub fn new() -> (r: Self)
        ensures
            r@ == RebootPhase::Connecting,
    {
        RebootOperation { phase: RebootPhase::Connecting }
    }

    /// The command a reboot sends once connected: soft reset.
    pub fn command(&self) -> (r: InvokeCommand)
        ensures
            r@ == (InvokeCommandView::Empty { execute: "system_reset"@ }),
    {
        InvokeCommand::reboot()
    }

    /// Feeds one observation through the reboot.
    pub fn step(&mut self, e: StopEvent)
        ensures
            final(self)@ == spec_reboot_step(old(self)@, e),
    {
        if matches!(e, StopEvent::OperationFailed) && !matches!(self.phase, RebootPhase::Done) {
            self.phase = RebootPhase::Failed;
            return;
        }
        match (self.phase, e) {
            (RebootPhase::Connecting, StopEvent::Connected) => {
                self.phase = RebootPhase::AwaitingAck;
            },
            (RebootPhase::AwaitingAck, StopEvent::ResponseReceived) => {
                self.phase = RebootPhase::Done;
            },
            _ => {},
        }
    }

    /// Whether the reboot is complete: the reset was acknowledged.
    pub fn is_done(&self) -> (r: bool)
        ensures
            r == (self@ == RebootPhase::Done),
    {
        matches!(self.phase, RebootPhase::Done)
    }
}

} // verus!
