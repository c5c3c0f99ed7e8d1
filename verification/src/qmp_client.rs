//! The control-protocol session machine: one task owns the socket and
//! feeds every observation — lines, end of stream, transport errors,
//! submitted commands — through these steps. The protocol is strictly
//! ordered and unpipelined: at most one command is in flight, later
//! submissions queue behind it, and the next response line always
//! belongs to the oldest pending caller. Events never satisfy a command.

use vstd::prelude::*;
use crate::Error;
use crate::qmp_types::{InvokeCommand, InvokeCommandView, LineShape, classify_line, json_keys_of, spec_classify, spec_invoke_line};

verus! {

/// Why a session ended.
#[derive(Debug, Clone, Copy, PartialEq, Eq, Structural)]
pub enum CloseKind {
    /// The remote end closed the socket: a clean close, not an error.
    CleanEof,
    /// The socket closed before the greeting arrived.
    HandshakeMissing,
    /// A malformed or out-of-order message; fatal to the session.
    ProtocolError,
    /// An unrecoverable transport error; fatal to the session.
    IoError,
}

/// Where the session stands.
#[derive(Debug, Clone, Copy, PartialEq, Eq, Structural)]
pub enum SessionState {
    /// Waiting for the server's one-time greeting.
    AwaitingGreeting,
    /// Greeting seen and capabilities sent; waiting for their
    /// acknowledgement.
    AwaitingCapAck,
    /// Handshake done; no command in flight.
    Idle,
    /// One command written; the next response line answers it.
    AwaitingResponse,
    /// The session is over.
    Closed,
}

/// What the surrounding task must do after a step.
#[derive(Debug)]
pub enum SessionAction {
    /// Write these bytes to the socket.
    WriteLine(Vec<u8>),
    /// Hand this response line to the oldest pending caller.
    DeliverResponse(Vec<u8>),
    /// The session is over: tell every observer; when the kind is an
    /// error, fail the pending and queued callers too.
    NotifyClose(CloseKind),
    /// The submitted command cannot be taken: the session is closed.
    RejectSubmit,
    /// Forward this unsolicited event line to the observer; it never
    /// satisfies a pending command.
    ObserveEvent(Vec<u8>),
}

/// The mathematical value of a [`SessionAction`].
pub enum SessionActionView {
    WriteLine(Seq<u8>),
    DeliverResponse(Seq<u8>),
    NotifyClose(CloseKind),
    RejectSubmit,
    ObserveEvent(Seq<u8>),
}

impl View for SessionAction {
    type V = SessionActionView;

    open spec fn view(&self) -> SessionActionView {
        match self {
            SessionAction::WriteLine(l) => SessionActionView::WriteLine(l@),
            SessionAction::DeliverResponse(l) => SessionActionView::DeliverResponse(l@),
            SessionAction::NotifyClose(k) => SessionActionView::NotifyClose(*k),
            SessionAction::RejectSubmit => SessionActionView::RejectSubmit,
            SessionAction::ObserveEvent(l) => SessionActionView::ObserveEvent(l@),
        }
    }
}

impl DeepView for SessionAction {
    type V = SessionActionView;

    open spec fn deep_view(&self) -> SessionActionView {
        self.view()
    }
}

/// The session machine: its state, why it closed if it did, and the
/// commands queued behind the single in-flight slot, oldest first.
#[derive(Debug)]
pub struct Session {
    state: SessionState,
    reason: Option<CloseKind>,
    queue: Vec<InvokeCommand>,
}

/// The mathematical value of a [`Session`].
#[verifier::ext_equal]
pub struct SessionView {
    pub state: SessionState,
    pub reason: Option<CloseKind>,
    pub queue: Seq<InvokeCommandView>,
}

impl View for Session {
    type V = SessionView;

    closed spec fn view(&self) -> SessionView {
        SessionView { state: self.state, reason: self.reason, queue: self.queue.deep_view() }
    }
}

/// The session's invariants: an idle session has nothing queued, and a
/// close reason is recorded exactly when the session is closed.
pub open spec fn wf_session(s: SessionView) -> bool {
    &&& s.state == SessionState::Idle ==> s.queue.len() == 0
    &&& s.reason is Some <==> s.state == SessionState::Closed
}

/// The session closed for the given reason, its queue discarded.
pub open spec fn spec_closed(k: CloseKind) -> SessionView {
    SessionView { state: SessionState::Closed, reason: Some(k), queue: Seq::empty() }
}

/// The capability-negotiation line sent upon the greeting.
pub open spec fn spec_capabilities_line() -> Seq<u8> {
    spec_invoke_line(InvokeCommandView::Empty { execute: "qmp_capabilities"@ })
}

/// From an idle session, writes the oldest queued command if any.
pub open spec fn spec_write_next(s: SessionView) -> (SessionView, Seq<SessionActionView>) {
    if s.queue.len() == 0 {
        (SessionView { state: SessionState::Idle, ..s }, Seq::empty())
    } else {
        (
            SessionView { state: SessionState::AwaitingResponse, queue: s.queue.drop_first(), ..s },
            seq![SessionActionView::WriteLine(spec_invoke_line(s.queue[0]))],
        )
    }
}

/// One step on a received line of the given shape. A greeting is only
/// valid while it is awaited and answers with the capabilities command;
/// events are never delivered to a caller; a response line answers the
/// in-flight command and lets the next queued command go out; anything
/// malformed or out of order is fatal.
pub open spec fn spec_on_line(s: SessionView, shape: LineShape, line: Seq<u8>) -> (
    SessionView,
    Seq<SessionActionView>,
) {
    if s.state == SessionState::Closed {
        (s, Seq::empty())
    } else if shape == LineShape::Malformed {
        (
            spec_closed(CloseKind::ProtocolError),
            seq![SessionActionView::NotifyClose(CloseKind::ProtocolError)],
        )
    } else {
        match s.state {
            SessionState::AwaitingGreeting => match shape {
                LineShape::Greeting => (
                    SessionView { state: SessionState::AwaitingCapAck, ..s },
                    seq![SessionActionView::WriteLine(spec_capabilities_line())],
                ),
                _ => (
                    spec_closed(CloseKind::ProtocolError),
                    seq![SessionActionView::NotifyClose(CloseKind::ProtocolError)],
                ),
            },
            SessionState::AwaitingCapAck => match shape {
                LineShape::Reply => spec_write_next(SessionView { state: SessionState::Idle, ..s }),
                LineShape::Event => (s, seq![SessionActionView::ObserveEvent(line)]),
                _ => (
                    spec_closed(CloseKind::ProtocolError),
                    seq![SessionActionView::NotifyClose(CloseKind::ProtocolError)],
                ),
            },
            SessionState::Idle => match shape {
                LineShape::Event => (s, seq![SessionActionView::ObserveEvent(line)]),
                LineShape::Reply => (s, Seq::empty()),
                _ => (
                    spec_closed(CloseKind::ProtocolError),
                    seq![SessionActionView::NotifyClose(CloseKind::ProtocolError)],
                ),
            },
            SessionState::AwaitingResponse => match shape {
                LineShape::Reply => {
                    let (s2, acts) = spec_write_next(
                        SessionView { state: SessionState::Idle, ..s },
                    );
                    (s2, seq![SessionActionView::DeliverResponse(line)] + acts)
                },
                LineShape::Event => (s, seq![SessionActionView::ObserveEvent(line)]),
                _ => (
                    spec_closed(CloseKind::ProtocolError),
                    seq![SessionActionView::NotifyClose(CloseKind::ProtocolError)],
                ),
            },
            SessionState::Closed => (s, Seq::empty()),
        }
    }
}

/// One step on a submitted command: rejected when closed, written at
/// once when idle, queued behind the in-flight slot otherwise.
pub open spec fn spec_on_submit(s: SessionView, c: InvokeCommandView) -> (
    SessionView,
    Seq<SessionActionView>,
) {
    match s.state {
        SessionState::Closed => (s, seq![SessionActionView::RejectSubmit]),
        SessionState::Idle => (
            SessionView { state: SessionState::AwaitingResponse, ..s },
            seq![SessionActionView::WriteLine(spec_invoke_line(c))],
        ),
        _ => (SessionView { queue: s.queue.push(c), ..s }, Seq::empty()),
    }
}

/// One step on end of stream: before the greeting it is the distinct
/// handshake-missing failure; afterwards it is a clean close.
pub open spec fn spec_on_eof(s: SessionView) -> (SessionView, Seq<SessionActionView>) {
    match s.state {
        SessionState::Closed => (s, Seq::empty()),
        SessionState::AwaitingGreeting => (
            spec_closed(CloseKind::HandshakeMissing),
            seq![SessionActionView::NotifyClose(CloseKind::HandshakeMissing)],
        ),
        _ => (
            spec_closed(CloseKind::CleanEof),
            seq![SessionActionView::NotifyClose(CloseKind::CleanEof)],
        ),
    }
}

/// One step on a transport error: fatal, recorded, surfaced to every
/// later submission.
pub open spec fn spec_on_io_error(s: SessionView) -> (SessionView, Seq<SessionActionView>) {
    match s.state {
        SessionState::Closed => (s, Seq::empty()),
        _ => (
            spec_closed(CloseKind::IoError),
            seq![SessionActionView::NotifyClose(CloseKind::IoError)],
        ),
    }
}

/// The error a close reason surfaces to callers; a clean close is none.
pub open spec fn spec_close_error(k: CloseKind) -> Option<Error> {
    match k {
        CloseKind::CleanEof => None,
        CloseKind::HandshakeMissing => Some(Error::HandshakeMissing),
        CloseKind::ProtocolError => Some(Error::Protocol),
        CloseKind::IoError => Some(Error::Io),
    }
}

/// The error a close reason surfaces to callers; a clean close is none.
pub fn close_error(k: CloseKind) -> (r: Option<Error>)
    ensures
        r == spec_close_error(k),
{
    match k {
        CloseKind::CleanEof => None,
        CloseKind::HandshakeMissing => Some(Error::HandshakeMissing),
        CloseKind::ProtocolError => Some(Error::Protocol),
        CloseKind::IoError => Some(Error::Io),
    }
}

impl Session {
    /// A fresh session, awaiting the greeting.
    pub fn new() -> (r: Self)
        ensures
            r@ == (SessionView {
                state: SessionState::AwaitingGreeting,
                reason: None,
                queue: Seq::empty(),
            }),
            wf_session(r@),
    {
        let r = Session { state: SessionState::AwaitingGreeting, reason: None, queue: Vec::new() };
        proof {
            assert(r@.queue =~= Seq::<InvokeCommandView>::empty());
            assert(r@ =~= SessionView {
                state: SessionState::AwaitingGreeting,
                reason: None,
                queue: Seq::empty(),
            });
        }
        r
    }

    /// Where the session stands.
    pub fn state(&self) -> (r: SessionState)
        ensures
            r == self@.state,
    {
        self.state
    }

    /// Why the session closed, once it has.
    pub fn close_reason(&self) -> (r: Option<CloseKind>)
        ensures
            r == self@.reason,
    {
        self.reason
    }

    fn close_with(&mut self, k: CloseKind)
        ensures
            final(self)@ == spec_closed(k),
    {
        self.state = SessionState::Closed;
        self.reason = Some(k);
        self.queue.clear();
        proof {
            assert(final(self)@.queue =~= Seq::<InvokeCommandView>::empty());
            assert(final(self)@ =~= spec_closed(k));
        }
    }

    fn write_next(&mut self) -> (r: Vec<SessionAction>)
        requires
            old(self)@.state == SessionState::Idle,
        ensures
            (final(self)@, r.deep_view()) == spec_write_next(old(self)@),
    {
        if self.queue.len() == 0 {
            let r: Vec<SessionAction> = Vec::new();
            proof {
                assert(r.deep_view() =~= Seq::<SessionActionView>::empty());
                assert(final(self)@ =~= spec_write_next(old(self)@).0);
            }
            r
        } else {
            let cmd = self.queue.remove(0);
            let line = cmd.to_line();
            self.state = SessionState::AwaitingResponse;
            let mut r: Vec<SessionAction> = Vec::new();
            r.push(SessionAction::WriteLine(line));
            proof {
                assert(final(self)@.queue =~= old(self)@.queue.drop_first());
                assert(final(self)@ =~= spec_write_next(old(self)@).0);
                assert(r.deep_view() =~= spec_write_next(old(self)@).1);
            }
            r
        }
    }

    /// Feeds one received line through the machine.
    pub fn on_line(&mut self, line: &[u8]) -> (r: Vec<SessionAction>)
        requires
            wf_session(old(self)@),
        ensures
            wf_session(final(self)@),
            (final(self)@, r.deep_view()) == spec_on_line(
                old(self)@,
                spec_classify(json_keys_of(line@)),
                line@,
            ),
    {
        let shape = classify_line(line);
        let nothing: Vec<SessionAction> = Vec::new();
        proof {
            assert(nothing.deep_view() =~= Seq::<SessionActionView>::empty());
        }
        if matches!(self.state, SessionState::Closed) {
            return nothing;
        }
        if matches!(shape, LineShape::Malformed) {
            self.close_with(CloseKind::ProtocolError);
            let mut r: Vec<SessionAction> = Vec::new();
            r.push(SessionAction::NotifyClose(CloseKind::ProtocolError));
            proof {
                assert(r.deep_view() =~= seq![
                    SessionActionView::NotifyClose(CloseKind::ProtocolError),
                ]);
            }
            return r;
        }
        match self.state {
            SessionState::AwaitingGreeting => {
                match shape {
                    LineShape::Greeting => {
                        self.state = SessionState::AwaitingCapAck;
                        let caps = InvokeCommand::capabilities();
                        let mut r: Vec<SessionAction> = Vec::new();
                        r.push(SessionAction::WriteLine(caps.to_line()));
                        proof {
                            assert(r.deep_view() =~= seq![
                                SessionActionView::WriteLine(spec_capabilities_line()),
                            ]);
                            assert(final(self)@ =~= spec_on_line(
                                old(self)@,
                                spec_classify(json_keys_of(line@)),
                                line@,
                            ).0);
                        }
                        r
                    },
                    _ => {
                        self.close_with(CloseKind::ProtocolError);
                        let mut r: Vec<SessionAction> = Vec::new();
                        r.push(SessionAction::NotifyClose(CloseKind::ProtocolError));
                        proof {
                            assert(r.deep_view() =~= seq![
                                SessionActionView::NotifyClose(CloseKind::ProtocolError),
                            ]);
                        }
                        r
                    },
                }
            },
            SessionState::AwaitingCapAck => {
                match shape {
                    LineShape::Reply => {
                        self.state = SessionState::Idle;
                        proof {
                            assert(self@ =~= SessionView {
                                state: SessionState::Idle,
                                ..old(self)@
                            });
                        }
                        self.write_next()
                    },
                    LineShape::Event => {
                        let mut r: Vec<SessionAction> = Vec::new();
                        let mut line_copy: Vec<u8> = Vec::new();
                        crate::text::push_bytes(&mut line_copy, line);
                        r.push(SessionAction::ObserveEvent(line_copy));
                        proof {
                            assert(r.deep_view() =~= seq![SessionActionView::ObserveEvent(line@)]);
                        }
                        r
                    },
                    _ => {
                        self.close_with(CloseKind::ProtocolError);
                        let mut r: Vec<SessionAction> = Vec::new();
                        r.push(SessionAction::NotifyClose(CloseKind::ProtocolError));
                        proof {
                            assert(r.deep_view() =~= seq![
                                SessionActionView::NotifyClose(CloseKind::ProtocolError),
                            ]);
                        }
                        r
                    },
                }
            },
            SessionState::Idle => {
                match shape {
                    LineShape::Event => {
                        let mut r: Vec<SessionAction> = Vec::new();
                        let mut line_copy: Vec<u8> = Vec::new();
                        crate::text::push_bytes(&mut line_copy, line);
                        r.push(SessionAction::ObserveEvent(line_copy));
                        proof {
                            assert(r.deep_view() =~= seq![SessionActionView::ObserveEvent(line@)]);
                        }
                        r
                    },
                    LineShape::Reply => nothing,
                    _ => {
                        self.close_with(CloseKind::ProtocolError);
                        let mut r: Vec<SessionAction> = Vec::new();
                        r.push(SessionAction::NotifyClose(CloseKind::ProtocolError));
                        proof {
                            assert(r.deep_view() =~= seq![
                                SessionActionView::NotifyClose(CloseKind::ProtocolError),
                            ]);
                        }
                        r
                    },
                }
            },
            SessionState::AwaitingResponse => {
                match shape {
                    LineShape::Reply => {
                        self.state = SessionState::Idle;
                        proof {
                            assert(self@ =~= SessionView {
                                state: SessionState::Idle,
                                ..old(self)@
                            });
                        }
                        let rest = self.write_next();
                        let mut r: Vec<SessionAction> = Vec::new();
                        let mut line_copy: Vec<u8> = Vec::new();
                        crate::text::push_bytes(&mut line_copy, line);
                        r.push(SessionAction::DeliverResponse(line_copy));
                        let mut rest = rest;
                        let ghost restv = rest.deep_view();
                        r.append(&mut rest);
                        proof {
                            assert(line_copy@ =~= line@);
                            assert(r.deep_view() =~= seq![
                                SessionActionView::DeliverResponse(line@),
                            ] + restv);
                        }
                        r
                    },
                    LineShape::Event => {
                        let mut r: Vec<SessionAction> = Vec::new();
                        let mut line_copy: Vec<u8> = Vec::new();
                        crate::text::push_bytes(&mut line_copy, line);
                        r.push(SessionAction::ObserveEvent(line_copy));
                        proof {
                            assert(r.deep_view() =~= seq![SessionActionView::ObserveEvent(line@)]);
                        }
                        r
                    },
                    _ => {
                        self.close_with(CloseKind::ProtocolError);
                        let mut r: Vec<SessionAction> = Vec::new();
                        r.push(SessionAction::NotifyClose(CloseKind::ProtocolError));
                        proof {
                            assert(r.deep_view() =~= seq![
                                SessionActionView::NotifyClose(CloseKind::ProtocolError),
                            ]);
                        }
                        r
                    },
                }
            },
            SessionState::Closed => nothing,
        }
    }

    /// Feeds one submitted command through the machine.
    pub fn on_submit(&mut self, command: InvokeCommand) -> (r: Vec<SessionAction>)
        requires
            wf_session(old(self)@),
        ensures
            wf_session(final(self)@),
            (final(self)@, r.deep_view()) == spec_on_submit(old(self)@, command@),
    {
        match self.state {
            SessionState::Closed => {
                let mut r: Vec<SessionAction> = Vec::new();
                r.push(SessionAction::RejectSubmit);
                proof {
                    assert(r.deep_view() =~= seq![SessionActionView::RejectSubmit]);
                }
                r
            },
            SessionState::Idle => {
                let line = command.to_line();
                self.state = SessionState::AwaitingResponse;
                let mut r: Vec<SessionAction> = Vec::new();
                r.push(SessionAction::WriteLine(line));
                proof {
                    assert(r.deep_view() =~= seq![
                        SessionActionView::WriteLine(spec_invoke_line(command@)),
                    ]);
                    assert(final(self)@ =~= spec_on_submit(old(self)@, command@).0);
                }
                r
            },
            _ => {
                let ghost c = command@;
                self.queue.push(command);
                let r: Vec<SessionAction> = Vec::new();
                proof {
                    assert(final(self)@.queue =~= old(self)@.queue.push(c));
                    assert(final(self)@ =~= spec_on_submit(old(self)@, c).0);
                    assert(r.deep_view() =~= Seq::<SessionActionView>::empty());
                }
                r
            },
        }
    }

    /// Feeds the end of the stream through the machine.
    pub fn on_eof(&mut self) -> (r: Vec<SessionAction>)
        requires
            wf_session(old(self)@),
        ensures
            wf_session(final(self)@),
            (final(self)@, r.deep_view()) == spec_on_eof(old(self)@),
    {
        match self.state {
            SessionState::Closed => {
                let r: Vec<SessionAction> = Vec::new();
                proof {
                    assert(r.deep_view() =~= Seq::<SessionActionView>::empty());
                }
                r
            },
            SessionState::AwaitingGreeting => {
                self.close_with(CloseKind::HandshakeMissing);
                let mut r: Vec<SessionAction> = Vec::new();
                r.push(SessionAction::NotifyClose(CloseKind::HandshakeMissing));
                proof {
                    assert(r.deep_view() =~= seq![
                        SessionActionView::NotifyClose(CloseKind::HandshakeMissing),
                    ]);
                }
                r
            },
            _ => {
                self.close_with(CloseKind::CleanEof);
                let mut r: Vec<SessionAction> = Vec::new();
                r.push(SessionAction::NotifyClose(CloseKind::CleanEof));
                proof {
                    assert(r.deep_view() =~= seq![
                        SessionActionView::NotifyClose(CloseKind::CleanEof),
                    ]);
                }
                r
            },
        }
    }

    /// Feeds a transport error through the machine.
    pub fn on_io_error(&mut self) -> (r: Vec<SessionAction>)
        requires
            wf_session(old(self)@),
        ensures
            wf_session(final(self)@),
            (final(self)@, r.deep_view()) == spec_on_io_error(old(self)@),
    {
        match self.state {
            SessionState::Closed => {
                let r: Vec<SessionAction> = Vec::new();
                proof {
                    assert(r.deep_view() =~= Seq::<SessionActionView>::empty());
                }
                r
            },
            _ => {
                self.close_with(CloseKind::IoError);
                let mut r: Vec<SessionAction> = Vec::new();
                r.push(SessionAction::NotifyClose(CloseKind::IoError));
                proof {
                    assert(r.deep_view() =~= seq![
                        SessionActionView::NotifyClose(CloseKind::IoError),
                    ]);
                }
                r
            },
        }
    }
}

/// An event line never satisfies a pending command: a step on an event
/// delivers no response to any caller.
pub proof fn lemma_event_never_delivers(s: SessionView, line: Seq<u8>)
    requires
        wf_session(s),
    ensures
        forall|i: int|
            0 <= i < spec_on_line(s, LineShape::Event, line).1.len() ==> !(#[trigger] spec_on_line(
                s,
                LineShape::Event,
                line,
            ).1[i] matches SessionActionView::DeliverResponse(r)),
{
}

/// A response line satisfies exactly the oldest pending caller, and the
/// next command written afterwards is the oldest queued one: responses
/// are matched to submissions strictly in order.
pub proof fn lemma_response_satisfies_oldest(s: SessionView, line: Seq<u8>)
    requires
        wf_session(s),
        s.state == SessionState::AwaitingResponse,
    ensures
        ({
            let (s2, acts) = spec_on_line(s, LineShape::Reply, line);
            &&& acts.len() >= 1
            &&& acts[0] == SessionActionView::DeliverResponse(line)
            &&& (s.queue.len() > 0 ==> acts.len() == 2 && acts[1]
                == SessionActionView::WriteLine(spec_invoke_line(s.queue[0])) && s2.queue
                == s.queue.drop_first() && s2.state == SessionState::AwaitingResponse)
            &&& (s.queue.len() == 0 ==> acts.len() == 1 && s2.state == SessionState::Idle)
        }),
{
    let (s2, acts) = spec_on_line(s, LineShape::Reply, line);
    if s.queue.len() > 0 {
        assert(acts =~= seq![SessionActionView::DeliverResponse(line)] + seq![
            SessionActionView::WriteLine(spec_invoke_line(s.queue[0])),
        ]);
    } else {
        assert(acts =~= seq![SessionActionView::DeliverResponse(line)]);
    }
}

/// When the socket closes before the greeting arrives, the session ends
/// with the distinct handshake-missing failure — not a generic
/// transport error — and that is what callers observe.
pub proof fn lemma_eof_before_greeting(s: SessionView)
    requires
        wf_session(s),
        s.state == SessionState::AwaitingGreeting,
    ensures
        spec_on_eof(s).0.reason == Some(CloseKind::HandshakeMissing),
        spec_on_eof(s).1 == seq![SessionActionView::NotifyClose(CloseKind::HandshakeMissing)],
        spec_close_error(CloseKind::HandshakeMissing) == Some(Error::HandshakeMissing),
        spec_close_error(CloseKind::HandshakeMissing) != Some(Error::Io),
{
}

} // verus!
