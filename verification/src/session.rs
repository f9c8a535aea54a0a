//! The manager of one WebTransport session.
//!
//! After the upgrade the session owns its connection. It opens one
//! bidirectional stream of its own for a welcome message and then waits on
//! three sources at once: datagrams, unidirectional streams opened by the
//! peer, and bidirectional streams opened by the peer. This module decides
//! what follows each event; whoever holds the connection waits, reports the
//! event, and carries the action out.

use crate::echo::{script_view, ReadOutcome, StreamOp, StreamOpView};
use vstd::prelude::*;
use vstd::string::*;

verus! {

/// Why a session ended.
#[derive(Clone, Copy, Debug, PartialEq, Eq, Structural)]
pub enum SessionEnd {
    /// The stream for the welcome message could not be opened.
    WelcomeFailed,
    /// Reading the next datagram failed.
    DatagramsFailed,
    /// The peer opens no more unidirectional streams.
    UniFinished,
    /// Accepting a unidirectional stream failed.
    UniFailed,
    /// The peer opens no more bidirectional streams.
    BidiFinished,
    /// Accepting a bidirectional stream failed.
    BidiFailed,
    /// None of the three sources can deliver anything any more.
    SourcesExhausted,
}

impl SessionEnd {
    /// Whether the session as a whole counts as failed. Only a session that
    /// never got its welcome stream does; every other end is a regular one.
    pub open spec fn is_failure_spec(self) -> bool {
        self == SessionEnd::WelcomeFailed
    }

    /// Whether the session as a whole counts as failed.
    #[verifier::when_used_as_spec(is_failure_spec)]
    pub fn is_failure(self) -> (failed: bool)
        ensures
            failed == self.is_failure_spec(),
    {
        match self {
            SessionEnd::WelcomeFailed => true,
            _ => false,
        }
    }
}

/// Where a session stands. `I` is the type of the identifier that the
/// transport gives to sessions and their streams.
#[derive(Clone, Copy, Debug, PartialEq, Eq)]
pub enum SessionPhase<I> {
    /// The welcome stream is being opened.
    Opening,
    /// Waiting on the three sources.
    Listening,
    /// A unidirectional stream with this identifier was accepted, and the
    /// stream that will carry its echo is being opened.
    OpeningReply(I),
    /// The session is over.
    Ended(SessionEnd),
}

/// What happened on the session's connection.
#[derive(Clone, Debug, PartialEq, Eq)]
pub enum SessionEvent<I> {
    /// The welcome stream is open.
    WelcomeOpened,
    /// The welcome stream could not be opened.
    WelcomeFailed,
    /// A datagram with this payload arrived.
    Datagram(Vec<u8>),
    /// Reading a datagram failed.
    DatagramFailed,
    /// The peer opened a unidirectional stream.
    UniAccepted(I),
    /// The peer will open no more unidirectional streams.
    UniFinished,
    /// Accepting a unidirectional stream failed.
    UniFailed,
    /// The stream for an echo is open.
    ReplyOpened,
    /// The stream for an echo could not be opened.
    ReplyFailed,
    /// The peer opened a bidirectional stream.
    BidiAccepted(I),
    /// The peer sent an ordinary request inside the session.
    RequestAccepted,
    /// The peer will open no more bidirectional streams.
    BidiFinished,
    /// Accepting a bidirectional stream failed.
    BidiFailed,
    /// All three sources are closed.
    SourcesExhausted,
}

/// What the holder of the connection does next.
#[derive(Clone, Debug, PartialEq, Eq)]
pub enum SessionAction<I> {
    /// Open a bidirectional stream in the session with this identifier.
    OpenWelcome(I),
    /// Start the welcome worker on the stream just opened, then wait.
    SpawnWelcome,
    /// Send one datagram with this payload, then wait. A failure to send
    /// is not reported back: datagrams may be lost.
    SendDatagram(Vec<u8>),
    /// Open a unidirectional stream towards this identifier.
    OpenReply(I),
    /// Start an echo worker that reads the accepted unidirectional stream
    /// with this identifier and replays it on the stream just opened, then wait.
    SpawnUniEcho(I),
    /// Split the accepted bidirectional stream with this identifier and
    /// start an echo worker on its two halves, then wait.
    SpawnBidiEcho(I),
    /// Drop the request's stream, then wait.
    DropRequest,
    /// Do nothing, then wait.
    Wait,
    /// Stop waiting. Workers already started run on to their own end.
    End(SessionEnd),
}

/// The transition of a session: the phase and the action that follow an
/// event, or `None` where the event cannot occur in the phase.
pub open spec fn session_step<I>(phase: SessionPhase<I>, event: SessionEvent<I>) -> Option<
    (SessionPhase<I>, SessionAction<I>),
> {
    match (phase, event) {
        (SessionPhase::Opening, SessionEvent::WelcomeOpened) => Some(
            (SessionPhase::Listening, SessionAction::SpawnWelcome),
        ),
        (SessionPhase::Opening, SessionEvent::WelcomeFailed) => Some(
            (
                SessionPhase::Ended(SessionEnd::WelcomeFailed),
                SessionAction::End(SessionEnd::WelcomeFailed),
            ),
        ),
        (SessionPhase::Listening, SessionEvent::Datagram(payload)) => Some(
            (SessionPhase::Listening, SessionAction::SendDatagram(payload)),
        ),
        (SessionPhase::Listening, SessionEvent::DatagramFailed) => Some(
            ended(SessionEnd::DatagramsFailed),
        ),
        (SessionPhase::Listening, SessionEvent::UniAccepted(id)) => Some(
            (SessionPhase::OpeningReply(id), SessionAction::OpenReply(id)),
        ),
        (SessionPhase::Listening, SessionEvent::UniFinished) => Some(
            ended(SessionEnd::UniFinished),
        ),
        (SessionPhase::Listening, SessionEvent::UniFailed) => Some(ended(SessionEnd::UniFailed)),
        (SessionPhase::Listening, SessionEvent::BidiAccepted(id)) => Some(
            (SessionPhase::Listening, SessionAction::SpawnBidiEcho(id)),
        ),
        (SessionPhase::Listening, SessionEvent::RequestAccepted) => Some(
            (SessionPhase::Listening, SessionAction::DropRequest),
        ),
        (SessionPhase::Listening, SessionEvent::BidiFinished) => Some(
            ended(SessionEnd::BidiFinished),
        ),
        (SessionPhase::Listening, SessionEvent::BidiFailed) => Some(
            ended(SessionEnd::BidiFailed),
        ),
        (SessionPhase::Listening, SessionEvent::SourcesExhausted) => Some(
            ended(SessionEnd::SourcesExhausted),
        ),
        (SessionPhase::OpeningReply(id), SessionEvent::ReplyOpened) => Some(
            (SessionPhase::Listening, SessionAction::SpawnUniEcho(id)),
        ),
        (SessionPhase::OpeningReply(_), SessionEvent::ReplyFailed) => Some(
            (SessionPhase::Listening, SessionAction::Wait),
        ),
        _ => None,
    }
}

/// The phase and the action of a session that ends for `end`.
pub open spec fn ended<I>(end: SessionEnd) -> (SessionPhase<I>, SessionAction<I>) {
    (SessionPhase::Ended(end), SessionAction::End(end))
}

/// One WebTransport session.
#[derive(Clone, Copy, Debug, PartialEq, Eq)]
pub struct Session<I> {
    pub id: I,
    pub phase: SessionPhase<I>,
}

/// Takes over a session that was just accepted: its first action is to
/// open the welcome stream under its own identifier.
pub fn handle_session<I: Copy>(id: I) -> (start: (Session<I>, SessionAction<I>))
    ensures
        start.0.id == id,
        start.0.phase == SessionPhase::<I>::Opening,
        start.1 == SessionAction::OpenWelcome(id),
{
    (Session { id, phase: SessionPhase::Opening }, SessionAction::OpenWelcome(id))
}

impl<I: Copy> Session<I> {
    /// Whether the session is over.
    pub fn is_over(&self) -> (over: bool)
        ensures
            over == (self.phase is Ended),
    {
        match self.phase {
            SessionPhase::Ended(_) => true,
            _ => false,
        }
    }

    /// Takes one event and says what to do next. Where the event cannot
    /// occur in the current phase the session stays as it is and the answer
    /// is `None`.
    pub fn on_event(&mut self, event: SessionEvent<I>) -> (action: Option<SessionAction<I>>)
        ensures
            final(self).id == old(self).id,
            match session_step(old(self).phase, event) {
                Some((phase, next)) => final(self).phase == phase && action == Some(next),
                None => final(self).phase == old(self).phase && action.is_none(),
            },
    {
        let (phase, action) = match (&self.phase, event) {
            (SessionPhase::Opening, SessionEvent::WelcomeOpened) => (
                SessionPhase::Listening,
                SessionAction::SpawnWelcome,
            ),
            (SessionPhase::Opening, SessionEvent::WelcomeFailed) => (
                SessionPhase::Ended(SessionEnd::WelcomeFailed),
                SessionAction::End(SessionEnd::WelcomeFailed),
            ),
            (SessionPhase::Listening, SessionEvent::Datagram(payload)) => (
                SessionPhase::Listening,
                SessionAction::SendDatagram(payload),
            ),
            (SessionPhase::Listening, SessionEvent::DatagramFailed) => (
                SessionPhase::Ended(SessionEnd::DatagramsFailed),
                SessionAction::End(SessionEnd::DatagramsFailed),
            ),
            (SessionPhase::Listening, SessionEvent::UniAccepted(id)) => (
                SessionPhase::OpeningReply(id),
                SessionAction::OpenReply(id),
            ),
            (SessionPhase::Listening, SessionEvent::UniFinished) => (
                SessionPhase::Ended(SessionEnd::UniFinished),
                SessionAction::End(SessionEnd::UniFinished),
            ),
            (SessionPhase::Listening, SessionEvent::UniFailed) => (
                SessionPhase::Ended(SessionEnd::UniFailed),
                SessionAction::End(SessionEnd::UniFailed),
            ),
            (SessionPhase::Listening, SessionEvent::BidiAccepted(id)) => (
                SessionPhase::Listening,
                SessionAction::SpawnBidiEcho(id),
            ),
            (SessionPhase::Listening, SessionEvent::RequestAccepted) => (
                SessionPhase::Listening,
                SessionAction::DropRequest,
            ),
            (SessionPhase::Listening, SessionEvent::BidiFinished) => (
                SessionPhase::Ended(SessionEnd::BidiFinished),
                SessionAction::End(SessionEnd::BidiFinished),
            ),
            (SessionPhase::Listening, SessionEvent::BidiFailed) => (
                SessionPhase::Ended(SessionEnd::BidiFailed),
                SessionAction::End(SessionEnd::BidiFailed),
            ),
            (SessionPhase::Listening, SessionEvent::SourcesExhausted) => (
                SessionPhase::Ended(SessionEnd::SourcesExhausted),
                SessionAction::End(SessionEnd::SourcesExhausted),
            ),
            (SessionPhase::OpeningReply(id), SessionEvent::ReplyOpened) => (
                SessionPhase::Listening,
                SessionAction::SpawnUniEcho(*id),
            ),
            (SessionPhase::OpeningReply(_), SessionEvent::ReplyFailed) => (
                SessionPhase::Listening,
                SessionAction::Wait,
            ),
            _ => { return None; },
        };
        self.phase = phase;
        Some(action)
    }
}

/// The text of the welcome message.
pub const WELCOME_TEXT: &'static str = "Welcome to HTTP/3 WebTransport server!";

/// The bytes of the welcome message.
pub open spec fn welcome_message() -> Seq<u8> {
    WELCOME_TEXT.spec_bytes()
}

/// The script of the welcome worker: write the welcome message, close the
/// send side, then read whatever the peer answers until it closes its side.
pub open spec fn welcome_script() -> Seq<StreamOpView> {
    seq![
        StreamOpView::Write(welcome_message()),
        StreamOpView::Shutdown,
        StreamOpView::ReadToEnd,
    ]
}

/// The script of the welcome worker.
pub fn welcome_ops() -> (ops: Vec<StreamOp>)
    ensures
        script_view(ops@) == welcome_script(),
{
    let ops: Vec<StreamOp> = vec![
        StreamOp::Write(WELCOME_TEXT.as_bytes_vec()),
        StreamOp::Shutdown,
        StreamOp::ReadToEnd,
    ];
    assert(script_view(ops@) =~= welcome_script());
    ops
}

/// The script of the welcome worker after its read: whatever the peer
/// answered, and whether or not the read failed, the worker is done.
pub fn welcome_after(_read: &ReadOutcome) -> (ops: Vec<StreamOp>)
    ensures
        script_view(ops@) == Seq::<StreamOpView>::empty(),
{
    let ops: Vec<StreamOp> = Vec::new();
    assert(script_view(ops@) =~= Seq::<StreamOpView>::empty());
    ops
}

/// The phase that a session reaches from `phase` through `events`, and the
/// actions it asks for on the way. Events that cannot occur are passed over.
pub open spec fn session_run<I>(phase: SessionPhase<I>, events: Seq<SessionEvent<I>>) -> (
    SessionPhase<I>,
    Seq<SessionAction<I>>,
)
    decreases events.len(),
{
    if events.len() == 0 {
        (phase, Seq::empty())
    } else {
        let (reached, actions) = session_run(phase, events.drop_last());
        match session_step(reached, events.last()) {
            Some((next, action)) => (next, actions.push(action)),
            None => (reached, actions),
        }
    }
}

/// Datagram echo: a listening session answers every datagram with exactly
/// one datagram that carries the same payload, in the order of arrival, and
/// goes on listening.
pub proof fn lemma_datagram_echo<I>(payloads: Seq<Vec<u8>>)
    ensures
        session_run(
            SessionPhase::<I>::Listening,
            Seq::new(payloads.len(), |i: int| SessionEvent::<I>::Datagram(payloads[i])),
        ) == (
            SessionPhase::<I>::Listening,
            Seq::new(payloads.len(), |i: int| SessionAction::<I>::SendDatagram(payloads[i])),
        ),
    decreases payloads.len(),
{
    let events = Seq::new(payloads.len(), |i: int| SessionEvent::<I>::Datagram(payloads[i]));
    let replies = Seq::new(payloads.len(), |i: int| SessionAction::<I>::SendDatagram(payloads[i]));
    if payloads.len() == 0 {
        assert(session_run(SessionPhase::<I>::Listening, events).1 =~= replies);
    } else {
        let front = payloads.drop_last();
        lemma_datagram_echo::<I>(front);
        let front_events = Seq::new(front.len(), |i: int| SessionEvent::<I>::Datagram(front[i]));
        let front_replies = Seq::new(
            front.len(),
            |i: int| SessionAction::<I>::SendDatagram(front[i]),
        );
        assert(events.drop_last() =~= front_events);
        assert(front_replies.push(SessionAction::<I>::SendDatagram(payloads.last())) =~= replies);
    }
}

/// A session that is over stays over and asks for nothing more, whatever happens.
pub proof fn lemma_session_end_is_final<I>(end: SessionEnd, events: Seq<SessionEvent<I>>)
    ensures
        session_run(SessionPhase::Ended(end), events) == (
            SessionPhase::<I>::Ended(end),
            Seq::<SessionAction<I>>::empty(),
        ),
    decreases events.len(),
{
    if events.len() > 0 {
        lemma_session_end_is_final(end, events.drop_last());
    }
}

/// Each stream that the peer opens is echoed by one worker of its own: an
/// echo worker is started for a bidirectional stream exactly when that
/// stream is accepted, and for a unidirectional stream exactly when the
/// stream for its echo has been opened.
pub proof fn lemma_one_worker_per_stream<I>(phase: SessionPhase<I>, event: SessionEvent<I>, id: I)
    ensures
        (session_step(phase, event) matches Some((_, action)) && action
            == SessionAction::SpawnBidiEcho(id)) <==> (phase == SessionPhase::<I>::Listening
            && event == SessionEvent::BidiAccepted(id)),
        (session_step(phase, event) matches Some((_, action)) && action
            == SessionAction::SpawnUniEcho(id)) <==> (phase == SessionPhase::OpeningReply(id)
            && event == SessionEvent::<I>::ReplyOpened),
{
}

} // verus!
