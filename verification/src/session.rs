//! The per-connection session: a state machine `Establishing -> Active ->
//! Closing -> Closed`, with heartbeat-based liveness monitoring, a bounded
//! inbound frame size, and exactly-once deregistration from the collaboration
//! hub.
//!
//! The session owns its state exclusively; everything that happens to a live
//! connection arrives as one [`SessionEvent`] at a time. The whole lifecycle
//! is the spec function [`step`]; each exec method performs one event and is
//! proved to follow it. The transport, the clock and the hub live outside:
//! the caller feeds events in and performs the deregistration the methods
//! request.

use vstd::prelude::*;

use crate::resolve::InternalIdentity;

verus! {

/// The lifecycle states of a session, in order; there is no way back.
#[derive(Clone, Copy, Debug, PartialEq, Eq, Structural)]
pub enum SessionState {
    /// Constructed with a resolved identity; the transport upgrade is being
    /// negotiated.
    Establishing,
    /// The upgraded connection exchanges messages with the hub and the peer.
    Active,
    /// Shutting down: the hub is being left and accepted outbound messages
    /// are flushed.
    Closing,
    /// Terminal; every further event is a no-op.
    Closed,
}

/// Why an active session was shut down.
#[derive(Clone, Copy, Debug, PartialEq, Eq, Structural)]
pub enum CloseReason {
    /// No inbound activity for at least the client timeout.
    HeartbeatTimeout,
    /// An inbound frame exceeded the negotiated frame-size bound.
    FrameTooLarge,
    /// The transport failed (peer reset, protocol violation).
    TransportError,
    /// The peer sent an explicit close frame.
    PeerClosed,
}

/// Everything that can happen to a session, with the time (seconds) at which
/// it happens where the transition depends on it.
#[derive(Clone, Copy, Debug, PartialEq, Eq, Structural)]
pub enum SessionEvent {
    /// The transport upgrade succeeded at the given time.
    UpgradeAccepted(u64),
    /// The transport upgrade was rejected; the connection never opens.
    UpgradeFailed,
    /// The heartbeat timer fired at the given time.
    HeartbeatTick(u64),
    /// An inbound frame of the given size (bytes) arrived at the given time.
    InboundFrame(u64, u64),
    /// The transport failed.
    TransportError,
    /// The peer sent an explicit close frame.
    PeerClose,
    /// Deregistration and the outbound flush have completed.
    ShutdownComplete,
}

/// The default nominal frame-size limit (bytes); the transport is negotiated
/// with twice this bound.
pub const DEFAULT_MAX_FRAME_SIZE: u64 = 65_536;

/// Per-session configuration, immutable once the session starts.
#[derive(Clone, Copy, Debug, PartialEq, Eq, Structural)]
pub struct SessionConfig {
    /// How often the heartbeat timer fires (seconds).
    pub heartbeat_interval: u64,
    /// How long inbound silence is tolerated (seconds).
    pub client_timeout: u64,
    /// The nominal frame-size limit (bytes).
    pub max_frame_size: u64,
}

impl SessionConfig {
    /// A usable configuration: every bound finite and positive, and the
    /// doubled frame bound still representable.
    pub open spec fn wf(self) -> bool {
        &&& 0 < self.heartbeat_interval
        &&& 0 < self.client_timeout
        &&& 0 < self.max_frame_size
        &&& 2 * self.max_frame_size <= u64::MAX
    }

    /// The frame-size bound the transport is negotiated with: twice the
    /// nominal limit, to admit one oversized control round-trip margin while
    /// still bounding memory.
    pub open spec fn spec_frame_limit(self) -> int {
        2 * self.max_frame_size
    }

    /// Build a configuration; refused unless every bound is positive and the
    /// doubled frame bound fits.
    pub fn new(heartbeat_interval: u64, client_timeout: u64, max_frame_size: u64) -> (r: Option<
        SessionConfig,
    >)
        ensures
            r is Some <==> (0 < heartbeat_interval && 0 < client_timeout && 0 < max_frame_size
                && 2 * max_frame_size <= u64::MAX),
            r matches Some(c) ==> c == (SessionConfig {
                heartbeat_interval,
                client_timeout,
                max_frame_size,
            }) && c.wf(),
    {
        if heartbeat_interval > 0 && client_timeout > 0 && max_frame_size > 0 && max_frame_size
            <= u64::MAX / 2 {
            Some(SessionConfig { heartbeat_interval, client_timeout, max_frame_size })
        } else {
            None
        }
    }

    /// The negotiated transport frame-size bound, `2 * max_frame_size`.
    pub fn frame_limit(&self) -> (r: u64)
        requires
            self.wf(),
        ensures
            r == self.spec_frame_limit(),
    {
        self.max_frame_size * 2
    }
}

/// One live connection for one (user, device) pair.
///
/// `registered` records that the hub was told about this session;
/// `deregistered` records that leaving the hub was requested. The methods
/// return `true` exactly when the caller must perform that deregistration
/// now, and [`lemma_deregister_exactly_once`] shows they do so exactly once
/// per session.
pub struct ClientSession {
    pub identity: InternalIdentity,
    pub config: SessionConfig,
    pub state: SessionState,
    pub close_reason: Option<CloseReason>,
    pub last_activity: u64,
    pub registered: bool,
    pub deregistered: bool,
}

impl ClientSession {
    /// The session invariant: a usable configuration, and bookkeeping that
    /// matches the lifecycle state. A session is only ever `Closed` without
    /// a close reason when its upgrade failed, in which case it never
    /// registered with the hub.
    pub open spec fn wf(self) -> bool {
        &&& self.config.wf()
        &&& (self.state == SessionState::Establishing ==> !self.registered && !self.deregistered
            && self.close_reason is None)
        &&& (self.state == SessionState::Active ==> self.registered && !self.deregistered
            && self.close_reason is None)
        &&& (self.state == SessionState::Closing ==> self.registered && self.deregistered
            && self.close_reason is Some)
        &&& (self.state == SessionState::Closed ==> (self.registered == self.deregistered) && (
        self.registered <==> self.close_reason is Some))
    }

    /// A freshly constructed session, before the transport upgrade.
    pub open spec fn spec_new(identity: InternalIdentity, config: SessionConfig) -> ClientSession {
        ClientSession {
            identity,
            config,
            state: SessionState::Establishing,
            close_reason: None,
            last_activity: 0,
            registered: false,
            deregistered: false,
        }
    }

    /// Construct a session in `Establishing` for a resolved identity.
    pub fn new(identity: InternalIdentity, config: SessionConfig) -> (r: ClientSession)
        requires
            config.wf(),
        ensures
            r == ClientSession::spec_new(identity, config),
            r.wf(),
    {
        ClientSession {
            identity,
            config,
            state: SessionState::Establishing,
            close_reason: None,
            last_activity: 0,
            registered: false,
            deregistered: false,
        }
    }
}

/// `s` after moving from `Active` to `Closing` for `reason`; deregistration
/// is requested as part of this transition.
pub open spec fn begin_close(s: ClientSession, reason: CloseReason) -> ClientSession {
    ClientSession {
        state: SessionState::Closing,
        close_reason: Some(reason),
        deregistered: true,
        ..s
    }
}

/// The whole lifecycle: the session after `e`, and whether the caller must
/// deregister the session from the hub now. Events that do not apply to the
/// current state leave the session unchanged and request nothing, so a
/// second close signal of any kind is a no-op.
pub open spec fn step(s: ClientSession, e: SessionEvent) -> (ClientSession, bool) {
    match e {
        SessionEvent::UpgradeAccepted(now) => if s.state == SessionState::Establishing {
            (
                ClientSession {
                    state: SessionState::Active,
                    last_activity: now,
                    registered: true,
                    ..s
                },
                false,
            )
        } else {
            (s, false)
        },
        SessionEvent::UpgradeFailed => if s.state == SessionState::Establishing {
            (ClientSession { state: SessionState::Closed, ..s }, false)
        } else {
            (s, false)
        },
        SessionEvent::HeartbeatTick(now) => if s.state == SessionState::Active && now
            >= s.last_activity + s.config.client_timeout {
            (begin_close(s, CloseReason::HeartbeatTimeout), true)
        } else {
            (s, false)
        },
        SessionEvent::InboundFrame(len, now) => if s.state == SessionState::Active {
            if len <= s.config.spec_frame_limit() {
                (ClientSession { last_activity: now, ..s }, false)
            } else {
                (begin_close(s, CloseReason::FrameTooLarge), true)
            }
        } else {
            (s, false)
        },
        SessionEvent::TransportError => if s.state == SessionState::Active {
            (begin_close(s, CloseReason::TransportError), true)
        } else {
            (s, false)
        },
        SessionEvent::PeerClose => if s.state == SessionState::Active {
            (begin_close(s, CloseReason::PeerClosed), true)
        } else {
            (s, false)
        },
        SessionEvent::ShutdownComplete => if s.state == SessionState::Closing {
            (ClientSession { state: SessionState::Closed, ..s }, false)
        } else {
            (s, false)
        },
    }
}

impl ClientSession {
    /// The transport upgrade succeeded at `now`: enter `Active` and register
    /// with the hub.
    pub fn on_upgrade_accepted(&mut self, now: u64)
        requires
            old(self).wf(),
        ensures
            *final(self) == step(*old(self), SessionEvent::UpgradeAccepted(now)).0,
            final(self).wf(),
    {
        if self.state == SessionState::Establishing {
            self.state = SessionState::Active;
            self.last_activity = now;
            self.registered = true;
        }
    }

    /// The transport upgrade was rejected: the connection never opens and the
    /// session is discarded without touching the hub.
    pub fn on_upgrade_failed(&mut self)
        requires
            old(self).wf(),
        ensures
            *final(self) == step(*old(self), SessionEvent::UpgradeFailed).0,
            final(self).wf(),
    {
        if self.state == SessionState::Establishing {
            self.state = SessionState::Closed;
        }
    }

    /// The heartbeat timer fired at `now`: a tick that finds no inbound
    /// activity within the timeout window forces `Closing` with reason
    /// `HeartbeatTimeout`. Returns whether the caller must deregister now.
    pub fn on_heartbeat_tick(&mut self, now: u64) -> (deregister: bool)
        requires
            old(self).wf(),
        ensures
            *final(self) == step(*old(self), SessionEvent::HeartbeatTick(now)).0,
            deregister == step(*old(self), SessionEvent::HeartbeatTick(now)).1,
            final(self).wf(),
    {
        if self.state == SessionState::Active && now >= self.last_activity && now
            - self.last_activity >= self.config.client_timeout {
            self.state = SessionState::Closing;
            self.close_reason = Some(CloseReason::HeartbeatTimeout);
            self.deregistered = true;
            true
        } else {
            false
        }
    }

    /// An inbound frame of `len` bytes arrived at `now`: within the
    /// negotiated bound it counts as activity; beyond it the session closes
    /// with reason `FrameTooLarge`. Returns whether the caller must
    /// deregister now.
    pub fn on_inbound_frame(&mut self, len: u64, now: u64) -> (deregister: bool)
        requires
            old(self).wf(),
        ensures
            *final(self) == step(*old(self), SessionEvent::InboundFrame(len, now)).0,
            deregister == step(*old(self), SessionEvent::InboundFrame(len, now)).1,
            final(self).wf(),
    {
        if self.state == SessionState::Active {
            if len <= self.config.frame_limit() {
                self.last_activity = now;
                false
            } else {
                self.state = SessionState::Closing;
                self.close_reason = Some(CloseReason::FrameTooLarge);
                self.deregistered = true;
                true
            }
        } else {
            false
        }
    }

    /// The transport failed: an active session closes with reason
    /// `TransportError`. Returns whether the caller must deregister now.
    pub fn on_transport_error(&mut self) -> (deregister: bool)
        requires
            old(self).wf(),
        ensures
            *final(self) == step(*old(self), SessionEvent::TransportError).0,
            deregister == step(*old(self), SessionEvent::TransportError).1,
            final(self).wf(),
    {
        if self.state == SessionState::Active {
            self.state = SessionState::Closing;
            self.close_reason = Some(CloseReason::TransportError);
            self.deregistered = true;
            true
        } else {
            false
        }
    }

    /// The peer sent an explicit close frame: an active session closes with
    /// reason `PeerClosed`. Returns whether the caller must deregister now.
    pub fn on_peer_close(&mut self) -> (deregister: bool)
        requires
            old(self).wf(),
        ensures
            *final(self) == step(*old(self), SessionEvent::PeerClose).0,
            deregister == step(*old(self), SessionEvent::PeerClose).1,
            final(self).wf(),
    {
        if self.state == SessionState::Active {
            self.state = SessionState::Closing;
            self.close_reason = Some(CloseReason::PeerClosed);
            self.deregistered = true;
            true
        } else {
            false
        }
    }

    /// Deregistration and the outbound flush have completed: a closing
    /// session becomes `Closed`, keeping its close reason.
    pub fn on_shutdown_complete(&mut self)
        requires
            old(self).wf(),
        ensures
            *final(self) == step(*old(self), SessionEvent::ShutdownComplete).0,
            final(self).wf(),
    {
        if self.state == SessionState::Closing {
            self.state = SessionState::Closed;
        }
    }
}

/// The outbound messages one session has accepted and not yet delivered to
/// its transport.
///
/// The session's driver owns one queue per session, submits messages to it
/// only while the session is live, and drains it to the transport — last of
/// all when a closing session flushes. Submission order is preserved:
/// [`submit`](OutboundQueue::submit) appends, and
/// [`drain`](OutboundQueue::drain) hands every accepted message back, oldest
/// first.
pub struct OutboundQueue {
    pub msgs: Vec<Vec<u8>>,
}

impl OutboundQueue {
    /// An empty queue for a fresh session.
    pub fn new() -> (r: OutboundQueue)
        ensures
            r.msgs@ =~= Seq::<Vec<u8>>::empty(),
    {
        OutboundQueue { msgs: Vec::new() }
    }

    /// Accept `msg` for delivery after everything accepted before it.
    pub fn submit(&mut self, msg: Vec<u8>)
        ensures
            final(self).msgs@ == old(self).msgs@.push(msg),
    {
        self.msgs.push(msg);
    }

    /// Hand every accepted message to the transport, oldest first, leaving
    /// the queue empty.
    pub fn drain(&mut self) -> (out: Vec<Vec<u8>>)
        ensures
            out == old(self).msgs,
            final(self).msgs@ =~= Seq::<Vec<u8>>::empty(),
    {
        let mut out: Vec<Vec<u8>> = Vec::new();
        core::mem::swap(&mut out, &mut self.msgs);
        out
    }
}

/// `s` after the whole event trace `es`, first event first.
pub open spec fn run(s: ClientSession, es: Seq<SessionEvent>) -> ClientSession
    decreases es.len(),
{
    if es.len() == 0 {
        s
    } else {
        run(step(s, es[0]).0, es.drop_first())
    }
}

/// How many events of the trace `es` request deregistration from the hub.
pub open spec fn dereg_count(s: ClientSession, es: Seq<SessionEvent>) -> int
    decreases es.len(),
{
    if es.len() == 0 {
        0
    } else {
        (if step(s, es[0]).1 {
            1int
        } else {
            0int
        }) + dereg_count(step(s, es[0]).0, es.drop_first())
    }
}

/// The position of a state in the lifecycle order.
pub open spec fn state_rank(s: SessionState) -> int {
    match s {
        SessionState::Establishing => 0,
        SessionState::Active => 1,
        SessionState::Closing => 2,
        SessionState::Closed => 3,
    }
}

/// Law: every event preserves the session invariant.
pub proof fn lemma_step_preserves_wf(s: ClientSession, e: SessionEvent)
    requires
        s.wf(),
    ensures
        step(s, e).0.wf(),
{
}

/// Law: the identity and the configuration of a session are never mutated
/// after construction, whatever happens to it.
pub proof fn lemma_step_keeps_identity(s: ClientSession, e: SessionEvent)
    ensures
        step(s, e).0.identity == s.identity,
        step(s, e).0.config == s.config,
{
}

/// Law: the lifecycle never cycles back: no event moves a session to an
/// earlier state, and a closed session never changes at all.
pub proof fn lemma_step_no_revival(s: ClientSession, e: SessionEvent)
    ensures
        state_rank(step(s, e).0.state) >= state_rank(s.state),
        s.state == SessionState::Closed ==> step(s, e) == (s, false),
{
}

/// Law: a single event requests deregistration only when it takes a live
/// session out of `Active`, and never once deregistration was requested.
pub proof fn lemma_step_dereg(s: ClientSession, e: SessionEvent)
    requires
        s.wf(),
    ensures
        step(s, e).1 ==> s.state == SessionState::Active && !s.deregistered && step(
            s,
            e,
        ).0.deregistered,
        s.deregistered ==> !step(s, e).1 && step(s, e).0.deregistered,
{
}

proof fn lemma_dereg_trace(s: ClientSession, es: Seq<SessionEvent>)
    requires
        s.wf(),
        s.state != SessionState::Establishing,
    ensures
        dereg_count(s, es) == if run(s, es).deregistered && !s.deregistered {
            1int
        } else {
            0int
        },
        s.deregistered ==> run(s, es).deregistered,
        run(s, es).state == SessionState::Active ==> s.state == SessionState::Active && run(
            s,
            es,
        ).deregistered == s.deregistered,
        s.state == SessionState::Active && !run(s, es).deregistered ==> run(s, es).state
            == SessionState::Active,
    decreases es.len(),
{
    if es.len() > 0 {
        let s1 = step(s, es[0]).0;
        lemma_step_preserves_wf(s, es[0]);
        lemma_dereg_trace(s1, es.drop_first());
    }
}

/// Law: deregistration from the hub is requested exactly once per session,
/// whichever close reason triggers the shutdown. Along any event trace from
/// a well-formed active session, at most one event requests deregistration;
/// exactly one does if the session has left `Active` by the end of the
/// trace, and none if it is still active. In particular, a second close
/// signal of any kind requests nothing and is no error.
pub proof fn lemma_deregister_exactly_once(s: ClientSession, es: Seq<SessionEvent>)
    requires
        s.wf(),
        s.state == SessionState::Active,
    ensures
        dereg_count(s, es) <= 1,
        run(s, es).state != SessionState::Active ==> dereg_count(s, es) == 1,
        run(s, es).state == SessionState::Active ==> dereg_count(s, es) == 0,
{
    lemma_dereg_trace(s, es);
}

/// Law: a silent active session is closed for `HeartbeatTimeout` by the
/// first heartbeat tick at or after the timeout deadline, so at most one
/// tick beyond the boundary elapses before closure. For consecutive ticks
/// `t_prev` and `t` straddling the deadline: the earlier tick leaves the
/// session untouched, the later one moves it to `Closing` with reason
/// `HeartbeatTimeout` and requests deregistration, and the elapsed time
/// between the last activity and closure lies within
/// `[client_timeout, client_timeout + heartbeat_interval)`. Completing the
/// shutdown then yields `Closed` with the same reason.
pub proof fn lemma_heartbeat_timeout_window(s: ClientSession, t_prev: u64, t: u64)
    requires
        s.wf(),
        s.state == SessionState::Active,
        t == t_prev + s.config.heartbeat_interval,
        t_prev < s.last_activity + s.config.client_timeout,
        t >= s.last_activity + s.config.client_timeout,
    ensures
        step(s, SessionEvent::HeartbeatTick(t_prev)) == (s, false),
        ({
            let (closing, dereg) = step(s, SessionEvent::HeartbeatTick(t));
            &&& dereg
            &&& closing.state == SessionState::Closing
            &&& closing.close_reason == Some(CloseReason::HeartbeatTimeout)
            &&& s.config.client_timeout <= t - s.last_activity < s.config.client_timeout
                + s.config.heartbeat_interval
            &&& step(closing, SessionEvent::ShutdownComplete).0.state == SessionState::Closed
            &&& step(closing, SessionEvent::ShutdownComplete).0.close_reason == Some(
                CloseReason::HeartbeatTimeout,
            )
        }),
{
}

/// Law: liveness monitoring never closes a session early. An active session
/// outlives any number of heartbeat ticks that all fire strictly before the
/// timeout deadline: it stays exactly as it was.
pub proof fn lemma_no_early_timeout(s: ClientSession, ticks: Seq<u64>)
    requires
        s.state == SessionState::Active,
        forall|k: int| 0 <= k < ticks.len() ==> (#[trigger] ticks[k] as int) < s.last_activity
            + s.config.client_timeout,
    ensures
        run(s, ticks.map_values(|t: u64| SessionEvent::HeartbeatTick(t))) == s,
    decreases ticks.len(),
{
    let es = ticks.map_values(|t: u64| SessionEvent::HeartbeatTick(t));
    if ticks.len() > 0 {
        assert(es[0] == SessionEvent::HeartbeatTick(ticks[0]));
        assert(step(s, es[0]).0 == s);
        assert(es.drop_first() =~= ticks.drop_first().map_values(
            |t: u64| SessionEvent::HeartbeatTick(t),
        ));
        lemma_no_early_timeout(s, ticks.drop_first());
    }
}

/// Law: the negotiated frame bound is exact. An active session accepts every
/// inbound frame up to `2 * max_frame_size` bytes as activity, and an
/// oversized frame — `2 * max_frame_size + 1` bytes or more — closes it with
/// reason `FrameTooLarge`; completing the shutdown yields `Closed` with that
/// reason.
pub proof fn lemma_frame_size_boundary(s: ClientSession, len: u64, now: u64)
    requires
        s.wf(),
        s.state == SessionState::Active,
    ensures
        len <= 2 * s.config.max_frame_size ==> step(s, SessionEvent::InboundFrame(len, now)) == (
            ClientSession { last_activity: now, ..s },
            false,
        ),
        len > 2 * s.config.max_frame_size ==> ({
            let (closing, dereg) = step(s, SessionEvent::InboundFrame(len, now));
            &&& dereg
            &&& closing.state == SessionState::Closing
            &&& closing.close_reason == Some(CloseReason::FrameTooLarge)
            &&& step(closing, SessionEvent::ShutdownComplete).0.state == SessionState::Closed
            &&& step(closing, SessionEvent::ShutdownComplete).0.close_reason == Some(
                CloseReason::FrameTooLarge,
            )
        }),
{
}

} // verus!
