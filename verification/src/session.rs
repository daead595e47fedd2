use vstd::prelude::*;
use crate::messages::NetworkMessage;
use crate::messages::decode_message;
use crate::messages::decoded;
use crate::messages::encode_message;
use crate::messages::encoded;
use crate::messages::lemma_message_round_trip;

verus! {

/// Which of the two session parties this process plays. Set once per
/// connection attempt and never reverted except by starting a new attempt.
#[derive(Clone, Copy, PartialEq, Eq, Structural, Debug)]
pub enum Role {
    Unspecified,
    Initiator,
    Acceptor,
}

/// Events the session hands to the presentation layer.
#[derive(Clone, Copy, PartialEq, Eq, Structural, Debug)]
pub enum UiEvent {
    /// A remote start trigger arrived; the receiver stamps its arrival
    /// instant and begins a capture round.
    StartTimer,
    /// The peer asked to stop and reset the local readout.
    ResetTimer,
    /// A heartbeat round trip completed; the measured round-trip time in
    /// milliseconds.
    Rtt(u64),
}

/// What the caller of a transition must carry out: transmit a datagram to
/// an endpoint, surface an event, schedule the next heartbeat tick, or shut
/// the session down.
#[derive(Clone, Copy, PartialEq, Eq, Structural, Debug)]
pub enum Action {
    SendTo(u64, NetworkMessage),
    Emit(UiEvent),
    ArmHeartbeat,
    Stop,
}

/// The connection manager's session state. Endpoints are opaque tokens
/// chosen by the transport layer; `peer` is the live peer link, `None`
/// before the handshake binds it. `last_ping_ms` is the heartbeat clock:
/// the instant, in milliseconds of the caller's clock, at which the last
/// `Ping` went out.
#[derive(Clone, Copy, Debug)]
pub struct Session {
    pub role: Role,
    pub peer: Option<u64>,
    pub linked: bool,
    pub last_ping_ms: u64,
    pub stopped: bool,
}

/// A linked session has a bound peer.
pub open spec fn session_wf(s: Session) -> bool {
    s.linked ==> s.peer is Some
}

/// Round-trip time observed when a `Pong` arrives at `now`: the time since
/// the heartbeat clock was stamped (zero if the clock reads later than
/// `now`, which only an ill-behaved clock produces).
pub open spec fn rtt_of(last: u64, now: u64) -> u64 {
    if now >= last {
        (now - last) as u64
    } else {
        0
    }
}

/// Transition on the transport-level "connected" event: an initiator links
/// up, greets the peer with `Connect`, and arms the heartbeat.
pub open spec fn on_connected_spec(s: Session) -> (Session, Seq<Action>) {
    if s.stopped {
        (s, Seq::empty())
    } else if s.role == Role::Initiator {
        match s.peer {
            Some(p) => (
                Session { linked: true, ..s },
                seq![Action::SendTo(p, NetworkMessage::Connect), Action::ArmHeartbeat],
            ),
            None => (s, Seq::empty()),
        }
    } else {
        (s, Seq::empty())
    }
}

/// Transition on one inbound datagram from endpoint `from` at time
/// `now_ms`. An undecodable datagram is dropped. `Connect` binds the peer
/// link of an acceptor that has none — a later `Connect` never rebinds it.
/// `Ping` is answered with `Pong` to its sender; `Pong` reports the round
/// trip; `StartTimer` and `ResetTimer` surface as events; `StopTimer` is
/// ignored.
pub open spec fn on_message_spec(s: Session, from: u64, data: Seq<u8>, now_ms: u64) -> (
    Session,
    Seq<Action>,
) {
    if s.stopped {
        (s, Seq::empty())
    } else {
        match decoded(data) {
            None => (s, Seq::empty()),
            Some(m) => match m {
                NetworkMessage::StartTimer => (s, seq![Action::Emit(UiEvent::StartTimer)]),
                NetworkMessage::StopTimer => (s, Seq::empty()),
                NetworkMessage::ResetTimer => (s, seq![Action::Emit(UiEvent::ResetTimer)]),
                NetworkMessage::Ping => (s, seq![Action::SendTo(from, NetworkMessage::Pong)]),
                NetworkMessage::Pong => (
                    s,
                    seq![Action::Emit(UiEvent::Rtt(rtt_of(s.last_ping_ms, now_ms)))],
                ),
                NetworkMessage::Connect => {
                    if s.role == Role::Acceptor && s.peer is None {
                        (
                            Session { peer: Some(from), linked: true, ..s },
                            seq![Action::ArmHeartbeat],
                        )
                    } else {
                        (s, Seq::empty())
                    }
                },
            },
        }
    }
}

/// Transition on a heartbeat tick at time `now_ms`: while linked, send
/// `Ping` to the peer, stamp the heartbeat clock, and re-arm the tick.
pub open spec fn on_tick_spec(s: Session, now_ms: u64) -> (Session, Seq<Action>) {
    if s.stopped || !s.linked {
        (s, Seq::empty())
    } else {
        match s.peer {
            Some(p) => (
                Session { last_ping_ms: now_ms, ..s },
                seq![Action::SendTo(p, NetworkMessage::Ping), Action::ArmHeartbeat],
            ),
            None => (s, Seq::empty()),
        }
    }
}

/// Transition on the transport-level "disconnected" event: the session
/// stops and the event loop is shut down.
pub open spec fn on_disconnected_spec(s: Session) -> (Session, Seq<Action>) {
    (Session { linked: false, stopped: true, ..s }, seq![Action::Stop])
}

impl Session {
    /// A fresh session: no role, no peer link, heartbeat clock at zero.
    pub fn new() -> (r: Session)
        ensures
            r == (Session {
                role: Role::Unspecified,
                peer: None,
                linked: false,
                last_ping_ms: 0,
                stopped: false,
            }),
            session_wf(r),
    {
        Session { role: Role::Unspecified, peer: None, linked: false, last_ping_ms: 0, stopped: false }
    }

    /// Takes the initiating role, bound to the endpoint the transport
    /// returned for the active connection.
    pub fn set_initiator(&mut self, endpoint: u64)
        ensures
            *final(self) == (Session {
                role: Role::Initiator,
                peer: Some(endpoint),
                linked: false,
                ..*old(self)
            }),
            session_wf(*final(self)),
    {
        self.role = Role::Initiator;
        self.peer = Some(endpoint);
        self.linked = false;
    }

    /// Takes the accepting role; the peer link stays unset until a
    /// `Connect` arrives.
    pub fn set_acceptor(&mut self)
        ensures
            *final(self) == (Session {
                role: Role::Acceptor,
                peer: None,
                linked: false,
                ..*old(self)
            }),
            session_wf(*final(self)),
    {
        self.role = Role::Acceptor;
        self.peer = None;
        self.linked = false;
    }

    /// The transport reported the active connection as established.
    pub fn on_connected(&mut self) -> (r: Vec<Action>)
        requires
            session_wf(*old(self)),
        ensures
            *final(self) == on_connected_spec(*old(self)).0,
            r@ == on_connected_spec(*old(self)).1,
            session_wf(*final(self)),
    {
        let mut out: Vec<Action> = Vec::new();
        if self.stopped {
            return out;
        }
        if matches!(self.role, Role::Initiator) {
            match self.peer {
                Some(p) => {
                    self.linked = true;
                    out.push(Action::SendTo(p, NetworkMessage::Connect));
                    out.push(Action::ArmHeartbeat);
                    assert(out@ == on_connected_spec(*old(self)).1);
                },
                None => {},
            }
        }
        out
    }

    /// One inbound datagram, from `from`, received at `now_ms`.
    pub fn on_message(&mut self, from: u64, data: &[u8], now_ms: u64) -> (r: Vec<Action>)
        requires
            session_wf(*old(self)),
        ensures
            *final(self) == on_message_spec(*old(self), from, data@, now_ms).0,
            r@ == on_message_spec(*old(self), from, data@, now_ms).1,
            session_wf(*final(self)),
    {
        let mut out: Vec<Action> = Vec::new();
        if self.stopped {
            return out;
        }
        let msg = decode_message(data);
        match msg {
            None => {},
            Some(m) => match m {
                NetworkMessage::StartTimer => {
                    out.push(Action::Emit(UiEvent::StartTimer));
                    assert(out@ == on_message_spec(*old(self), from, data@, now_ms).1);
                },
                NetworkMessage::StopTimer => {},
                NetworkMessage::ResetTimer => {
                    out.push(Action::Emit(UiEvent::ResetTimer));
                    assert(out@ == on_message_spec(*old(self), from, data@, now_ms).1);
                },
                NetworkMessage::Ping => {
                    out.push(Action::SendTo(from, NetworkMessage::Pong));
                    assert(out@ == on_message_spec(*old(self), from, data@, now_ms).1);
                },
                NetworkMessage::Pong => {
                    let rtt: u64 = if now_ms >= self.last_ping_ms {
                        now_ms - self.last_ping_ms
                    } else {
                        0
                    };
                    out.push(Action::Emit(UiEvent::Rtt(rtt)));
                    assert(out@ == on_message_spec(*old(self), from, data@, now_ms).1);
                },
                NetworkMessage::Connect => {
                    let unbound = matches!(self.peer, None);
                    if matches!(self.role, Role::Acceptor) && unbound {
                        self.peer = Some(from);
                        self.linked = true;
                        out.push(Action::ArmHeartbeat);
                        assert(out@ == on_message_spec(*old(self), from, data@, now_ms).1);
                    }
                },
            },
        }
        out
    }

    /// One heartbeat tick, fired at `now_ms`.
    pub fn on_tick(&mut self, now_ms: u64) -> (r: Vec<Action>)
        requires
            session_wf(*old(self)),
        ensures
            *final(self) == on_tick_spec(*old(self), now_ms).0,
            r@ == on_tick_spec(*old(self), now_ms).1,
            session_wf(*final(self)),
    {
        let mut out: Vec<Action> = Vec::new();
        if self.stopped || !self.linked {
            return out;
        }
        match self.peer {
            Some(p) => {
                self.last_ping_ms = now_ms;
                out.push(Action::SendTo(p, NetworkMessage::Ping));
                out.push(Action::ArmHeartbeat);
                assert(out@ == on_tick_spec(*old(self), now_ms).1);
            },
            None => {},
        }
        out
    }

    /// The transport reported the session's connection as gone.
    pub fn on_disconnected(&mut self) -> (r: Vec<Action>)
        ensures
            *final(self) == on_disconnected_spec(*old(self)).0,
            r@ == on_disconnected_spec(*old(self)).1,
            session_wf(*final(self)),
    {
        self.linked = false;
        self.stopped = true;
        let mut out: Vec<Action> = Vec::new();
        out.push(Action::Stop);
        assert(out@ == on_disconnected_spec(*old(self)).1);
        out
    }

    /// Prepares an outbound message: the serialized datagram and the
    /// endpoint to send it to, or nothing while no peer link is bound (the
    /// send is then a no-op).
    pub fn outbound(&self, m: &NetworkMessage) -> (r: Option<(u64, Vec<u8>)>)
        ensures
            match r {
                Some(t) => self.peer == Some(t.0) && t.1@ == encoded(*m),
                None => self.peer is None,
            },
    {
        match self.peer {
            Some(p) => Some((p, encode_message(m))),
            None => None,
        }
    }
}

/// Heartbeat round trip: a session that sends `Ping` on the tick at time
/// `t` and receives a `Pong` datagram at time `t + delta` reports exactly
/// the round-trip time `delta`.
pub proof fn lemma_heartbeat_rtt(s: Session, t: u64, delta: u64, from: u64, p: u64)
    requires
        session_wf(s),
        !s.stopped,
        s.linked,
        s.peer == Some(p),
        t + delta <= u64::MAX,
    ensures
        ({
            let (s1, ticked) = on_tick_spec(s, t);
            let (s2, acts) = on_message_spec(
                s1,
                from,
                encoded(NetworkMessage::Pong),
                (t + delta) as u64,
            );
            ticked == seq![Action::SendTo(p, NetworkMessage::Ping), Action::ArmHeartbeat] && acts
                == seq![Action::Emit(UiEvent::Rtt(delta))] && s2.last_ping_ms == t
        }),
{
    lemma_message_round_trip(NetworkMessage::Pong);
}

/// Connect handshake: an acceptor with no peer link binds it to the sender
/// of the first `Connect` and begins heartbeating; a second `Connect`,
/// from any endpoint, does not rebind the link and does nothing.
pub proof fn lemma_connect_handshake(s: Session, e: u64, e2: u64, t: u64, t2: u64)
    requires
        session_wf(s),
        !s.stopped,
        s.role == Role::Acceptor,
        s.peer is None,
    ensures
        ({
            let (s1, acts1) = on_message_spec(s, e, encoded(NetworkMessage::Connect), t);
            let (s2, acts2) = on_message_spec(s1, e2, encoded(NetworkMessage::Connect), t2);
            s1.peer == Some(e) && s1.linked && acts1 == seq![Action::ArmHeartbeat] && s2.peer
                == Some(e) && acts2 == Seq::<Action>::empty()
        }),
{
    lemma_message_round_trip(NetworkMessage::Connect);
}

} // verus!
