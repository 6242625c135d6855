//! The session: one per live connection. It turns inbound frames and timer
//! ticks into effects for the transport and requests for the hub, and it
//! watches its own liveness.

use crate::heartbeat::{stale, HeartbeatConfig, DEFAULT_INTERVAL, DEFAULT_TIMEOUT};
use crate::ids::{is_random_form, RoomId, SessionId};
use vstd::prelude::*;

verus! {

/// The life of a session. `Closed` is final.
#[derive(Clone, Copy, Debug, PartialEq, Eq, Structural)]
pub enum Phase {
    Connecting,
    Active,
    Closing,
    Closed,
}

/// Why a peer closes the connection.
#[derive(Clone, Debug, PartialEq, Eq)]
pub struct CloseReason {
    pub code: u16,
    pub description: Option<String>,
}

/// What arrives on a connection.
#[derive(Clone, Debug, PartialEq, Eq)]
pub enum Frame {
    Ping(Vec<u8>),
    Pong(Vec<u8>),
    Text(String),
    Binary(Vec<u8>),
    Close(Option<CloseReason>),
    /// A continuation frame, which no session expects.
    Continuation,
    /// A frame without content.
    Nop,
    /// The frame stream broke: a protocol violation.
    Fault,
}

/// What a session asks of its surroundings. The transport carries out the
/// frames and the timer, the hub the three requests.
#[derive(Clone, Debug, PartialEq, Eq)]
pub enum Effect {
    /// Register the session with the hub, in its room.
    Connect { id: SessionId, room: RoomId },
    /// Take the session out of the hub.
    Disconnect { id: SessionId, room: RoomId },
    /// Have the hub route a text that the session received.
    Relay { id: SessionId, room: RoomId, text: String },
    /// Start the periodic liveness check.
    ArmHeartbeat { interval: u64 },
    /// Stop the periodic liveness check.
    CancelHeartbeat,
    /// Send a ping frame with this payload.
    Ping(Vec<u8>),
    /// Send a pong frame with this payload.
    Pong(Vec<u8>),
    /// Send a binary frame with this payload.
    Binary(Vec<u8>),
    /// Stream the fixed probe payload as one binary frame.
    Probe,
    /// Send a close frame with this reason.
    Close(Option<CloseReason>),
    /// Let go of the outbound capability.
    Release,
}

/// An effect as the contracts speak of it: payloads and texts by what they
/// hold.
pub enum Action {
    Connect { id: SessionId, room: RoomId },
    Disconnect { id: SessionId, room: RoomId },
    Relay { id: SessionId, room: RoomId, text: Seq<char> },
    ArmHeartbeat { interval: u64 },
    CancelHeartbeat,
    Ping(Seq<u8>),
    Pong(Seq<u8>),
    Binary(Seq<u8>),
    Probe,
    Close(Option<CloseReason>),
    Release,
}

impl View for Effect {
    type V = Action;

    open spec fn view(&self) -> Action {
        match *self {
            Effect::Connect { id, room } => Action::Connect { id, room },
            Effect::Disconnect { id, room } => Action::Disconnect { id, room },
            Effect::Relay { id, room, text } => Action::Relay { id, room, text: text@ },
            Effect::ArmHeartbeat { interval } => Action::ArmHeartbeat { interval },
            Effect::CancelHeartbeat => Action::CancelHeartbeat,
            Effect::Ping(payload) => Action::Ping(payload@),
            Effect::Pong(payload) => Action::Pong(payload@),
            Effect::Binary(payload) => Action::Binary(payload@),
            Effect::Probe => Action::Probe,
            Effect::Close(reason) => Action::Close(reason),
            Effect::Release => Action::Release,
        }
    }
}

/// What a list of effects asks for.
pub open spec fn actions(effects: Seq<Effect>) -> Seq<Action> {
    effects.map_values(|e: Effect| e@)
}

/// The payload of the pings that a chat session sends: the four bytes of
/// `PING`.
pub open spec fn chat_ping() -> Seq<u8> {
    seq![0x50u8, 0x49u8, 0x4eu8, 0x47u8]
}

/// A chat session as the contracts speak of it.
pub struct ConnState {
    pub id: SessionId,
    pub room: RoomId,
    pub phase: Phase,
    pub last_seen: u64,
    pub config: HeartbeatConfig,
}

impl ConnState {
    pub open spec fn phased(self, phase: Phase) -> ConnState {
        ConnState { phase, ..self }
    }

    pub open spec fn seen(self, now: u64) -> ConnState {
        ConnState { last_seen: now, ..self }
    }

    /// The start: a connecting session asks the hub to register it, arms
    /// its heartbeat and becomes active. The time at which it was last
    /// heard of stays what it was made with. In any other phase nothing
    /// happens.
    pub open spec fn started(self) -> (ConnState, Seq<Action>) {
        if self.phase == Phase::Connecting {
            (
                self.phased(Phase::Active),
                seq![
                    Action::Connect { id: self.id, room: self.room },
                    Action::ArmHeartbeat { interval: self.config.interval },
                ],
            )
        } else {
            (self, Seq::empty())
        }
    }

    /// One inbound frame. Only an active session reads frames.
    pub open spec fn handled(self, frame: Frame, now: u64) -> (ConnState, Seq<Action>) {
        if self.phase != Phase::Active {
            (self, Seq::empty())
        } else {
            match frame {
                Frame::Ping(payload) => (self.seen(now), seq![Action::Pong(payload@)]),
                Frame::Pong(_) => (self.seen(now), Seq::empty()),
                Frame::Text(text) => (
                    self,
                    seq![Action::Relay { id: self.id, room: self.room, text: text@ }],
                ),
                Frame::Binary(payload) => (self, seq![Action::Binary(payload@)]),
                Frame::Close(reason) => (self.phased(Phase::Closing), seq![Action::Close(reason)]),
                Frame::Continuation => (self.phased(Phase::Closing), Seq::empty()),
                Frame::Nop => (self, Seq::empty()),
                Frame::Fault => (self.phased(Phase::Closing), Seq::empty()),
            }
        }
    }

    /// One tick of the heartbeat: an active session that has been silent
    /// for too long starts closing, any other active session sends one
    /// ping with the payload `PING`.
    pub open spec fn ticked(self, now: u64) -> (ConnState, Seq<Action>) {
        if self.phase != Phase::Active {
            (self, Seq::empty())
        } else if stale(self.last_seen, now, self.config.timeout) {
            (self.phased(Phase::Closing), Seq::empty())
        } else {
            (self, seq![Action::Ping(chat_ping())])
        }
    }

    /// The stop: whatever phase it was in, a session that is not closed
    /// cancels its heartbeat, sends the hub one disconnect, lets go of its
    /// outbound capability and is closed. A closed session does nothing.
    pub open spec fn stopped(self) -> (ConnState, Seq<Action>) {
        if self.phase == Phase::Closed {
            (self, Seq::empty())
        } else {
            (
                self.phased(Phase::Closed),
                seq![
                    Action::CancelHeartbeat,
                    Action::Disconnect { id: self.id, room: self.room },
                    Action::Release,
                ],
            )
        }
    }
}

/// A chat session: it relays the texts it receives to the hub, in the room
/// that it was made for.
#[derive(Debug)]
pub struct WsConn {
    room: RoomId,
    hb: u64,
    id: SessionId,
    phase: Phase,
    config: HeartbeatConfig,
}

impl View for WsConn {
    type V = ConnState;

    closed spec fn view(&self) -> ConnState {
        ConnState {
            id: self.id,
            room: self.room,
            phase: self.phase,
            last_seen: self.hb,
            config: self.config,
        }
    }
}

impl WsConn {
    /// A connecting session for `room`, made at time `now`, with a fresh
    /// random identifier and the default heartbeat. Its first timeout
    /// window runs from `now`.
    pub fn new(room: RoomId, now: u64) -> (conn: WsConn)
        ensures
            conn@.room == room,
            conn@.phase == Phase::Connecting,
            conn@.last_seen == now,
            conn@.config == (HeartbeatConfig {
                interval: DEFAULT_INTERVAL,
                timeout: DEFAULT_TIMEOUT,
            }),
            is_random_form(conn@.id.value),
    {
        WsConn {
            id: SessionId::fresh(),
            room,
            hb: now,
            phase: Phase::Connecting,
            config: HeartbeatConfig::default(),
        }
    }

    /// A connecting session with a given identifier and heartbeat, made at
    /// time `now`.
    pub fn with_id(id: SessionId, room: RoomId, config: HeartbeatConfig, now: u64) -> (conn: WsConn)
        ensures
            conn@ == (ConnState { id, room, phase: Phase::Connecting, last_seen: now, config }),
    {
        WsConn { id, room, hb: now, phase: Phase::Connecting, config }
    }

    pub fn id(&self) -> (id: SessionId)
        ensures
            id == self@.id,
    {
        self.id
    }

    pub fn room(&self) -> (room: RoomId)
        ensures
            room == self@.room,
    {
        self.room
    }

    pub fn phase(&self) -> (phase: Phase)
        ensures
            phase == self@.phase,
    {
        self.phase
    }

    /// When the peer was last heard of.
    pub fn last_seen(&self) -> (at: u64)
        ensures
            at == self@.last_seen,
    {
        self.hb
    }

    pub fn config(&self) -> (config: HeartbeatConfig)
        ensures
            config == self@.config,
    {
        self.config
    }

    /// Starts the session.
    pub fn started(&mut self) -> (effects: Vec<Effect>)
        ensures
            (final(self)@, actions(effects@)) == old(self)@.started(),
    {
        if self.phase == Phase::Connecting {
            self.phase = Phase::Active;
            let effects = vec![
                Effect::Connect { id: self.id, room: self.room },
                Effect::ArmHeartbeat { interval: self.config.interval },
            ];
            assert(actions(effects@) =~= old(self)@.started().1);
            effects
        } else {
            no_effects()
        }
    }

    /// Takes one inbound frame at time `now`.
    pub fn handle(&mut self, frame: Frame, now: u64) -> (effects: Vec<Effect>)
        ensures
            (final(self)@, actions(effects@)) == old(self)@.handled(frame, now),
    {
        if self.phase != Phase::Active {
            return no_effects();
        }
        match frame {
            Frame::Ping(payload) => {
                self.hb = now;
                one_effect(Effect::Pong(payload))
            },
            Frame::Pong(_) => {
                self.hb = now;
                no_effects()
            },
            Frame::Text(text) => one_effect(Effect::Relay { id: self.id, room: self.room, text }),
            Frame::Binary(payload) => one_effect(Effect::Binary(payload)),
            Frame::Close(reason) => {
                self.phase = Phase::Closing;
                one_effect(Effect::Close(reason))
            },
            Frame::Continuation => {
                self.phase = Phase::Closing;
                no_effects()
            },
            Frame::Nop => no_effects(),
            Frame::Fault => {
                self.phase = Phase::Closing;
                no_effects()
            },
        }
    }

    /// Takes one tick of the heartbeat at time `now`.
    pub fn hb(&mut self, now: u64) -> (effects: Vec<Effect>)
        ensures
            (final(self)@, actions(effects@)) == old(self)@.ticked(now),
    {
        if self.phase != Phase::Active {
            no_effects()
        } else if self.config.expired(self.hb, now) {
            self.phase = Phase::Closing;
            no_effects()
        } else {
            let payload: Vec<u8> = vec![0x50u8, 0x49u8, 0x4eu8, 0x47u8];
            assert(payload@ =~= chat_ping());
            one_effect(Effect::Ping(payload))
        }
    }

    /// Stops the session.
    pub fn stopping(&mut self) -> (effects: Vec<Effect>)
        ensures
            (final(self)@, actions(effects@)) == old(self)@.stopped(),
    {
        if self.phase == Phase::Closed {
            no_effects()
        } else {
            self.phase = Phase::Closed;
            let effects = vec![
                Effect::CancelHeartbeat,
                Effect::Disconnect { id: self.id, room: self.room },
                Effect::Release,
            ];
            assert(actions(effects@) =~= old(self)@.stopped().1);
            effects
        }
    }
}

/// No effect.
pub(crate) fn no_effects() -> (effects: Vec<Effect>)
    ensures
        actions(effects@) == Seq::<Action>::empty(),
{
    let effects: Vec<Effect> = Vec::new();
    assert(actions(effects@) =~= Seq::<Action>::empty());
    effects
}

/// One effect.
pub(crate) fn one_effect(effect: Effect) -> (effects: Vec<Effect>)
    ensures
        actions(effects@) == seq![effect@],
{
    let effects = vec![effect];
    assert(actions(effects@) =~= seq![effect@]);
    effects
}

} // verus!
