//! The throughput probe: a session profile that never consults the hub. It
//! answers every text frame with one fixed, large binary payload.

use crate::heartbeat::{stale, HeartbeatConfig, DEFAULT_INTERVAL, DEFAULT_TIMEOUT};
use crate::session::{actions, no_effects, one_effect, Action, Effect, Frame, Phase};
use vstd::prelude::*;

verus! {

/// A probe session as the contracts speak of it.
pub struct ProbeState {
    pub phase: Phase,
    pub last_seen: u64,
    pub config: HeartbeatConfig,
}

impl ProbeState {
    pub open spec fn phased(self, phase: Phase) -> ProbeState {
        ProbeState { phase, ..self }
    }

    pub open spec fn seen(self, now: u64) -> ProbeState {
        ProbeState { last_seen: now, ..self }
    }

    /// The start: a connecting session arms its heartbeat and becomes
    /// active. The time at which it was last heard of stays what it was
    /// made with. In any other phase nothing happens.
    pub open spec fn started(self) -> (ProbeState, Seq<Action>) {
        if self.phase == Phase::Connecting {
            (
                self.phased(Phase::Active),
                seq![Action::ArmHeartbeat { interval: self.config.interval }],
            )
        } else {
            (self, Seq::empty())
        }
    }

    /// One inbound frame. Only an active session reads frames; what is
    /// neither ping, pong, text nor close ends it.
    pub open spec fn handled(self, frame: Frame, now: u64) -> (ProbeState, Seq<Action>) {
        if self.phase != Phase::Active {
            (self, Seq::empty())
        } else {
            match frame {
                Frame::Ping(payload) => (self.seen(now), seq![Action::Pong(payload@)]),
                Frame::Pong(_) => (self.seen(now), Seq::empty()),
                Frame::Text(_) => (self, seq![Action::Probe]),
                Frame::Close(reason) => (self.phased(Phase::Closing), seq![Action::Close(reason)]),
                _ => (self.phased(Phase::Closing), Seq::empty()),
            }
        }
    }

    /// One tick of the heartbeat: an active session that has been silent
    /// for too long starts closing, any other active session sends one
    /// ping with an empty payload.
    pub open spec fn ticked(self, now: u64) -> (ProbeState, Seq<Action>) {
        if self.phase != Phase::Active {
            (self, Seq::empty())
        } else if stale(self.last_seen, now, self.config.timeout) {
            (self.phased(Phase::Closing), Seq::empty())
        } else {
            (self, seq![Action::Ping(Seq::empty())])
        }
    }

    /// The stop: a session that is not closed cancels its heartbeat, lets
    /// go of its outbound capability and is closed.
    pub open spec fn stopped(self) -> (ProbeState, Seq<Action>) {
        if self.phase == Phase::Closed {
            (self, Seq::empty())
        } else {
            (self.phased(Phase::Closed), seq![Action::CancelHeartbeat, Action::Release])
        }
    }
}

/// A probe session.
#[derive(Debug)]
pub struct MyWS {
    hb: u64,
    phase: Phase,
    config: HeartbeatConfig,
}

impl View for MyWS {
    type V = ProbeState;

    closed spec fn view(&self) -> ProbeState {
        ProbeState { phase: self.phase, last_seen: self.hb, config: self.config }
    }
}

impl MyWS {
    /// A connecting session made at time `now`, with the default
    /// heartbeat. Its first timeout window runs from `now`.
    pub fn new(now: u64) -> (probe: MyWS)
        ensures
            probe@ == (ProbeState {
                phase: Phase::Connecting,
                last_seen: now,
                config: HeartbeatConfig { interval: DEFAULT_INTERVAL, timeout: DEFAULT_TIMEOUT },
            }),
    {
        MyWS { hb: now, phase: Phase::Connecting, config: HeartbeatConfig::default() }
    }

    /// A connecting session with a given heartbeat, made at time `now`.
    pub fn with_config(config: HeartbeatConfig, now: u64) -> (probe: MyWS)
        ensures
            probe@ == (ProbeState { phase: Phase::Connecting, last_seen: now, config }),
    {
        MyWS { hb: now, phase: Phase::Connecting, config }
    }

    pub fn phase(&self) -> (phase: Phase)
        ensures
            phase == self@.phase,
    {
        self.phase
    }

    /// When the peer was last heard of.
    pub fn last_seen(&self) -> (at: u64)
        ensures
            at == self@.last_seen,
    {
        self.hb
    }

    pub fn config(&self) -> (config: HeartbeatConfig)
        ensures
            config == self@.config,
    {
        self.config
    }

    /// Starts the session.
    pub fn started(&mut self) -> (effects: Vec<Effect>)
        ensures
            (final(self)@, actions(effects@)) == old(self)@.started(),
    {
        if self.phase == Phase::Connecting {
            self.phase = Phase::Active;
            one_effect(Effect::ArmHeartbeat { interval: self.config.interval })
        } else {
            no_effects()
        }
    }

    /// Takes one inbound frame at time `now`.
    pub fn handle(&mut self, frame: Frame, now: u64) -> (effects: Vec<Effect>)
        ensures
            (final(self)@, actions(effects@)) == old(self)@.handled(frame, now),
    {
        if self.phase != Phase::Active {
            return no_effects();
        }
        match frame {
            Frame::Ping(payload) => {
                self.hb = now;
                one_effect(Effect::Pong(payload))
            },
            Frame::Pong(_) => {
                self.hb = now;
                no_effects()
            },
            Frame::Text(_) => one_effect(Effect::Probe),
            Frame::Close(reason) => {
                self.phase = Phase::Closing;
                one_effect(Effect::Close(reason))
            },
            _ => {
                self.phase = Phase::Closing;
                no_effects()
            },
        }
    }

    /// Takes one tick of the heartbeat at time `now`.
    pub fn hb(&mut self, now: u64) -> (effects: Vec<Effect>)
        ensures
            (final(self)@, actions(effects@)) == old(self)@.ticked(now),
    {
        if self.phase != Phase::Active {
            no_effects()
        } else if self.config.expired(self.hb, now) {
            self.phase = Phase::Closing;
            no_effects()
        } else {
            one_effect(Effect::Ping(Vec::new()))
        }
    }

    /// Stops the session.
    pub fn stopping(&mut self) -> (effects: Vec<Effect>)
        ensures
            (final(self)@, actions(effects@)) == old(self)@.stopped(),
    {
        if self.phase == Phase::Closed {
            no_effects()
        } else {
            self.phase = Phase::Closed;
            let effects = vec![Effect::CancelHeartbeat, Effect::Release];
            assert(actions(effects@) =~= old(self)@.stopped().1);
            effects
        }
    }
}

} // verus!
