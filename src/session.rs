//! The state of one connection's session handler, and its reactions to the
//! events that reach it: the coordinator's answer to `Join`, inbound frames,
//! liveness signals, heartbeat ticks and termination. Each reaction returns
//! what the caller is to do next; performing it is left to the caller.

use vstd::prelude::*;
use crate::protocol::{opt_view, parse_frame, parse_spec, Frame, FrameModel};

verus! {

/// How often, in milliseconds, the heartbeat timer fires.
pub const HEARTBEAT_INTERVAL: u64 = 2000;

/// How long, in milliseconds, a peer may stay silent before it is dropped.
pub const CLIENT_TIMEOUT: u64 = 10000;

/// Where a session is in its life.
#[derive(PartialEq, Eq, Structural, Clone, Copy, Debug)]
pub enum Phase {
    /// Waiting for the coordinator to assign an id.
    Connecting,
    /// Id assigned; messages flow.
    Active,
    /// Termination has been decided.
    Closing,
    /// `Disconnect` has been sent.
    Terminated,
}

/// A request to broadcast a message to every registered session.
pub struct ClientMessage {
    pub session_id: u64,
    pub message: String,
    pub name: Option<String>,
}

/// A notice that a session has gone.
pub struct Disconnect {
    pub id: u64,
    pub name: Option<String>,
}

/// What an inbound text frame calls for.
pub enum FrameEffect {
    /// Send this message to the coordinator.
    Forward(ClientMessage),
    /// The display name was set or cleared.
    Renamed,
    /// The command is not supported; it is carried for a warning.
    Unsupported(String),
    /// The frame had no `:`; it is dropped.
    Dropped,
    /// The session is not active (no id yet, or ending); the frame is not read.
    Ignored,
}

/// What a heartbeat tick calls for.
#[derive(PartialEq, Eq, Structural, Clone, Copy, Debug)]
pub enum Tick {
    /// Send a liveness probe to the peer.
    Ping,
    /// The peer has been silent too long: terminate the session.
    TimedOut,
}

/// The peer's last liveness signal at `last` is too old at `now`.
pub open spec fn timed_out(last: int, now: int) -> bool {
    now - last > CLIENT_TIMEOUT
}

/// A copy of an optional name.
fn copy_name(n: &Option<String>) -> (r: Option<String>)
    ensures
        r == *n,
{
    match n {
        Some(s) => Some(s.clone()),
        None => None,
    }
}

/// One connection's session handler state.
pub struct WsChatSession {
    /// The id that the coordinator assigned; 0 until then.
    pub id: u64,
    /// When the last liveness signal arrived, in milliseconds.
    pub heartbeat: u64,
    /// The display name, if one was given.
    pub name: Option<String>,
    pub phase: Phase,
}

impl WsChatSession {
    /// A session for a connection accepted at `now`.
    pub fn new(now: u64) -> (s: WsChatSession)
        ensures
            s.id == 0,
            s.heartbeat == now,
            s.name is None,
            s.phase == Phase::Connecting,
    {
        WsChatSession { id: 0, heartbeat: now, name: None, phase: Phase::Connecting }
    }

    /// Takes the coordinator's answer to `Join`: the assigned id, or `None`
    /// when the coordinator could not be reached. Returns whether the session
    /// goes on; when it does not, the caller stops it.
    pub fn started(&mut self, joined: Option<u64>) -> (go_on: bool)
        requires
            old(self).phase == Phase::Connecting,
        ensures
            go_on == joined is Some,
            final(self).heartbeat == old(self).heartbeat,
            final(self).name == old(self).name,
            match joined {
                Some(id) => final(self).id == id && final(self).phase == Phase::Active,
                None => final(self).id == old(self).id && final(self).phase == Phase::Closing,
            },
    {
        match joined {
            Some(id) => {
                self.id = id;
                self.phase = Phase::Active;
                true
            },
            None => {
                self.phase = Phase::Closing;
                false
            },
        }
    }

    /// The session is ending, whatever the cause. The first call gives the
    /// `Disconnect` for the coordinator; later calls give nothing, so that it
    /// is sent exactly once.
    pub fn stopping(&mut self) -> (r: Option<Disconnect>)
        ensures
            final(self).phase == Phase::Terminated,
            final(self).id == old(self).id,
            final(self).heartbeat == old(self).heartbeat,
            final(self).name == old(self).name,
            old(self).phase == Phase::Terminated ==> r is None,
            old(self).phase != Phase::Terminated ==> (r matches Some(d) && d.id == old(self).id
                && d.name == old(self).name),
    {
        if self.phase == Phase::Terminated {
            return None;
        }
        self.phase = Phase::Terminated;
        Some(Disconnect { id: self.id, name: copy_name(&self.name) })
    }

    /// A ping or a pong came from the peer at `now`. After a ping the caller
    /// answers with a pong.
    pub fn liveness(&mut self, now: u64)
        ensures
            final(self).heartbeat == now,
            final(self).id == old(self).id,
            final(self).name == old(self).name,
            final(self).phase == old(self).phase,
    {
        self.heartbeat = now;
    }

    /// The peer asked to close the connection.
    pub fn close(&mut self)
        ensures
            final(self).phase == (if old(self).phase == Phase::Terminated {
                Phase::Terminated
            } else {
                Phase::Closing
            }),
            final(self).id == old(self).id,
            final(self).heartbeat == old(self).heartbeat,
            final(self).name == old(self).name,
    {
        if self.phase != Phase::Terminated {
            self.phase = Phase::Closing;
        }
    }

    /// The heartbeat timer fired at `now`. A peer silent for longer than
    /// `CLIENT_TIMEOUT` times the session out; otherwise it is probed.
    pub fn heartbeat(&mut self, now: u64) -> (t: Tick)
        ensures
            (t == Tick::TimedOut) == timed_out(old(self).heartbeat as int, now as int),
            final(self).phase == (if t == Tick::TimedOut && old(self).phase != Phase::Terminated {
                Phase::Closing
            } else {
                old(self).phase
            }),
            final(self).id == old(self).id,
            final(self).heartbeat == old(self).heartbeat,
            final(self).name == old(self).name,
    {
        if now > self.heartbeat && now - self.heartbeat > CLIENT_TIMEOUT {
            if self.phase != Phase::Terminated {
                self.phase = Phase::Closing;
            }
            Tick::TimedOut
        } else {
            Tick::Ping
        }
    }

    /// An inbound text frame. `text:` frames become a message for the
    /// coordinator carrying this session's id and name; `name:` frames set
    /// the name to the trimmed payload, or clear it when that is empty;
    /// anything else leaves the session as it was. Frames are read only
    /// while the session is active, so every message carries an assigned id.
    pub fn handle_text(&mut self, frame: &str) -> (r: FrameEffect)
        ensures
            final(self).id == old(self).id,
            final(self).heartbeat == old(self).heartbeat,
            final(self).phase == old(self).phase,
            old(self).phase != Phase::Active ==> r is Ignored && final(self).name == old(
                self,
            ).name,
            old(self).phase == Phase::Active ==> match parse_spec(frame@) {
                FrameModel::Text(t) => {
                    &&& final(self).name == old(self).name
                    &&& r matches FrameEffect::Forward(m)
                    &&& m.session_id == old(self).id
                    &&& m.message@ == t
                    &&& m.name == old(self).name
                },
                FrameModel::Name(n) => r is Renamed && opt_view(&final(self).name) == n,
                FrameModel::Unknown(c) => {
                    &&& final(self).name == old(self).name
                    &&& r matches FrameEffect::Unsupported(u)
                    &&& u@ == c
                },
                FrameModel::Malformed => final(self).name == old(self).name && r is Dropped,
            },
    {
        if self.phase != Phase::Active {
            return FrameEffect::Ignored;
        }
        match parse_frame(frame) {
            Frame::Text(message) => FrameEffect::Forward(
                ClientMessage { session_id: self.id, message, name: copy_name(&self.name) },
            ),
            Frame::Name(n) => {
                self.name = n;
                FrameEffect::Renamed
            },
            Frame::Unknown(c) => FrameEffect::Unsupported(c),
            Frame::Malformed => FrameEffect::Dropped,
        }
    }
}

/// A peer that falls silent is caught by the heartbeat: with ticks at
/// `start + k * HEARTBEAT_INTERVAL` and the last signal at `last` (not before
/// `start`), some tick no later than one interval after the timeout has
/// elapsed finds the session timed out.
pub proof fn lemma_timeout_detected(start: int, last: int)
    requires
        start <= last,
    ensures
        ({
            let k = (last + CLIENT_TIMEOUT - start) / (HEARTBEAT_INTERVAL as int) + 1;
            let t = start + k * HEARTBEAT_INTERVAL;
            &&& k >= 1
            &&& timed_out(last, t)
            &&& t <= last + CLIENT_TIMEOUT + HEARTBEAT_INTERVAL
        }),
{
    let d = last + CLIENT_TIMEOUT - start;
    let q = d / (HEARTBEAT_INTERVAL as int);
    assert(q * 2000 <= d < q * 2000 + 2000);
    assert((q + 1) * 2000 == q * 2000 + 2000) by (nonlinear_arith);
}

} // verus!
