//! Debounced button channels: an edge-triggered filter that turns raw GPIO
//! levels into qualified press and release edges.
//!
//! Exactly one edge is produced per qualifying level change; repeated polls
//! while the level is held produce nothing until the level changes again.
//! A press is gated against the debounce window measured from the channel's
//! previous release; a release always passes and always updates the timing.

use vstd::prelude::*;

verus! {

/// Width of the debounce window in milliseconds: a press closer than this
/// to the channel's previous transition is suppressed.
pub const DEBOUNCE_MS: u32 = 30;

/// Identity of a physical button channel.
#[derive(Clone, Copy, Debug, PartialEq, Eq, Structural)]
pub enum Channel {
    Key,
    Commit,
    ShiftLeft,
    ShiftRight,
}

/// Direction of a qualified level change.
#[derive(Clone, Copy, Debug, PartialEq, Eq, Structural)]
pub enum EdgeKind {
    Press,
    Release,
}

/// A qualified edge: which channel changed, in which direction, and when.
/// Transient — handed on, never stored.
#[derive(Clone, Copy, Debug, PartialEq, Eq, Structural)]
pub struct Edge {
    pub channel: Channel,
    pub kind: EdgeKind,
    pub timestamp: u32,
}

/// Per-channel debounce state: `armed` is true when a press is eligible to
/// be detected again; `last_transition_time` is the time of the previous
/// release, against which the next press is debounce-gated.
#[derive(Clone, Copy, Debug, PartialEq, Eq, Structural)]
pub struct Debouncer {
    pub channel: Channel,
    pub armed: bool,
    pub last_transition_time: u32,
}

/// The edge that one poll of a channel produces, if any: a press only when
/// the channel is armed and the debounce window has elapsed since the last
/// transition; a release unconditionally when the channel is held.
pub open spec fn poll_edge(s: Debouncer, active: bool, now: u32) -> Option<Edge> {
    if active && s.armed {
        if now - s.last_transition_time >= DEBOUNCE_MS {
            Some(Edge { channel: s.channel, kind: EdgeKind::Press, timestamp: now })
        } else {
            None
        }
    } else if !active && !s.armed {
        Some(Edge { channel: s.channel, kind: EdgeKind::Release, timestamp: now })
    } else {
        None
    }
}

/// The channel state after one poll: a press — suppressed or not — disarms
/// the channel without touching its timing; a release re-arms it and
/// records the time; anything else changes nothing.
pub open spec fn poll_next(s: Debouncer, active: bool, now: u32) -> Debouncer {
    if active && s.armed {
        Debouncer { armed: false, ..s }
    } else if !active && !s.armed {
        Debouncer { armed: true, last_transition_time: now, ..s }
    } else {
        s
    }
}

impl Debouncer {
    /// A fresh channel: armed, with its timing origin at zero.
    pub fn new(channel: Channel) -> (s: Self)
        ensures
            s == (Debouncer { channel, armed: true, last_transition_time: 0 }),
    {
        Debouncer { channel, armed: true, last_transition_time: 0 }
    }

    /// One poll of the raw level at time `now`. `active` is true while the
    /// button is held down. Rejected (too-soon) presses produce no edge but
    /// still disarm the channel, so the press is not detected again until
    /// the level drops; the channel's timing is only ever updated by a
    /// release.
    pub fn poll(&mut self, active: bool, now: u32) -> (e: Option<Edge>)
        requires
            now >= old(self).last_transition_time,
        ensures
            e == poll_edge(*old(self), active, now),
            *final(self) == poll_next(*old(self), active, now),
            final(self).last_transition_time <= now,
    {
        if active && self.armed {
            self.armed = false;
            if now - self.last_transition_time >= DEBOUNCE_MS {
                Some(Edge { channel: self.channel, kind: EdgeKind::Press, timestamp: now })
            } else {
                None
            }
        } else if !active && !self.armed {
            self.armed = true;
            self.last_transition_time = now;
            Some(Edge { channel: self.channel, kind: EdgeKind::Release, timestamp: now })
        } else {
            None
        }
    }
}

/// Debounce correctness: for a channel armed and idle since its last
/// transition at `t0`, a press arriving at `t1` strictly inside the
/// debounce window is suppressed, and one arriving at or after the window's
/// end is accepted as a press edge stamped `t1`.
pub proof fn lemma_press_debounce(s: Debouncer, t0: u32, t1: u32)
    requires
        s.armed,
        s.last_transition_time == t0,
        t1 >= t0,
    ensures
        t1 < t0 + DEBOUNCE_MS ==> poll_edge(s, true, t1) is None,
        t1 >= t0 + DEBOUNCE_MS ==> poll_edge(s, true, t1) == Some(
            Edge { channel: s.channel, kind: EdgeKind::Press, timestamp: t1 },
        ),
{
}

} // verus!
