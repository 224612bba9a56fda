//! Timing-to-signal-event protocol: turns the Key channel's qualified
//! press and release edges into the duration-and-level events consumed by
//! the decoding engine.
//!
//! Two timestamps are tracked, with zero meaning "unset". A qualifying
//! press first reports the gap since the previous release, if one is
//! recorded; a release reports the mark held since the press. The decoder
//! classifies dot against dash from the mark duration and letter-space
//! against word-space from the gap duration; that classification is the
//! decoder's own affair.

use vstd::prelude::*;

verus! {

/// Whether a reported duration was spent with the key down (a mark) or up
/// (a gap).
#[derive(Clone, Copy, Debug, PartialEq, Eq, Structural)]
pub enum SignalLevel {
    Mark,
    Gap,
}

/// One event for the decoding engine: how long, and at which level.
/// Transient — handed to the decoder, never stored.
#[derive(Clone, Copy, Debug, PartialEq, Eq, Structural)]
pub struct SignalEvent {
    pub duration_ms: u16,
    pub level: SignalLevel,
}

/// Translator state: the timestamps of the last qualifying press and of
/// the last release, zero when unset.
#[derive(Clone, Copy, Debug, PartialEq, Eq, Structural)]
pub struct SignalEventTranslator {
    pub last_press_time: u32,
    pub last_release_time: u32,
}

/// An elapsed time as the decoder receives it: truncated to the low
/// sixteen bits of its millisecond count.
pub open spec fn duration16(d: int) -> u16 {
    (d % 0x10000) as u16
}

/// The event a qualifying press at time `t` emits: the gap since the last
/// release when one is recorded, nothing on the first-ever press.
pub open spec fn press_event(s: SignalEventTranslator, t: u32) -> Option<SignalEvent> {
    if s.last_release_time > 0 {
        Some(SignalEvent { duration_ms: duration16(t - s.last_release_time), level: SignalLevel::Gap })
    } else {
        None
    }
}

/// Translator state after a qualifying press at time `t`: the press time
/// is recorded and any recorded release time is cleared.
pub open spec fn press_next(s: SignalEventTranslator, t: u32) -> SignalEventTranslator {
    SignalEventTranslator { last_press_time: t, last_release_time: 0 }
}

/// The event a release at time `t` emits: the mark held since the last
/// qualifying press.
pub open spec fn release_event(s: SignalEventTranslator, t: u32) -> SignalEvent {
    SignalEvent { duration_ms: duration16(t - s.last_press_time), level: SignalLevel::Mark }
}

/// Translator state after a release at time `t`: the release time is
/// recorded and the press time cleared.
pub open spec fn release_next(s: SignalEventTranslator, t: u32) -> SignalEventTranslator {
    SignalEventTranslator { last_press_time: 0, last_release_time: t }
}

impl SignalEventTranslator {
    /// A fresh translator: no press and no release recorded yet.
    pub fn new() -> (s: Self)
        ensures
            s == (SignalEventTranslator { last_press_time: 0, last_release_time: 0 }),
    {
        SignalEventTranslator { last_press_time: 0, last_release_time: 0 }
    }

    /// A qualifying press edge at time `t`. When a release is recorded,
    /// reports the gap elapsed since it and clears it; either way the
    /// press time is recorded for the matching release.
    pub fn on_press(&mut self, t: u32) -> (e: Option<SignalEvent>)
        requires
            t >= old(self).last_release_time,
        ensures
            e == press_event(*old(self), t),
            *final(self) == press_next(*old(self), t),
    {
        let e: Option<SignalEvent> = if self.last_release_time > 0 {
            let gap: u32 = (t - self.last_release_time) % 0x10000;
            Some(SignalEvent { duration_ms: gap as u16, level: SignalLevel::Gap })
        } else {
            None
        };
        self.last_release_time = 0;
        self.last_press_time = t;
        e
    }

    /// A release edge at time `t`: reports the mark held since the
    /// recorded press, records the release time and clears the press time.
    pub fn on_release(&mut self, t: u32) -> (e: SignalEvent)
        requires
            t >= old(self).last_press_time,
        ensures
            e == release_event(*old(self), t),
            *final(self) == release_next(*old(self), t),
    {
        let mark: u32 = (t - self.last_press_time) % 0x10000;
        self.last_press_time = 0;
        self.last_release_time = t;
        SignalEvent { duration_ms: mark as u16, level: SignalLevel::Mark }
    }
}

/// Edge-pairing: a press at `t_p` followed by a release at `t_r`, with a
/// prior release recorded at `t_prev`, produces in order the gap event
/// `t_p - t_prev` and the mark event `t_r - t_p`, each at its level.
pub proof fn lemma_edge_pairing(s: SignalEventTranslator, t_prev: u32, t_p: u32, t_r: u32)
    requires
        s.last_release_time == t_prev,
        t_prev > 0,
        t_p >= t_prev,
        t_r > t_p,
        t_p - t_prev <= u16::MAX,
        t_r - t_p <= u16::MAX,
    ensures
        press_event(s, t_p) == Some(
            SignalEvent { duration_ms: (t_p - t_prev) as u16, level: SignalLevel::Gap },
        ),
        release_event(press_next(s, t_p), t_r) == (SignalEvent {
            duration_ms: (t_r - t_p) as u16,
            level: SignalLevel::Mark,
        }),
{
}

/// Boundary: the first-ever press — no prior release recorded — emits no
/// gap event; the eventual release still emits its mark event.
pub proof fn lemma_first_press_no_gap(s: SignalEventTranslator, t_p: u32, t_r: u32)
    requires
        s.last_release_time == 0,
        t_r > t_p,
        t_r - t_p <= u16::MAX,
    ensures
        press_event(s, t_p) is None,
        release_event(press_next(s, t_p), t_r) == (SignalEvent {
            duration_ms: (t_r - t_p) as u16,
            level: SignalLevel::Mark,
        }),
{
}

} // verus!
