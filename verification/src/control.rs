//! Orchestration of one polling cycle: each button channel's debouncer is
//! fed the raw level, qualified edges are translated into signal events
//! for the decoding engine, and the engine's edit position is mapped to a
//! display coordinate for the caller to apply.
//!
//! The caller owns the cycle cadence and everything electrical: reading
//! the pins, pacing the loop, and driving the display with the text and
//! coordinates returned here.

use vstd::prelude::*;

use crate::cursor::CursorPosition;
use crate::cursor::calculate_cursor_positions;
use crate::cursor::column_of;
use crate::cursor::row_of;
use crate::debounce::Channel;
use crate::debounce::Debouncer;
use crate::debounce::EdgeKind;
use crate::debounce::poll_edge;
use crate::debounce::poll_next;
use crate::decoder::decoded_text;
use crate::decoder::edit_offset;
use crate::decoder::edit_position;
use crate::decoder::message_is_empty;
use crate::decoder::message_text;
use crate::decoder::new_decoder;
use crate::decoder::shift_edit_left;
use crate::decoder::shift_edit_right;
use crate::decoder::signal_event;
use crate::decoder::signal_event_end;
use crate::signal::SignalEvent;
use crate::signal::SignalEventTranslator;
use crate::signal::SignalLevel;
use crate::signal::press_event;
use crate::signal::press_next;
use crate::signal::release_event;
use crate::signal::release_next;

verus! {

/// The edit position after one shift to the left: one less, wrapping from
/// zero to the last buffer slot — the engine's documented behaviour.
pub open spec fn wrap_left(p: int) -> int {
    if p == 0 {
        31
    } else {
        p - 1
    }
}

/// The edit position after one shift to the right: one more, wrapping
/// from the last buffer slot to zero — the engine's documented behaviour.
pub open spec fn wrap_right(p: int) -> int {
    if p == 31 {
        0
    } else {
        p + 1
    }
}

/// Shifting keeps the edit position inside the buffer: from any offset
/// within it, one step either way — wrap included — lands within it again.
pub proof fn lemma_shift_stays_in_buffer(p: int)
    requires
        0 <= p < 32,
    ensures
        0 <= wrap_left(p) < 32,
        0 <= wrap_right(p) < 32,
{
}

/// The whole per-cycle state: one debouncer per button channel, the
/// translator for the Key channel, and the external decoding engine.
pub struct ControlLoop {
    pub key: Debouncer,
    pub commit: Debouncer,
    pub left: Debouncer,
    pub right: Debouncer,
    pub translator: SignalEventTranslator,
    pub engine: morse_codec::decoder::MorseDecoder<32>,
}

impl ControlLoop {
    /// All recorded times lie at or before `t`: polling at `t` then meets
    /// every component's precondition, and the clock being monotonic
    /// keeps it so for every later cycle.
    pub open spec fn times_le(self, t: u32) -> bool {
        &&& self.key.last_transition_time <= t
        &&& self.commit.last_transition_time <= t
        &&& self.left.last_transition_time <= t
        &&& self.right.last_transition_time <= t
        &&& self.translator.last_press_time <= t
        &&& self.translator.last_release_time <= t
    }

    /// Boot state: every channel armed with its timing origin at zero, no
    /// press or release recorded, and a freshly built engine with an
    /// empty message and the edit position at zero.
    pub fn new() -> (c: Self)
        ensures
            c.key == (Debouncer { channel: Channel::Key, armed: true, last_transition_time: 0 }),
            c.commit == (Debouncer {
                channel: Channel::Commit,
                armed: true,
                last_transition_time: 0,
            }),
            c.left == (Debouncer {
                channel: Channel::ShiftLeft,
                armed: true,
                last_transition_time: 0,
            }),
            c.right == (Debouncer {
                channel: Channel::ShiftRight,
                armed: true,
                last_transition_time: 0,
            }),
            c.translator == (SignalEventTranslator { last_press_time: 0, last_release_time: 0 }),
            decoded_text(c.engine).len() == 0,
            edit_offset(c.engine) == 0,
            c.times_le(0),
    {
        ControlLoop {
            key: Debouncer::new(Channel::Key),
            commit: Debouncer::new(Channel::Commit),
            left: Debouncer::new(Channel::ShiftLeft),
            right: Debouncer::new(Channel::ShiftRight),
            translator: SignalEventTranslator::new(),
            engine: new_decoder(),
        }
    }

    /// The one-time startup view: when the engine boots with a non-empty
    /// message — resuming across a soft reset — the text and the mapped
    /// edit coordinate to redraw from; nothing otherwise.
    pub fn startup_view(&self) -> (r: Option<(String, CursorPosition)>)
        ensures
            r is Some <==> decoded_text(self.engine).len() > 0,
            r matches Some(v) ==> {
                &&& v.0@ == decoded_text(self.engine)
                &&& v.1.column as int == column_of(edit_offset(self.engine))
                &&& v.1.row as int == row_of(edit_offset(self.engine))
                &&& v.1.column < 16
            },
    {
        if message_is_empty(&self.engine) {
            None
        } else {
            let text = message_text(&self.engine);
            let pos = calculate_cursor_positions(edit_position(&self.engine));
            Some((text, pos))
        }
    }

    /// One poll of the Key channel at time `now`, `key_low` true while the
    /// key is held. A qualified press first reports the pending gap, a
    /// release reports the mark; each reported event is handed to the
    /// engine and returned. Without a qualified edge, or on a first-ever
    /// press, nothing is reported and the engine is untouched.
    pub fn poll_key(&mut self, key_low: bool, now: u32) -> (e: Option<SignalEvent>)
        requires
            old(self).times_le(now),
        ensures
            final(self).times_le(now),
            final(self).key == poll_next(old(self).key, key_low, now),
            final(self).commit == old(self).commit,
            final(self).left == old(self).left,
            final(self).right == old(self).right,
            match poll_edge(old(self).key, key_low, now) {
                Some(edge) => if edge.kind is Press {
                    &&& final(self).translator == press_next(old(self).translator, now)
                    &&& e == press_event(old(self).translator, now)
                } else {
                    &&& final(self).translator == release_next(old(self).translator, now)
                    &&& e == Some(release_event(old(self).translator, now))
                },
                None => {
                    &&& final(self).translator == old(self).translator
                    &&& e is None
                },
            },
            e is None ==> final(self).engine == old(self).engine,
            e is Some ==> {
                &&& decoded_text(final(self).engine).len() <= 32
                &&& 0 <= edit_offset(final(self).engine) < 32
            },
    {
        match self.key.poll(key_low, now) {
            Some(edge) => {
                if matches!(edge.kind, EdgeKind::Press) {
                    match self.translator.on_press(now) {
                        Some(ev) => {
                            let is_high = matches!(ev.level, SignalLevel::Mark);
                            signal_event(&mut self.engine, ev.duration_ms, is_high);
                            Some(ev)
                        },
                        None => None,
                    }
                } else {
                    let ev = self.translator.on_release(now);
                    let is_high = matches!(ev.level, SignalLevel::Mark);
                    signal_event(&mut self.engine, ev.duration_ms, is_high);
                    Some(ev)
                }
            },
            None => None,
        }
    }

    /// One poll of the Commit channel at time `now`. A qualified press
    /// finalizes the open signal sequence in the engine and returns the
    /// updated text with the mapped edit coordinate, for a full redraw;
    /// anything else leaves the engine untouched and returns nothing.
    pub fn poll_commit(&mut self, commit_low: bool, now: u32) -> (r: Option<(String, CursorPosition)>)
        requires
            old(self).times_le(now),
        ensures
            final(self).times_le(now),
            final(self).commit == poll_next(old(self).commit, commit_low, now),
            final(self).key == old(self).key,
            final(self).left == old(self).left,
            final(self).right == old(self).right,
            final(self).translator == old(self).translator,
            r is Some <==> (poll_edge(old(self).commit, commit_low, now) matches Some(edge)
                && edge.kind is Press),
            r matches Some(v) ==> {
                &&& v.0@ == decoded_text(final(self).engine)
                &&& v.0@.len() <= 32
                &&& 0 <= edit_offset(final(self).engine) < 32
                &&& v.1.column as int == column_of(edit_offset(final(self).engine))
                &&& v.1.row as int == row_of(edit_offset(final(self).engine))
                &&& v.1.column < 16
            },
            r is None ==> final(self).engine == old(self).engine,
    {
        match self.commit.poll(commit_low, now) {
            Some(edge) => {
                if matches!(edge.kind, EdgeKind::Press) {
                    signal_event_end(&mut self.engine, false);
                    let text = message_text(&self.engine);
                    let pos = calculate_cursor_positions(edit_position(&self.engine));
                    Some((text, pos))
                } else {
                    None
                }
            },
            None => None,
        }
    }

    /// One poll of the ShiftLeft channel at time `now`. A qualified press
    /// moves the engine's edit position one to the left — wrapping from
    /// zero to the last slot — and returns the mapped coordinate of the
    /// new position; anything else leaves the engine untouched.
    pub fn poll_shift_left(&mut self, left_low: bool, now: u32) -> (r: Option<CursorPosition>)
        requires
            old(self).times_le(now),
        ensures
            final(self).times_le(now),
            final(self).left == poll_next(old(self).left, left_low, now),
            final(self).key == old(self).key,
            final(self).commit == old(self).commit,
            final(self).right == old(self).right,
            final(self).translator == old(self).translator,
            r is Some <==> (poll_edge(old(self).left, left_low, now) matches Some(edge)
                && edge.kind is Press),
            r matches Some(pos) ==> {
                &&& edit_offset(final(self).engine) == wrap_left(edit_offset(old(self).engine))
                &&& decoded_text(final(self).engine) == decoded_text(old(self).engine)
                &&& 0 <= edit_offset(final(self).engine) < 32
                &&& pos.column as int == column_of(edit_offset(final(self).engine))
                &&& pos.row as int == row_of(edit_offset(final(self).engine))
                &&& pos.column < 16
            },
            r is None ==> final(self).engine == old(self).engine,
    {
        match self.left.poll(left_low, now) {
            Some(edge) => {
                if matches!(edge.kind, EdgeKind::Press) {
                    shift_edit_left(&mut self.engine);
                    Some(calculate_cursor_positions(edit_position(&self.engine)))
                } else {
                    None
                }
            },
            None => None,
        }
    }

    /// One poll of the ShiftRight channel at time `now`. A qualified
    /// press moves the engine's edit position one to the right — wrapping
    /// from the last slot to zero — and returns the mapped coordinate of
    /// the new position; anything else leaves the engine untouched.
    pub fn poll_shift_right(&mut self, right_low: bool, now: u32) -> (r: Option<CursorPosition>)
        requires
            old(self).times_le(now),
        ensures
            final(self).times_le(now),
            final(self).right == poll_next(old(self).right, right_low, now),
            final(self).key == old(self).key,
            final(self).commit == old(self).commit,
            final(self).left == old(self).left,
            final(self).translator == old(self).translator,
            r is Some <==> (poll_edge(old(self).right, right_low, now) matches Some(edge)
                && edge.kind is Press),
            r matches Some(pos) ==> {
                &&& edit_offset(final(self).engine) == wrap_right(edit_offset(old(self).engine))
                &&& decoded_text(final(self).engine) == decoded_text(old(self).engine)
                &&& 0 <= edit_offset(final(self).engine) < 32
                &&& pos.column as int == column_of(edit_offset(final(self).engine))
                &&& pos.row as int == row_of(edit_offset(final(self).engine))
                &&& pos.column < 16
            },
            r is None ==> final(self).engine == old(self).engine,
    {
        match self.right.poll(right_low, now) {
            Some(edge) => {
                if matches!(edge.kind, EdgeKind::Press) {
                    shift_edit_right(&mut self.engine);
                    Some(calculate_cursor_positions(edit_position(&self.engine)))
                } else {
                    None
                }
            },
            None => None,
        }
    }
}

} // verus!
