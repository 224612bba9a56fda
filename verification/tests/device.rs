use morse_entry::Channel;
use morse_entry::ControlLoop;
use morse_entry::CursorPosition;
use morse_entry::Debouncer;
use morse_entry::Edge;
use morse_entry::EdgeKind;
use morse_entry::MonotonicClock;
use morse_entry::SignalEvent;
use morse_entry::SignalEventTranslator;
use morse_entry::SignalLevel;
use morse_entry::calculate_cursor_positions;

#[test]
fn cursor_maps_all_buffer_offsets() {
    for offset in 0..32usize {
        let p = calculate_cursor_positions(offset);
        assert_eq!(p.column as usize, offset % 16);
        assert_eq!(p.row as usize, offset / 16);
        assert!(p.column < 16);
    }
}

#[test]
fn cursor_exact_corners() {
    assert_eq!(calculate_cursor_positions(0), CursorPosition { column: 0, row: 0 });
    assert_eq!(calculate_cursor_positions(15), CursorPosition { column: 15, row: 0 });
    assert_eq!(calculate_cursor_positions(16), CursorPosition { column: 0, row: 1 });
    assert_eq!(calculate_cursor_positions(31), CursorPosition { column: 15, row: 1 });
}

#[test]
fn clock_reads_are_monotonic() {
    let mut clock = MonotonicClock::init();
    assert_eq!(clock.now(), 0);
    let mut previous = clock.now();
    for _ in 0..100 {
        clock.tick();
        let t = clock.now();
        assert!(t >= previous);
        previous = t;
    }
    // 1024 * 125 / 16000 truncates to exactly 8 ms per firing.
    assert_eq!(clock.now(), 800);
}

#[test]
fn debounce_suppresses_early_press() {
    let mut d = Debouncer::new(Channel::Key);
    // Armed since time 0: a press at 10 falls inside the 30 ms window.
    assert_eq!(d.poll(true, 10), None);
    assert!(!d.armed);
    // The release passes unconditionally and re-times the channel.
    assert_eq!(
        d.poll(false, 40),
        Some(Edge { channel: Channel::Key, kind: EdgeKind::Release, timestamp: 40 })
    );
    assert_eq!(d.last_transition_time, 40);
    // 29 ms after the release: suppressed again.
    assert_eq!(d.poll(true, 69), None);
    assert_eq!(d.poll(false, 80), Some(Edge {
        channel: Channel::Key,
        kind: EdgeKind::Release,
        timestamp: 80,
    }));
    // Exactly 30 ms after the release: accepted.
    assert_eq!(
        d.poll(true, 110),
        Some(Edge { channel: Channel::Key, kind: EdgeKind::Press, timestamp: 110 })
    );
}

#[test]
fn debounce_is_edge_triggered() {
    let mut d = Debouncer::new(Channel::Commit);
    assert_eq!(
        d.poll(true, 100),
        Some(Edge { channel: Channel::Commit, kind: EdgeKind::Press, timestamp: 100 })
    );
    // Holding the level produces nothing more.
    assert_eq!(d.poll(true, 101), None);
    assert_eq!(d.poll(true, 500), None);
    // Idle at the inactive level while armed also produces nothing.
    let mut idle = Debouncer::new(Channel::ShiftLeft);
    assert_eq!(idle.poll(false, 100), None);
    assert_eq!(idle.poll(false, 200), None);
}

#[test]
fn first_press_emits_no_gap() {
    let mut t = SignalEventTranslator::new();
    assert_eq!(t.on_press(1000), None);
    assert_eq!(
        t.on_release(1100),
        SignalEvent { duration_ms: 100, level: SignalLevel::Mark }
    );
}

#[test]
fn press_release_pair_emits_gap_then_mark() {
    let mut t = SignalEventTranslator::new();
    t.on_press(1000);
    t.on_release(1100);
    // Prior release at 1100: the next press reports the gap first.
    assert_eq!(
        t.on_press(1400),
        Some(SignalEvent { duration_ms: 300, level: SignalLevel::Gap })
    );
    assert_eq!(
        t.on_release(1650),
        SignalEvent { duration_ms: 250, level: SignalLevel::Mark }
    );
}

#[test]
fn boot_with_empty_buffer_shows_nothing() {
    let c = ControlLoop::new();
    assert_eq!(c.startup_view(), None);
}

#[test]
fn dot_then_commit_shows_decoded_character() {
    let mut c = ControlLoop::new();
    // Press the key at t = 1000: debounce satisfied, first-ever press, no gap.
    assert_eq!(c.poll_key(true, 1000), None);
    // Release at t = 1100: a 100 ms mark, a dot at the 100 ms reference.
    assert_eq!(
        c.poll_key(false, 1100),
        Some(SignalEvent { duration_ms: 100, level: SignalLevel::Mark })
    );
    // Commit at t = 1200 with debounce satisfied: finalize and redraw.
    let (text, pos) = c.poll_commit(true, 1200).expect("commit press must redraw");
    assert_eq!(text, "E");
    assert_eq!(pos, CursorPosition { column: 1, row: 0 });
}

#[test]
fn suppressed_key_press_feeds_nothing() {
    let mut c = ControlLoop::new();
    // 10 ms after the timing origin: inside the debounce window.
    assert_eq!(c.poll_key(true, 10), None);
    // The suppressed press recorded no press time.
    assert_eq!(c.translator.last_press_time, 0);
    assert!(!c.key.armed);
}

#[test]
fn shift_wraps_at_buffer_ends() {
    // The engine's edit position wraps rather than clamps: one step left
    // from offset 0 lands on the last buffer slot, and one step right
    // from there comes back to 0 — its documented default.
    let mut c = ControlLoop::new();
    assert_eq!(
        c.poll_shift_left(true, 100),
        Some(CursorPosition { column: 15, row: 1 })
    );
    assert_eq!(c.poll_shift_left(false, 200), None);
    assert_eq!(
        c.poll_shift_right(true, 300),
        Some(CursorPosition { column: 0, row: 0 })
    );
    assert_eq!(c.poll_shift_right(false, 400), None);
    assert_eq!(
        c.poll_shift_right(true, 500),
        Some(CursorPosition { column: 1, row: 0 })
    );
}

#[test]
fn held_shift_moves_once() {
    let mut c = ControlLoop::new();
    assert_eq!(
        c.poll_shift_right(true, 100),
        Some(CursorPosition { column: 1, row: 0 })
    );
    // Holding the button produces no further movement.
    assert_eq!(c.poll_shift_right(true, 2000), None);
    assert_eq!(c.poll_shift_right(true, 5000), None);
}
