//! Input-and-feedback control core of a Morse-code text-entry device:
//! a monotonic millisecond clock, debounced button channels, the
//! timing-to-signal-event protocol for the decoding engine, and the
//! mapping from a linear edit offset to display coordinates.

pub mod clock;
pub mod control;
pub mod cursor;
pub mod debounce;
pub mod decoder;
pub mod signal;

pub use clock::MonotonicClock;
pub use control::ControlLoop;
pub use cursor::CursorPosition;
pub use cursor::calculate_cursor_positions;
pub use debounce::{Channel, Debouncer, Edge, EdgeKind};
pub use signal::{SignalEvent, SignalEventTranslator, SignalLevel};
