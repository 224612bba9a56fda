//! Boundary to the external Morse decoding engine (the `morse_codec`
//! crate). The engine owns the edit buffer and the dot/dash classification
//! algorithm; both are out of scope here and reached only through the
//! trusted declarations in this module.
//!
//! Two names stand for what the engine holds: `decoded_text`, the message
//! text its buffer would render, and `edit_offset`, its linear edit
//! position. Every contract below states only what the engine's source
//! shows of them. The engine's edit position wraps at the buffer ends
//! rather than clamping — its documented default — so the shift contracts
//! state that wrap exactly.

use vstd::prelude::*;

verus! {

/// Capacity of the engine's message buffer, in characters: exactly the
/// two sixteen-column display rows.
pub const MSG_MAX: usize = 32;

/// Reference duration of a short mark, in milliseconds, handed to the
/// engine at startup for dot/dash classification.
pub const REFERENCE_SHORT_MS: u16 = 100;

#[verifier::external_type_specification]
#[verifier::external_body]
pub struct ExMorseDecoder<const CAP: usize>(morse_codec::decoder::MorseDecoder<CAP>);

/// The message text the engine's buffer holds: its characters up to its
/// length, trailing filler discarded.
pub uninterp spec fn decoded_text(d: morse_codec::decoder::MorseDecoder<32>) -> Seq<char>;

/// The engine's linear edit position within its buffer.
pub uninterp spec fn edit_offset(d: morse_codec::decoder::MorseDecoder<32>) -> int;

/// Relies on `Decoder::new`, `Decoder::with_reference_short_ms` and
/// `Decoder::build`: a freshly built engine holds an all-filler message —
/// empty text — and its edit position at zero.
#[verifier::external_body]
pub(crate) fn new_decoder() -> (d: morse_codec::decoder::MorseDecoder<32>)
    ensures
        decoded_text(d).len() == 0,
        edit_offset(d) == 0,
{
    morse_codec::decoder::Decoder::<32>::new().with_reference_short_ms(REFERENCE_SHORT_MS).build()
}

/// Relies on `MorseDecoder::signal_event`: it feeds one duration/level
/// pair to the engine's signal buffer, possibly decoding a character into
/// the message; the message never outgrows its fixed capacity and the
/// edit position stays inside it.
#[verifier::external_body]
pub(crate) fn signal_event(d: &mut morse_codec::decoder::MorseDecoder<32>, duration_ms: u16, is_high: bool)
    ensures
        decoded_text(*final(d)).len() <= MSG_MAX,
        0 <= edit_offset(*final(d)) < MSG_MAX,
{
    d.signal_event(duration_ms, is_high);
}

/// Relies on `MorseDecoder::signal_event_end`: it finalizes the signals
/// received so far into a character; the message never outgrows its fixed
/// capacity and the edit position stays inside it.
#[verifier::external_body]
pub(crate) fn signal_event_end(d: &mut morse_codec::decoder::MorseDecoder<32>, end_word: bool)
    ensures
        decoded_text(*final(d)).len() <= MSG_MAX,
        0 <= edit_offset(*final(d)) < MSG_MAX,
{
    d.signal_event_end(end_word);
}

/// Relies on `Message::as_str`: the message text without trailing filler,
/// at most the buffer capacity long.
#[verifier::external_body]
pub(crate) fn message_text(d: &morse_codec::decoder::MorseDecoder<32>) -> (r: String)
    ensures
        r@ == decoded_text(*d),
        r@.len() <= MSG_MAX,
{
    d.message.as_str().to_owned()
}

/// Relies on `Message::is_empty`: true exactly when the buffer holds no
/// character besides filler, that is when the message text is empty.
#[verifier::external_body]
pub(crate) fn message_is_empty(d: &morse_codec::decoder::MorseDecoder<32>) -> (r: bool)
    ensures
        r <==> decoded_text(*d).len() == 0,
{
    d.message.is_empty()
}

/// Relies on `Message::get_edit_pos`: the edit position, which every
/// operation of the engine keeps inside the buffer.
#[verifier::external_body]
pub(crate) fn edit_position(d: &morse_codec::decoder::MorseDecoder<32>) -> (r: usize)
    ensures
        r == edit_offset(*d),
        r < MSG_MAX,
{
    d.message.get_edit_pos()
}

/// Relies on `Message::shift_edit_left`: the edit position moves one to
/// the left, wrapping from zero to the last buffer slot; the message text
/// is untouched.
#[verifier::external_body]
pub(crate) fn shift_edit_left(d: &mut morse_codec::decoder::MorseDecoder<32>)
    ensures
        edit_offset(*final(d)) == if edit_offset(*old(d)) == 0 {
            31int
        } else {
            edit_offset(*old(d)) - 1
        },
        decoded_text(*final(d)) == decoded_text(*old(d)),
{
    d.message.shift_edit_left();
}

/// Relies on `Message::shift_edit_right`: the edit position moves one to
/// the right, wrapping from the last buffer slot to zero; the message text
/// is untouched.
#[verifier::external_body]
pub(crate) fn shift_edit_right(d: &mut morse_codec::decoder::MorseDecoder<32>)
    ensures
        edit_offset(*final(d)) == if edit_offset(*old(d)) == 31 {
            0int
        } else {
            edit_offset(*old(d)) + 1
        },
        decoded_text(*final(d)) == decoded_text(*old(d)),
{
    d.message.shift_edit_right();
}

} // verus!
