//! Decoding of the two-byte frame that the MAX6675 shifts out.
use vstd::prelude::*;

use crate::Max6675Error;

verus! {

/// Millidegrees Celsius per step of the 13-bit magnitude field (0.25 °C).
pub const MILLI_PER_STEP: i64 = 250;

/// The frame read as a big-endian 16-bit word.
pub open spec fn frame_word(frame: [u8; 2]) -> u16 {
    (frame@[0] as int * 256 + frame@[1] as int) as u16
}

/// Bit D2: set when the thermocouple input is open.
pub open spec fn open_circuit(raw: u16) -> bool {
    raw & 0x04 != 0
}

/// Bits D3..D15: the temperature in quarter degrees Celsius.
pub open spec fn quarter_degrees(raw: u16) -> u16 {
    (raw >> 3) & 0x1FFF
}

/// What a raw word decodes to: an open-circuit fault, or the temperature in
/// millidegrees Celsius.
pub open spec fn word_reading(raw: u16) -> Result<i64, Max6675Error> {
    if open_circuit(raw) {
        Err(Max6675Error::OpenCircuitError)
    } else {
        Ok((quarter_degrees(raw) * MILLI_PER_STEP) as i64)
    }
}

/// What a frame decodes to.
pub open spec fn frame_reading(frame: [u8; 2]) -> Result<i64, Max6675Error> {
    word_reading(frame_word(frame))
}

/// Reads a frame as a big-endian 16-bit word.
pub fn word_of_frame(frame: [u8; 2]) -> (r: u16)
    ensures
        r == frame_word(frame),
{
    let hi: u16 = frame[0] as u16;
    let lo: u16 = frame[1] as u16;
    hi * 256 + lo
}

/// Decodes a raw word: a fault when bit D2 is set, whatever the other bits
/// hold; else the magnitude field times 0.25 °C.
pub fn decode_word(raw: u16) -> (r: Result<i64, Max6675Error>)
    ensures
        r == word_reading(raw),
        open_circuit(raw) <==> r is Err,
{
    if raw & 0x04 != 0 {
        return Err(Max6675Error::OpenCircuitError);
    }
    let steps: u16 = (raw >> 3) & 0x1FFF;
    assert(((raw >> 3) & 0x1FFF) <= 0x1FFF) by (bit_vector);
    Ok(steps as i64 * MILLI_PER_STEP)
}

/// Decodes a frame as read from the bus.
pub fn decode_frame(frame: [u8; 2]) -> (r: Result<i64, Max6675Error>)
    ensures
        r == frame_reading(frame),
{
    decode_word(word_of_frame(frame))
}

} // verus!
