//! The sensor's 6-byte service-data frame and its decoding.

use vstd::prelude::*;

verus! {

/// Length in bytes of a well-formed service-data frame.
pub const PAYLOAD_LEN: usize = 6;

/// One decoded frame. The temperature is kept in tenths of a degree
/// Celsius, the unit in which the sensor reports it, so no precision is lost.
#[derive(Clone, Copy, Debug, PartialEq, Eq, Structural)]
pub struct SensorReading {
    /// Battery level in percent, 0 to 127 (not clamped to 100).
    pub battery: u8,
    /// Temperature in tenths of a degree Celsius.
    pub temperature_tenths: i32,
    /// Relative humidity in percent, 0 to 127 (not clamped to 100).
    pub humidity: u8,
}

/// Battery: the low 7 bits of byte 2.
pub open spec fn battery_of(p: Seq<u8>) -> u8 {
    p[2] & 0x7f
}

/// Whether bit 7 of byte 4 is set: the temperature is zero or above.
pub open spec fn above_freezing(p: Seq<u8>) -> bool {
    p[4] & 0x80 != 0
}

/// Magnitude of the temperature in tenths: whole degrees from the low 7 bits
/// of byte 4, tenths from the low nibble of byte 3.
pub open spec fn temperature_magnitude_of(p: Seq<u8>) -> int {
    10 * (p[4] & 0x7f) + (p[3] & 0x0f)
}

/// Signed temperature in tenths of a degree.
pub open spec fn temperature_tenths_of(p: Seq<u8>) -> int {
    if above_freezing(p) {
        temperature_magnitude_of(p)
    } else {
        -temperature_magnitude_of(p)
    }
}

/// Humidity: the low 7 bits of byte 5.
pub open spec fn humidity_of(p: Seq<u8>) -> u8 {
    p[5] & 0x7f
}

/// The reading that a 6-byte frame stands for.
pub open spec fn decode(p: Seq<u8>) -> SensorReading {
    SensorReading {
        battery: battery_of(p),
        temperature_tenths: temperature_tenths_of(p) as i32,
        humidity: humidity_of(p),
    }
}

/// Masking a byte with 0x0f leaves at most 15, with 0x7f at most 127.
pub proof fn lemma_low_bits_bounded(b: u8)
    ensures
        b & 0x0f <= 15,
        b & 0x7f <= 127,
{
    assert(b & 0x0f <= 15) by (bit_vector);
    assert(b & 0x7f <= 127) by (bit_vector);
}

/// Decodes a frame of exactly `PAYLOAD_LEN` bytes. Frames of any other length
/// are discarded by the caller before this point.
pub fn parse_service_data(data: &[u8]) -> (r: SensorReading)
    requires
        data@.len() == PAYLOAD_LEN,
    ensures
        r == decode(data@),
        r.temperature_tenths as int == temperature_tenths_of(data@),
{
    let battery: u8 = data[2] & 0x7f;
    let fraction: u8 = data[3] & 0x0f;
    let whole: u8 = data[4] & 0x7f;
    let above: bool = data[4] & 0x80 != 0;
    proof {
        lemma_low_bits_bounded(data[3]);
        lemma_low_bits_bounded(data[4]);
    }
    let magnitude: i32 = 10 * (whole as i32) + (fraction as i32);
    let temperature_tenths: i32 = if above {
        magnitude
    } else {
        -magnitude
    };
    let humidity: u8 = data[5] & 0x7f;
    SensorReading { battery, temperature_tenths, humidity }
}

/// Decoding is a function of the bytes alone: equal frames decode to equal
/// readings, and every frame of the right length decodes.
pub proof fn lemma_decode_deterministic(p: Seq<u8>, q: Seq<u8>)
    requires
        p.len() == PAYLOAD_LEN,
        p =~= q,
    ensures
        decode(p) == decode(q),
{
}

/// Battery and humidity are the low 7 bits of bytes 2 and 5: each lies in
/// 0..=127 and depends on nothing else in the frame, so the high bit of those
/// bytes and the bits of every other byte never reach them.
pub proof fn lemma_fields_isolated(p: Seq<u8>, q: Seq<u8>)
    requires
        p.len() == PAYLOAD_LEN,
        q.len() == PAYLOAD_LEN,
    ensures
        decode(p).battery <= 127,
        decode(p).humidity <= 127,
        p[2] & 0x7f == q[2] & 0x7f ==> decode(p).battery == decode(q).battery,
        p[5] & 0x7f == q[5] & 0x7f ==> decode(p).humidity == decode(q).humidity,
        decode(p).battery == p[2] % 128,
        decode(p).humidity == p[5] % 128,
{
    lemma_low_bits_bounded(p[2]);
    lemma_low_bits_bounded(p[5]);
    let b2 = p[2];
    let b5 = p[5];
    assert(b2 & 0x7f == b2 % 128) by (bit_vector);
    assert(b5 & 0x7f == b5 % 128) by (bit_vector);
}

/// With bit 7 of byte 4 set the temperature is zero or above; with it clear
/// the temperature is zero or below. A magnitude of zero gives 0 either way.
pub proof fn lemma_temperature_sign(p: Seq<u8>)
    requires
        p.len() == PAYLOAD_LEN,
    ensures
        above_freezing(p) ==> decode(p).temperature_tenths >= 0,
        !above_freezing(p) ==> decode(p).temperature_tenths <= 0,
        temperature_magnitude_of(p) == 0 ==> decode(p).temperature_tenths == 0,
{
    lemma_low_bits_bounded(p[3]);
    lemma_low_bits_bounded(p[4]);
}

} // verus!
