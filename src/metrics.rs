//! Metrics derived from a reading, and the snapshot that is published.

use vstd::prelude::*;
use crate::decoder::{decode, parse_service_data, SensorReading, PAYLOAD_LEN};

verus! {

/// Scale of `discomfort_index`: the index is carried in units of 1/100000,
/// which makes the formula exact for temperatures given in tenths of a degree.
pub const DISCOMFORT_INDEX_SCALE: i64 = 100000;

/// The discomfort index `0.81*T + 0.01*RH*(0.99*T - 14.3) + 46.3`, times
/// 100000, with `T = t / 10` degrees Celsius and `RH = rh` percent.
pub open spec fn discomfort_index_e5(t: int, rh: int) -> int {
    8100 * t + rh * (99 * t - 14300) + 4630000
}

/// The discomfort index for a temperature in tenths of a degree and a
/// relative humidity in percent, exactly, in units of 1/100000.
pub fn calculate_discomfort_index(temperature_tenths: i32, relative_humidity: u8) -> (r: i64)
    ensures
        r as int == discomfort_index_e5(temperature_tenths as int, relative_humidity as int),
{
    let t: i64 = temperature_tenths as i64;
    let rh: i64 = relative_humidity as i64;
    assert(-2147483648 <= t <= 2147483647);
    assert(0 <= rh <= 255);
    assert(-212600000000000 <= 99 * t <= 212600000000000) by (nonlinear_arith)
        requires
            -2147483648 <= t <= 2147483647,
    ;
    let spread: i64 = 99 * t - 14300;
    assert(-60000000000000000 <= rh * spread <= 60000000000000000) by (nonlinear_arith)
        requires
            0 <= rh <= 255,
            -212600000014300 <= spread <= 212600000000000,
    ;
    8100 * t + rh * spread + 4630000
}

/// One decoded frame together with what is derived from it: the unit that
/// is published as a whole.
#[derive(Clone, Copy, Debug, PartialEq, Eq, Structural)]
pub struct Snapshot {
    pub reading: SensorReading,
    /// Discomfort index in units of 1/100000.
    pub discomfort_index: i64,
}

/// The snapshot that a 6-byte frame stands for.
pub open spec fn snapshot_of(p: Seq<u8>) -> Snapshot {
    let r = decode(p);
    Snapshot {
        reading: r,
        discomfort_index: discomfort_index_e5(
            r.temperature_tenths as int,
            r.humidity as int,
        ) as i64,
    }
}

/// Decodes a frame and derives its metrics.
pub fn measure(data: &[u8]) -> (r: Snapshot)
    requires
        data@.len() == PAYLOAD_LEN,
    ensures
        r == snapshot_of(data@),
        r.reading == decode(data@),
        r.discomfort_index as int == discomfort_index_e5(
            r.reading.temperature_tenths as int,
            r.reading.humidity as int,
        ),
{
    let reading = parse_service_data(data);
    let discomfort_index = calculate_discomfort_index(reading.temperature_tenths, reading.humidity);
    Snapshot { reading, discomfort_index }
}

} // verus!
