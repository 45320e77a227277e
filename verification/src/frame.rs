//! Fixed-layout binary decoding of raw sensor notification payloads.
//!
//! A frame is at least 14 bytes: byte 0 is the limb-role code, byte 1 the
//! battery percentage, and bytes 2..14 hold three signed little-endian
//! 16-bit acceleration axes followed by three signed 16-bit angular-rate
//! axes. The capture timestamp is stamped by the receiver, not carried in
//! the payload.

use vstd::prelude::*;

verus! {

/// One decoded motion sample.
#[derive(Debug, Clone, Copy, PartialEq, Eq, Structural)]
pub struct ImuData {
    pub limb_id: u8,
    pub battery_level: u8,
    pub acc_x: i16,
    pub acc_y: i16,
    pub acc_z: i16,
    pub gyro_x: i16,
    pub gyro_y: i16,
    pub gyro_z: i16,
    /// Milliseconds since the epoch, stamped at decode time.
    pub timestamp: u64,
}

/// The signed 16-bit value whose little-endian bytes are `lo`, `hi`.
pub open spec fn spec_i16_from_le(lo: u8, hi: u8) -> i16 {
    let v = hi as int * 256 + lo as int;
    if v < 32768 {
        v as i16
    } else {
        (v - 65536) as i16
    }
}

/// Reassembles a signed 16-bit value from its little-endian bytes.
pub fn i16_from_le(lo: u8, hi: u8) -> (r: i16)
    ensures
        r == spec_i16_from_le(lo, hi),
{
    let v: u32 = hi as u32 * 256 + lo as u32;
    if v < 32768 {
        v as i16
    } else {
        (v as i32 - 65536) as i16
    }
}

/// The sample a payload decodes to: `None` for any payload shorter than 14
/// bytes, otherwise the fixed-layout fields, with extra bytes ignored.
pub open spec fn spec_parse_imu_data(data: Seq<u8>, timestamp: u64) -> Option<ImuData> {
    if data.len() < 14 {
        None
    } else {
        Some(
            ImuData {
                limb_id: data[0],
                battery_level: data[1],
                acc_x: spec_i16_from_le(data[2], data[3]),
                acc_y: spec_i16_from_le(data[4], data[5]),
                acc_z: spec_i16_from_le(data[6], data[7]),
                gyro_x: spec_i16_from_le(data[8], data[9]),
                gyro_y: spec_i16_from_le(data[10], data[11]),
                gyro_z: spec_i16_from_le(data[12], data[13]),
                timestamp,
            },
        )
    }
}

/// Decodes a raw notification payload into a motion sample. Payloads
/// shorter than 14 bytes are silently discarded: malformed or partial
/// frames are expected noise on a best-effort radio link.
pub fn parse_imu_data(data: &[u8], timestamp: u64) -> (r: Option<ImuData>)
    ensures
        r == spec_parse_imu_data(data@, timestamp),
        data@.len() < 14 ==> r is None,
{
    if data.len() < 14 {
        return None;
    }
    Some(
        ImuData {
            limb_id: data[0],
            battery_level: data[1],
            acc_x: i16_from_le(data[2], data[3]),
            acc_y: i16_from_le(data[4], data[5]),
            acc_z: i16_from_le(data[6], data[7]),
            gyro_x: i16_from_le(data[8], data[9]),
            gyro_y: i16_from_le(data[10], data[11]),
            gyro_z: i16_from_le(data[12], data[13]),
            timestamp,
        },
    )
}

} // verus!
