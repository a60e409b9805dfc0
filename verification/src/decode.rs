//! What the bytes read back from the two chips mean.

use vstd::prelude::*;

verus! {

/// Bit of the trigger register that reports a finished capture.
pub const CAP_DONE_MASK: u8 = 0x08;

/// Value written to the scratch register by the connectivity test.
pub const TEST_PATTERN: u8 = 0x52;

/// The number of bytes waiting in the FIFO, from the three length registers:
/// the low seven bits of `high`, then `mid`, then `low`, as one 23-bit number.
pub open spec fn spec_fifo_length(low: u8, mid: u8, high: u8) -> int {
    (high % 128) * 65536 + mid * 256 + low
}

/// A capture is finished exactly when bit 3 of the trigger register is set.
pub open spec fn spec_capture_done(trig: u8) -> bool {
    (trig / 8) % 2 == 1
}

/// The connectivity verdict. The identity (0x26, 0x42) is accepted by
/// itself; the identity (0x26, 0x41) only together with a scratch register
/// that read back the test pattern.
pub open spec fn spec_connected(readback: u8, id_high: u8, id_low: u8) -> bool {
    (readback == 0x52 && id_high == 0x26 && id_low == 0x41) || (id_high == 0x26 && id_low == 0x42)
}

/// Decodes the three FIFO length registers.
pub fn fifo_length(low: u8, mid: u8, high: u8) -> (len: u32)
    ensures
        len == spec_fifo_length(low, mid, high),
        len <= 0x7F_FFFF,
        len == ((((high & 0x7F) as u32) << 16 | (mid as u32) << 8 | (low as u32)) & 0x7F_FFFF),
{
    let l: u32 = low as u32;
    let m: u32 = mid as u32;
    let h: u32 = (high & 0x7F) as u32;
    let len: u32 = (h << 16 | m << 8 | l) & 0x7F_FFFF;
    assert(((((high & 0x7F) as u32) << 16 | (mid as u32) << 8 | (low as u32)) & 0x7F_FFFF)
        == ((high % 128) as u32) * 65536 + (mid as u32) * 256 + (low as u32)) by (bit_vector);
    assert(((high % 128) as u32) * 65536 + (mid as u32) * 256 + (low as u32) <= 0x7F_FFFF)
        by (bit_vector);
    len
}

/// Tells from the trigger register whether the capture is finished.
pub fn capture_done(trig: u8) -> (done: bool)
    ensures
        done == spec_capture_done(trig),
        done == (trig & 0x08 != 0),
{
    assert((trig & 0x08 != 0) == ((trig / 8) % 2 == 1)) by (bit_vector);
    trig & CAP_DONE_MASK != 0
}

/// Tells from the scratch register's readback and the sensor's identity
/// whether the camera answers.
pub fn connected(readback: u8, chipid: [u8; 2]) -> (ok: bool)
    ensures
        ok == spec_connected(readback, chipid[0], chipid[1]),
{
    let high: u8 = chipid[0];
    let low: u8 = chipid[1];
    (TEST_PATTERN == readback && high == 0x26 && low == 0x41) || (high == 0x26 && low == 0x42)
}

} // verus!
