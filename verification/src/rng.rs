//! The source of random bytes.
use vstd::prelude::*;

verus! {

/// Draws a number from macroquad's process-wide generator by
/// `macroquad::rand::gen_range`.  That function scales a 32-bit draw into
/// the interval from `low` up to, but not including, `high`; nothing more
/// is claimed of the number than that it lies there.
#[verifier::external_body]
fn gen_range_u16(low: u16, high: u16) -> (r: u16)
    requires
        low < high,
    ensures
        low <= r < high,
{
    macroquad::rand::gen_range(low, high)
}

/// A random byte: any of the 256 values may come out.
pub(crate) fn random_byte() -> u8 {
    let drawn: u16 = gen_range_u16(0, 256);
    drawn as u8
}

} // verus!
