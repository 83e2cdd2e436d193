use vstd::prelude::*;

use vstd::arithmetic::div_mod::{lemma_div_is_ordered, lemma_div_non_zero, lemma_div_pos_is_pos};

verus! {

/// The quantized level of a luma value for a ramp of `ramp_len`
/// characters: the luma scale 0..=255 is cut into bins of width
/// `255 / ramp_len`, and the first bin is pulled down onto level 0.
pub open spec fn quantize_spec(value: u8, ramp_len: int) -> int
    recommends
        1 <= ramp_len <= 255,
{
    let bin: int = 255int / ramp_len;
    let level: int = (value as int) / bin;
    if level >= 1 {
        level - 1
    } else {
        0
    }
}

/// The ramp index a luma value selects: its quantized level, clamped to
/// the last valid index when the top bin spills past the ramp's end.
pub open spec fn ramp_index_spec(value: u8, ramp_len: int) -> int {
    let level = quantize_spec(value, ramp_len);
    if level >= ramp_len {
        ramp_len - 1
    } else {
        level
    }
}

/// Law: for a fixed ramp length the assigned level and the assigned ramp
/// index are non-decreasing in the luma value.
pub proof fn lemma_quantize_monotone(v1: u8, v2: u8, ramp_len: int)
    requires
        1 <= ramp_len <= 255,
        v1 <= v2,
    ensures
        quantize_spec(v1, ramp_len) <= quantize_spec(v2, ramp_len),
        ramp_index_spec(v1, ramp_len) <= ramp_index_spec(v2, ramp_len),
{
    let bin: int = 255int / ramp_len;
    lemma_div_non_zero(255, ramp_len);
    lemma_div_is_ordered(v1 as int, v2 as int, bin);
}

/// Law: the assigned ramp index never leaves the ramp — it lies strictly
/// below the ramp's length.
pub proof fn lemma_ramp_index_in_range(value: u8, ramp_len: int)
    requires
        1 <= ramp_len <= 255,
    ensures
        0 <= ramp_index_spec(value, ramp_len) < ramp_len,
{
    let bin: int = 255int / ramp_len;
    lemma_div_non_zero(255, ramp_len);
    lemma_div_pos_is_pos(value as int, bin);
}

} // verus!
