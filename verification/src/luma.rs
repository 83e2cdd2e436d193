use vstd::prelude::*;

verus! {

/// Relative luminance of an 8-bit RGB triple, truncated to an integer:
/// `0.2126 * R + 0.7152 * G + 0.0722 * B`, the weights taken exactly in
/// ten-thousandths. The scale tops out at 254: a full-white triple, whose
/// exact weighted sum is 255, lands on the brightest representable level.
pub open spec fn luma_spec(r: u8, g: u8, b: u8) -> u8 {
    let v = (2126 * r + 7152 * g + 722 * b) / 10000;
    if v > 254 {
        254u8
    } else {
        v as u8
    }
}

/// Law: luma depends on the channel triple alone — identical triples
/// always yield identical luma values.
pub proof fn lemma_luma_deterministic(r1: u8, g1: u8, b1: u8, r2: u8, g2: u8, b2: u8)
    requires
        r1 == r2,
        g1 == g2,
        b1 == b2,
    ensures
        luma_spec(r1, g1, b1) == luma_spec(r2, g2, b2),
{
}

/// Law: every luma value lies on the 0..=254 scale.
pub proof fn lemma_luma_bound(r: u8, g: u8, b: u8)
    ensures
        0 <= luma_spec(r, g, b) <= 254,
{
    vstd::arithmetic::div_mod::lemma_div_pos_is_pos(2126 * r + 7152 * g + 722 * b, 10000);
}

/// Computes the luma of one pixel's RGB triple.
pub fn luma_value(r: u8, g: u8, b: u8) -> (l: u8)
    ensures
        l == luma_spec(r, g, b),
{
    let sum: u32 = 2126 * (r as u32) + 7152 * (g as u32) + 722 * (b as u32);
    let q: u32 = sum / 10000;
    if q > 254 {
        254
    } else {
        q as u8
    }
}

} // verus!
