//! Bit fields of a 32-bit word: their specification, the operations that read
//! and replace them, and the facts that make fields independent of each other.
use vstd::prelude::*;

verus! {

/// A word whose `width` lowest bits are set and all others clear.
pub open spec fn low_mask(width: u32) -> u32 {
    !(0xffff_ffffu32 << width)
}

/// A word whose bits `offset .. offset + width` are set and all others clear.
pub open spec fn span_mask(offset: u32, width: u32) -> u32 {
    low_mask(width) << offset
}

/// A field of `width` bits starting at bit `offset` lies inside a 32-bit word.
pub open spec fn fits(offset: u32, width: u32) -> bool {
    1 <= width < 32 && offset < 32 && offset + width <= 32
}

/// Two fields occupy no common bit.
pub open spec fn apart(offset1: u32, width1: u32, offset2: u32, width2: u32) -> bool {
    offset1 + width1 <= offset2 || offset2 + width2 <= offset1
}

/// The value held in bits `offset .. offset + width` of `w`.
pub open spec fn get_bits(w: u32, offset: u32, width: u32) -> u32 {
    (w >> offset) & low_mask(width)
}

/// `w` with bits `offset .. offset + width` replaced by the low `width` bits
/// of `x`.
pub open spec fn put_bits(w: u32, offset: u32, width: u32, x: u32) -> u32 {
    (w & !span_mask(offset, width)) | ((x & low_mask(width)) << offset)
}

/// Reads bits `offset .. offset + width` of `w`.
pub(crate) fn read_bits(w: u32, offset: u32, width: u32) -> (r: u32)
    requires
        fits(offset, width),
    ensures
        r == get_bits(w, offset, width),
{
    (w >> offset) & !(0xffff_ffffu32 << width)
}

/// Replaces bits `offset .. offset + width` of `w` by the low bits of `x`.
pub(crate) fn write_bits(w: u32, offset: u32, width: u32, x: u32) -> (r: u32)
    requires
        fits(offset, width),
    ensures
        r == put_bits(w, offset, width, x),
{
    (w & !(!(0xffff_ffffu32 << width) << offset)) | ((x & !(0xffff_ffffu32 << width)) << offset)
}

/// A field reads back the value just written into it, when that value fits.
pub proof fn lemma_get_put_same(w: u32, offset: u32, width: u32, x: u32)
    requires
        fits(offset, width),
        x <= low_mask(width),
    ensures
        get_bits(put_bits(w, offset, width, x), offset, width) == x,
{
    assert(get_bits(put_bits(w, offset, width, x), offset, width) == x) by (bit_vector)
        requires
            1 <= width < 32 && offset < 32 && offset + width <= 32,
            x <= !(0xffff_ffffu32 << width),
    ;
}

/// Writing one field leaves every field apart from it as it was.
pub proof fn lemma_get_put_apart(
    w: u32,
    offset1: u32,
    width1: u32,
    x: u32,
    offset2: u32,
    width2: u32,
)
    requires
        fits(offset1, width1),
        fits(offset2, width2),
        apart(offset1, width1, offset2, width2),
    ensures
        get_bits(put_bits(w, offset1, width1, x), offset2, width2) == get_bits(w, offset2, width2),
{
    assert(get_bits(put_bits(w, offset1, width1, x), offset2, width2) == get_bits(
        w,
        offset2,
        width2,
    )) by (bit_vector)
        requires
            1 <= width1 < 32 && offset1 < 32 && offset1 + width1 <= 32,
            1 <= width2 < 32 && offset2 < 32 && offset2 + width2 <= 32,
            offset1 + width1 <= offset2 || offset2 + width2 <= offset1,
    ;
}

/// Writing a field changes no bit outside it.
pub proof fn lemma_put_keeps_outside(w: u32, offset: u32, width: u32, x: u32)
    requires
        fits(offset, width),
    ensures
        put_bits(w, offset, width, x) & !span_mask(offset, width) == w & !span_mask(offset, width),
{
    assert(put_bits(w, offset, width, x) & !span_mask(offset, width) == w & !span_mask(
        offset,
        width,
    )) by (bit_vector)
        requires
            1 <= width < 32 && offset < 32 && offset + width <= 32,
    ;
}

/// A field never holds more than its width allows.
pub proof fn lemma_get_bounded(w: u32, offset: u32, width: u32)
    requires
        fits(offset, width),
    ensures
        get_bits(w, offset, width) <= low_mask(width),
{
    assert(get_bits(w, offset, width) <= low_mask(width)) by (bit_vector);
}

/// Every field of the zero word is zero.
pub proof fn lemma_get_zero(offset: u32, width: u32)
    requires
        fits(offset, width),
    ensures
        get_bits(0, offset, width) == 0,
{
    assert(get_bits(0, offset, width) == 0) by (bit_vector);
}

/// The masks of the widths that fields of the configuration word have.
pub proof fn lemma_low_masks()
    ensures
        low_mask(1) == 1,
        low_mask(2) == 3,
        low_mask(4) == 15,
        low_mask(5) == 31,
{
    assert(low_mask(1) == 1) by (bit_vector);
    assert(low_mask(2) == 3) by (bit_vector);
    assert(low_mask(4) == 15) by (bit_vector);
    assert(low_mask(5) == 31) by (bit_vector);
}

} // verus!
