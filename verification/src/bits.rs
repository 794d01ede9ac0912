use vstd::prelude::*;

verus! {

/// A mask of the `len` lowest bits.
pub open spec fn low_mask(len: u32) -> u32 {
    !(0xFFFF_FFFFu32 << len)
}

/// The `len`-bit field of `value` that starts at bit `lo`.
pub open spec fn bits(value: u32, lo: u32, len: u32) -> u32 {
    (value >> lo) & low_mask(len)
}

/// Whether bit `n` of `value` is set.
pub open spec fn bit(value: u32, n: u32) -> bool {
    (value >> n) & 1u32 == 1u32
}

/// `value` with its `len`-bit field at `lo` replaced by the low bits of `field`.
pub open spec fn with_bits(value: u32, lo: u32, len: u32, field: u32) -> u32 {
    (value & !(low_mask(len) << lo)) | ((field & low_mask(len)) << lo)
}

/// Extracts the `len`-bit field of `value` that starts at bit `lo`.
pub fn get_bits(value: u32, lo: u32, len: u32) -> (r: u32)
    requires
        lo < 32,
        0 < len < 32,
    ensures
        r == bits(value, lo, len),
        r <= low_mask(len),
        len <= 1 ==> r < 2,
        len <= 2 ==> r < 4,
        len <= 3 ==> r < 8,
        len <= 4 ==> r < 16,
        len <= 5 ==> r < 32,
        len <= 6 ==> r < 64,
        len <= 7 ==> r < 128,
        len <= 8 ==> r < 256,
        len <= 9 ==> r < 512,
        len <= 10 ==> r < 1024,
        len <= 11 ==> r < 2048,
        len <= 12 ==> r < 4096,
        len <= 16 ==> r < 65536,
        len == 1 ==> (r == 1 <==> bit(value, lo)),
{
    let r = (value >> lo) & !(0xFFFF_FFFFu32 << len);
    assert(r <= low_mask(len) && (len <= 1 ==> r < 2) && (len <= 2 ==> r < 4) && (len <= 3 ==> r < 8)
        && (len <= 4 ==> r < 16) && (len <= 5 ==> r < 32) && (len <= 6 ==> r < 64) && (len <= 7 ==> r < 128)
        && (len <= 8 ==> r < 256) && (len <= 9 ==> r < 512) && (len <= 10 ==> r < 1024)
        && (len <= 11 ==> r < 2048) && (len <= 12 ==> r < 4096) && (len <= 16 ==> r < 65536)
        && (len == 1 ==> (r == 1 <==> (value >> lo) & 1u32 == 1u32))) by (bit_vector)
        requires
            r == (value >> lo) & !(0xFFFF_FFFFu32 << len),
            0 < len < 32,
    ;
    r
}

/// Whether bit `n` of `value` is set.
pub fn get_bit(value: u32, n: u32) -> (b: bool)
    requires
        n < 32,
    ensures
        b == bit(value, n),
{
    (value >> n) & 1 == 1
}

/// Replaces the `len`-bit field of `value` at `lo` by the low bits of `field`.
pub fn set_bits(value: u32, lo: u32, len: u32, field: u32) -> (r: u32)
    requires
        lo < 32,
        0 < len < 32,
        lo + len <= 32,
    ensures
        r == with_bits(value, lo, len, field),
        value < 65536 && lo + len <= 16 ==> r < 65536,
        value < 256 && lo + len <= 8 ==> r < 256,
{
    let r = (value & !(!(0xFFFF_FFFFu32 << len) << lo)) | ((field & !(0xFFFF_FFFFu32 << len)) << lo);
    assert((value < 65536 && lo + len <= 16 ==> r < 65536) && (value < 256 && lo + len <= 8 ==> r < 256))
        by (bit_vector)
        requires
            r == (value & !(!(0xFFFF_FFFFu32 << len) << lo)) | ((field & !(0xFFFF_FFFFu32 << len)) << lo),
            lo < 32,
            0 < len < 32,
            lo + len <= 32,
    ;
    r
}

/// Reading a field just written gives back the low bits of what was written.
pub proof fn lemma_bits_of_with_bits(value: u32, lo: u32, len: u32, field: u32)
    requires
        lo < 32,
        0 < len < 32,
        lo + len <= 32,
    ensures
        bits(with_bits(value, lo, len, field), lo, len) == field & low_mask(len),
{
    assert(((((value & !(!(0xFFFF_FFFFu32 << len) << lo)) | ((field & !(0xFFFF_FFFFu32 << len)) << lo))
        >> lo) & !(0xFFFF_FFFFu32 << len)) == field & !(0xFFFF_FFFFu32 << len)) by (bit_vector)
        requires
            lo < 32,
            0 < len < 32,
            lo + len <= 32,
    ;
}

/// Writing one field leaves every field that does not overlap it unchanged.
pub proof fn lemma_bits_of_with_other_bits(
    value: u32,
    lo: u32,
    len: u32,
    field: u32,
    lo2: u32,
    len2: u32,
)
    requires
        lo < 32,
        0 < len < 32,
        lo + len <= 32,
        lo2 < 32,
        0 < len2 < 32,
        lo2 + len2 <= 32,
        lo2 + len2 <= lo || lo + len <= lo2,
    ensures
        bits(with_bits(value, lo, len, field), lo2, len2) == bits(value, lo2, len2),
{
    assert(((((value & !(!(0xFFFF_FFFFu32 << len) << lo)) | ((field & !(0xFFFF_FFFFu32 << len)) << lo))
        >> lo2) & !(0xFFFF_FFFFu32 << len2)) == (value >> lo2) & !(0xFFFF_FFFFu32 << len2))
        by (bit_vector)
        requires
            lo < 32,
            0 < len < 32,
            lo + len <= 32,
            lo2 < 32,
            0 < len2 < 32,
            lo2 + len2 <= 32,
            lo2 + len2 <= lo || lo + len <= lo2,
    ;
}

/// Whether `field` fits in `len` bits, for field widths of at most 16 bits.
pub open spec fn fits(field: u32, len: u32) -> bool {
    (len == 1 && field < 2) || (len == 2 && field < 4) || (len == 3 && field < 8) || (len == 4 && field < 16) || (len == 5 && field < 32) || (len == 6 && field < 64) || (len == 7 && field < 128) || (len == 8 && field < 256) || (len == 9 && field < 512) || (len == 10 && field < 1024) || (len == 11 && field < 2048) || (len == 12 && field < 4096) || (len == 13 && field < 8192) || (len == 14 && field < 16384) || (len == 15 && field < 32768) || (len == 16 && field < 65536)
}

/// A value that fits in a field is left unchanged by the field's mask.
pub proof fn lemma_fits_mask(field: u32, len: u32)
    requires
        fits(field, len),
    ensures
        field & low_mask(len) == field,
{
    assert(field & !(0xFFFF_FFFFu32 << len) == field) by (bit_vector)
        requires
            (len == 1 && field < 2) || (len == 2 && field < 4) || (len == 3 && field < 8) || (len == 4 && field < 16) || (len == 5 && field < 32) || (len == 6 && field < 64) || (len == 7 && field < 128) || (len == 8 && field < 256) || (len == 9 && field < 512) || (len == 10 && field < 1024) || (len == 11 && field < 2048) || (len == 12 && field < 4096) || (len == 13 && field < 8192) || (len == 14 && field < 16384) || (len == 15 && field < 32768) || (len == 16 && field < 65536),
    ;
}

} // verus!
