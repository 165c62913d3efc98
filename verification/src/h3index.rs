use vstd::prelude::*;
use crate::coordijk::{Direction, digit_val, direction_value, direction_from_value};
use crate::h3api::H3Error;
use crate::coordijk::CoordIJK;
use crate::faceijk::FaceIJK;

verus! {

/// Maximum grid resolution.
pub const MAX_H3_RES: i8 = 15;

/// Mode value tagging a cell index.
pub const H3_CELL_MODE: i8 = 1;

/// The null (sentinel) index.
pub const H3_NULL: u64 = 0;

// The bit offset of the max resolution digit in an H3 index.
const H3_MAX_OFFSET: u64 = 63;

// The bit offset of the mode in an H3 index.
const H3_MODE_OFFSET: u64 = 59;

// The bit offset of the base cell in an H3 index.
const H3_BC_OFFSET: u64 = 45;

// The bit offset of the resolution in an H3 index.
const H3_RES_OFFSET: u64 = 52;

// The bit offset of the reserved bits in an H3 index.
const H3_RESERVED_OFFSET: u64 = 56;

// The number of bits in a single H3 resolution digit.
const H3_PER_DIGIT_OFFSET: u64 = 3;

// 1 in the highest bit, 0's everywhere else.
const H3_HIGH_BIT_MASK: u64 = 1u64 << 63;

// 1's in the 4 mode bits, 0's everywhere else.
const H3_MODE_MASK: u64 = 15u64 << 59;

// 1's in the 7 base cell bits, 0's everywhere else.
const H3_BC_MASK: u64 = 127u64 << 45;

// 1's in the 4 resolution bits, 0's everywhere else.
const H3_RES_MASK: u64 = 15u64 << 52;

// 1's in the 3 reserved bits, 0's everywhere else.
const H3_RESERVED_MASK: u64 = 7u64 << 56;

// 1's in the 3 bits of the res 15 digit, 0's everywhere else.
const H3_DIGIT_MASK: u64 = 7u64;

/// H3 index with mode 0, res 0, base cell 0, and 7 for all index digits.
/// Used to initialize the creation of a cell index, which expects all
/// direction digits to be 7 beyond the cell's resolution.
pub const H3_INIT: u64 = 35184372088831u64;

/// The reserved high bit (bit 63) of an index.
pub open spec fn get_high_bit_s(h: u64) -> u64 {
    h >> 63
}

/// The 4-bit mode field (bits 62..59) of an index.
pub open spec fn get_mode_s(h: u64) -> u64 {
    (h >> 59) & 15
}

/// The 3-bit reserved field (bits 58..56) of an index.
pub open spec fn get_reserved_s(h: u64) -> u64 {
    (h >> 56) & 7
}

/// The 4-bit resolution field (bits 55..52) of an index.
pub open spec fn get_res_s(h: u64) -> u64 {
    (h >> 52) & 15
}

/// The 7-bit base cell field (bits 51..45) of an index.
pub open spec fn get_bc_s(h: u64) -> u64 {
    (h >> 45) & 127
}

/// The 3-bit digit of resolution r (1..=15); the resolution-r digit sits at
/// bit offset (15 - r) * 3.
pub open spec fn get_digit_s(h: u64, r: int) -> u64 {
    (h >> ((3 * (15 - r)) as u64)) & 7
}

/// An index is fully determined by its high bit, mode, reserved bits,
/// resolution, base cell and fifteen digits: those fields cover all 64 bits.
proof fn lemma_fields_determine_bv(a: u64, b: u64)
    by (bit_vector)
    requires
        a >> 63 == b >> 63,
        (a >> 59) & 15 == (b >> 59) & 15,
        (a >> 56) & 7 == (b >> 56) & 7,
        (a >> 52) & 15 == (b >> 52) & 15,
        (a >> 45) & 127 == (b >> 45) & 127,
        (a >> 42) & 7 == (b >> 42) & 7,
        (a >> 39) & 7 == (b >> 39) & 7,
        (a >> 36) & 7 == (b >> 36) & 7,
        (a >> 33) & 7 == (b >> 33) & 7,
        (a >> 30) & 7 == (b >> 30) & 7,
        (a >> 27) & 7 == (b >> 27) & 7,
        (a >> 24) & 7 == (b >> 24) & 7,
        (a >> 21) & 7 == (b >> 21) & 7,
        (a >> 18) & 7 == (b >> 18) & 7,
        (a >> 15) & 7 == (b >> 15) & 7,
        (a >> 12) & 7 == (b >> 12) & 7,
        (a >> 9) & 7 == (b >> 9) & 7,
        (a >> 6) & 7 == (b >> 6) & 7,
        (a >> 3) & 7 == (b >> 3) & 7,
        (a >> 0) & 7 == (b >> 0) & 7,
    ensures
        a == b,
{
}

/// Two indexes that agree on every field of the bit layout are equal.
pub proof fn lemma_index_ext(a: u64, b: u64)
    requires
        get_high_bit_s(a) == get_high_bit_s(b),
        get_mode_s(a) == get_mode_s(b),
        get_reserved_s(a) == get_reserved_s(b),
        get_res_s(a) == get_res_s(b),
        get_bc_s(a) == get_bc_s(b),
        forall|d: int| 1 <= d <= 15 ==> #[trigger] get_digit_s(a, d) == get_digit_s(b, d),
    ensures
        a == b,
{
    assert(get_digit_s(a, 1) == get_digit_s(b, 1));
    assert(get_digit_s(a, 2) == get_digit_s(b, 2));
    assert(get_digit_s(a, 3) == get_digit_s(b, 3));
    assert(get_digit_s(a, 4) == get_digit_s(b, 4));
    assert(get_digit_s(a, 5) == get_digit_s(b, 5));
    assert(get_digit_s(a, 6) == get_digit_s(b, 6));
    assert(get_digit_s(a, 7) == get_digit_s(b, 7));
    assert(get_digit_s(a, 8) == get_digit_s(b, 8));
    assert(get_digit_s(a, 9) == get_digit_s(b, 9));
    assert(get_digit_s(a, 10) == get_digit_s(b, 10));
    assert(get_digit_s(a, 11) == get_digit_s(b, 11));
    assert(get_digit_s(a, 12) == get_digit_s(b, 12));
    assert(get_digit_s(a, 13) == get_digit_s(b, 13));
    assert(get_digit_s(a, 14) == get_digit_s(b, 14));
    assert(get_digit_s(a, 15) == get_digit_s(b, 15));
    lemma_fields_determine_bv(a, b);
}

/// Gets the highest bit of the H3 index.
pub fn H3_GET_HIGH_BIT(h3: u64) -> (r: i8)
    ensures
        r as int == get_high_bit_s(h3) as int,
        0 <= r <= 1,
{
    proof {
        assert((h3 & (1u64 << 63)) >> 63 == h3 >> 63 && h3 >> 63 <= 1) by (bit_vector);
    }
    ((h3 & H3_HIGH_BIT_MASK) >> 63) as i8
}

/// Sets the highest bit of the index to v.
pub fn H3_SET_HIGH_BIT(h3: u64, v: i8) -> (r: u64)
    requires
        0 <= v <= 1,
    ensures
        get_high_bit_s(r) == v as u64,
        get_mode_s(r) == get_mode_s(h3),
        get_reserved_s(r) == get_reserved_s(h3),
        get_res_s(r) == get_res_s(h3),
        get_bc_s(r) == get_bc_s(h3),
        forall|d: int| 1 <= d <= 15 ==> #[trigger] get_digit_s(r, d) == get_digit_s(h3, d),
{
    let res = (h3 & !H3_HIGH_BIT_MASK) | ((v as u64) << 63);
    proof {
        let w = v as u64;
        assert forall|d: int| 1 <= d <= 15 implies #[trigger] get_digit_s(res, d) == get_digit_s(
            h3,
            d,
        ) by {
            let du = d as u64;
            lemma_set_high_bv(h3, w, du);
        }
        lemma_set_high_bv(h3, w, 1);
    }
    res
}

proof fn lemma_set_high_bv(h: u64, v: u64, d: u64)
    by (bit_vector)
    requires
        v <= 1,
        1 <= d <= 15,
    ensures
        ({
            let s = (h & !(1u64 << 63)) | (v << 63);
            &&& s >> 63 == v
            &&& (s >> 59) & 15 == (h >> 59) & 15
            &&& (s >> 56) & 7 == (h >> 56) & 7
            &&& (s >> 52) & 15 == (h >> 52) & 15
            &&& (s >> 45) & 127 == (h >> 45) & 127
            &&& (s >> ((3 * (15 - d)) as u64)) & 7 == (h >> ((3 * (15 - d)) as u64)) & 7
        }),
{
}

/// Gets the integer mode of the index.
pub fn H3_GET_MODE(h3: u64) -> (r: i8)
    ensures
        r as int == get_mode_s(h3) as int,
        0 <= r <= 15,
{
    proof {
        assert((h3 & (15u64 << 59)) >> 59 == (h3 >> 59) & 15 && (h3 >> 59) & 15 <= 15)
            by (bit_vector);
    }
    ((h3 & H3_MODE_MASK) >> 59) as i8
}

proof fn lemma_set_mode_bv(h: u64, v: u64, d: u64)
    by (bit_vector)
    requires
        v <= 15,
        1 <= d <= 15,
    ensures
        ({
            let s = (h & !(15u64 << 59)) | (v << 59);
            &&& s >> 63 == h >> 63
            &&& (s >> 59) & 15 == v
            &&& (s >> 56) & 7 == (h >> 56) & 7
            &&& (s >> 52) & 15 == (h >> 52) & 15
            &&& (s >> 45) & 127 == (h >> 45) & 127
            &&& (s >> ((3 * (15 - d)) as u64)) & 7 == (h >> ((3 * (15 - d)) as u64)) & 7
        }),
{
}

/// Sets the integer mode of the index to v.
pub fn H3_SET_MODE(h3: u64, v: i8) -> (r: u64)
    requires
        0 <= v <= 15,
    ensures
        get_mode_s(r) == v as u64,
        get_high_bit_s(r) == get_high_bit_s(h3),
        get_reserved_s(r) == get_reserved_s(h3),
        get_res_s(r) == get_res_s(h3),
        get_bc_s(r) == get_bc_s(h3),
        forall|d: int| 1 <= d <= 15 ==> #[trigger] get_digit_s(r, d) == get_digit_s(h3, d),
{
    let res = (h3 & !H3_MODE_MASK) | ((v as u64) << 59);
    proof {
        let w = v as u64;
        assert forall|d: int| 1 <= d <= 15 implies #[trigger] get_digit_s(res, d) == get_digit_s(
            h3,
            d,
        ) by {
            lemma_set_mode_bv(h3, w, d as u64);
        }
        lemma_set_mode_bv(h3, w, 1);
    }
    res
}

/// Gets the integer base cell of the index.
pub fn H3_GET_BASE_CELL(h3: u64) -> (r: i8)
    ensures
        r as int == get_bc_s(h3) as int,
        0 <= r <= 127,
{
    proof {
        assert((h3 & (127u64 << 45)) >> 45 == (h3 >> 45) & 127 && (h3 >> 45) & 127 <= 127)
            by (bit_vector);
    }
    ((h3 & H3_BC_MASK) >> 45) as i8
}

proof fn lemma_set_bc_bv(h: u64, v: u64, d: u64)
    by (bit_vector)
    requires
        v <= 127,
        1 <= d <= 15,
    ensures
        ({
            let s = (h & !(127u64 << 45)) | (v << 45);
            &&& s >> 63 == h >> 63
            &&& (s >> 59) & 15 == (h >> 59) & 15
            &&& (s >> 56) & 7 == (h >> 56) & 7
            &&& (s >> 52) & 15 == (h >> 52) & 15
            &&& (s >> 45) & 127 == v
            &&& (s >> ((3 * (15 - d)) as u64)) & 7 == (h >> ((3 * (15 - d)) as u64)) & 7
        }),
{
}

/// Sets the integer base cell of the index to bc.
pub fn H3_SET_BASE_CELL(h3: u64, bc: i8) -> (r: u64)
    requires
        0 <= bc <= 127,
    ensures
        get_bc_s(r) == bc as u64,
        get_high_bit_s(r) == get_high_bit_s(h3),
        get_mode_s(r) == get_mode_s(h3),
        get_reserved_s(r) == get_reserved_s(h3),
        get_res_s(r) == get_res_s(h3),
        forall|d: int| 1 <= d <= 15 ==> #[trigger] get_digit_s(r, d) == get_digit_s(h3, d),
{
    let res = (h3 & !H3_BC_MASK) | ((bc as u64) << 45);
    proof {
        let w = bc as u64;
        assert forall|d: int| 1 <= d <= 15 implies #[trigger] get_digit_s(res, d) == get_digit_s(
            h3,
            d,
        ) by {
            lemma_set_bc_bv(h3, w, d as u64);
        }
        lemma_set_bc_bv(h3, w, 1);
    }
    res
}

/// Gets the integer resolution of the index.
pub fn H3_GET_RESOLUTION(h3: u64) -> (r: i8)
    ensures
        r as int == get_res_s(h3) as int,
        0 <= r <= 15,
{
    proof {
        assert((h3 & (15u64 << 52)) >> 52 == (h3 >> 52) & 15 && (h3 >> 52) & 15 <= 15)
            by (bit_vector);
    }
    ((h3 & H3_RES_MASK) >> 52) as i8
}

proof fn lemma_set_res_bv(h: u64, v: u64, d: u64)
    by (bit_vector)
    requires
        v <= 15,
        1 <= d <= 15,
    ensures
        ({
            let s = (h & !(15u64 << 52)) | (v << 52);
            &&& s >> 63 == h >> 63
            &&& (s >> 59) & 15 == (h >> 59) & 15
            &&& (s >> 56) & 7 == (h >> 56) & 7
            &&& (s >> 52) & 15 == v
            &&& (s >> 45) & 127 == (h >> 45) & 127
            &&& (s >> ((3 * (15 - d)) as u64)) & 7 == (h >> ((3 * (15 - d)) as u64)) & 7
        }),
{
}

/// Sets the integer resolution of the index.
pub fn H3_SET_RESOLUTION(h3: u64, res: i8) -> (r: u64)
    requires
        0 <= res <= 15,
    ensures
        get_res_s(r) == res as u64,
        get_high_bit_s(r) == get_high_bit_s(h3),
        get_mode_s(r) == get_mode_s(h3),
        get_reserved_s(r) == get_reserved_s(h3),
        get_bc_s(r) == get_bc_s(h3),
        forall|d: int| 1 <= d <= 15 ==> #[trigger] get_digit_s(r, d) == get_digit_s(h3, d),
{
    let out = (h3 & !H3_RES_MASK) | ((res as u64) << 52);
    proof {
        let w = res as u64;
        assert forall|d: int| 1 <= d <= 15 implies #[trigger] get_digit_s(out, d) == get_digit_s(
            h3,
            d,
        ) by {
            lemma_set_res_bv(h3, w, d as u64);
        }
        lemma_set_res_bv(h3, w, 1);
    }
    out
}

proof fn lemma_set_reserved_bv(h: u64, v: u64, d: u64)
    by (bit_vector)
    requires
        v <= 7,
        1 <= d <= 15,
    ensures
        ({
            let s = (h & !(7u64 << 56)) | (v << 56);
            &&& s >> 63 == h >> 63
            &&& (s >> 59) & 15 == (h >> 59) & 15
            &&& (s >> 56) & 7 == v
            &&& (s >> 52) & 15 == (h >> 52) & 15
            &&& (s >> 45) & 127 == (h >> 45) & 127
            &&& (s >> ((3 * (15 - d)) as u64)) & 7 == (h >> ((3 * (15 - d)) as u64)) & 7
        }),
{
}

/// Sets a value in the reserved space.  Setting to non-zero may produce
/// invalid indexes.
pub fn H3_SET_RESERVED_BITS(h3: u64, v: i8) -> (r: u64)
    requires
        0 <= v <= 7,
    ensures
        get_reserved_s(r) == v as u64,
        get_high_bit_s(r) == get_high_bit_s(h3),
        get_mode_s(r) == get_mode_s(h3),
        get_res_s(r) == get_res_s(h3),
        get_bc_s(r) == get_bc_s(h3),
        forall|d: int| 1 <= d <= 15 ==> #[trigger] get_digit_s(r, d) == get_digit_s(h3, d),
{
    let out = (h3 & !H3_RESERVED_MASK) | ((v as u64) << 56);
    proof {
        let w = v as u64;
        assert forall|d: int| 1 <= d <= 15 implies #[trigger] get_digit_s(out, d) == get_digit_s(
            h3,
            d,
        ) by {
            lemma_set_reserved_bv(h3, w, d as u64);
        }
        lemma_set_reserved_bv(h3, w, 1);
    }
    out
}

/// Gets a value in the reserved space.  Should always be zero for valid
/// indexes.
pub fn H3_GET_RESERVED_BITS(h3: u64) -> (r: u64)
    ensures
        r == get_reserved_s(h3),
        r <= 7,
{
    proof {
        assert((h3 & (7u64 << 56)) >> 56 == (h3 >> 56) & 7 && (h3 >> 56) & 7 <= 7) by (bit_vector);
    }
    (h3 & H3_RESERVED_MASK) >> 56
}

/// Gets the resolution-res integer digit (0-7) of the index.
pub fn H3_GET_INDEX_DIGIT(h3: u64, res: i8) -> (r: Direction)
    requires
        1 <= res <= 15,
    ensures
        digit_val(r) == get_digit_s(h3, res as int) as int,
{
    let shift: u64 = 3 * (15 - (res as u64));
    let v = (h3 >> shift) & H3_DIGIT_MASK;
    proof {
        assert((h3 >> shift) & 7u64 <= 7) by (bit_vector);
    }
    direction_from_value(v as u8)
}

proof fn lemma_set_digit_bv(h: u64, r: u64, v: u64, d: u64)
    by (bit_vector)
    requires
        1 <= r <= 15,
        v <= 7,
        1 <= d <= 15,
    ensures
        ({
            let s = (h & !(7u64 << ((3 * (15 - r)) as u64))) | (v << ((3 * (15 - r)) as u64));
            &&& (s >> ((3 * (15 - r)) as u64)) & 7 == v
            &&& (d != r ==> (s >> ((3 * (15 - d)) as u64)) & 7 == (h >> ((3 * (15 - d)) as u64)) & 7)
            &&& s >> 63 == h >> 63
            &&& (s >> 59) & 15 == (h >> 59) & 15
            &&& (s >> 56) & 7 == (h >> 56) & 7
            &&& (s >> 52) & 15 == (h >> 52) & 15
            &&& (s >> 45) & 127 == (h >> 45) & 127
        }),
{
}

/// Sets the resolution-res digit of the index to the given digit.
pub fn H3_SET_INDEX_DIGIT(h3: u64, res: i8, digit: Direction) -> (r: u64)
    requires
        1 <= res <= 15,
    ensures
        get_digit_s(r, res as int) as int == digit_val(digit),
        forall|d: int|
            1 <= d <= 15 && d != res ==> #[trigger] get_digit_s(r, d) == get_digit_s(h3, d),
        get_high_bit_s(r) == get_high_bit_s(h3),
        get_mode_s(r) == get_mode_s(h3),
        get_reserved_s(r) == get_reserved_s(h3),
        get_res_s(r) == get_res_s(h3),
        get_bc_s(r) == get_bc_s(h3),
{
    let shift: u64 = 3 * (15 - (res as u64));
    let v = direction_value(digit);
    let out = (h3 & !(H3_DIGIT_MASK << shift)) | ((v as u64) << shift);
    proof {
        let ru = res as u64;
        let vu = v as u64;
        assert forall|d: int| 1 <= d <= 15 && d != res implies #[trigger] get_digit_s(out, d)
            == get_digit_s(h3, d) by {
            lemma_set_digit_bv(h3, ru, vu, d as u64);
        }
        lemma_set_digit_bv(h3, ru, vu, if res == 1 { 2 } else { 1 });
    }
    out
}

/// Returns the resolution of an index.
pub fn getResolution(h: u64) -> (r: i32)
    ensures
        r as int == get_res_s(h) as int,
        0 <= r <= 15,
{
    H3_GET_RESOLUTION(h) as i32
}

/// Returns the base cell number of a cell.
pub fn getBaseCellNumber(h: u64) -> (r: i32)
    ensures
        r as int == get_bc_s(h) as int,
        0 <= r <= 127,
{
    H3_GET_BASE_CELL(h) as i32
}

/// Whether a resolution is Class III: odd resolutions are Class III, even
/// resolutions Class II.
pub fn isResolutionClassIII(res: i8) -> (r: bool)
    requires
        res >= 0,
    ensures
        r <==> res as int % 2 == 1,
{
    res % 2 == 1
}


/// The resolution field is four bits, so it never exceeds 15.
pub proof fn lemma_res_le_15(h: u64)
    by (bit_vector)
    ensures
        (h >> 52) & 15 <= 15,
{
}

/// The first non-zero digit scanning positions a..=res, or 0 if all are zero
/// (or the range is empty).
pub open spec fn leading_from(h: u64, r: int) -> u64
    decreases 16 - r,
{
    if r < 1 || r > 15 || r > get_res_s(h) {
        0
    } else if get_digit_s(h, r) != 0 {
        get_digit_s(h, r)
    } else {
        leading_from(h, r + 1)
    }
}

/// The highest-resolution leading non-zero digit of an index, or 0 if every
/// digit within its resolution is the center digit.
pub open spec fn leading_digit_s(h: u64) -> u64 {
    leading_from(h, 1)
}

/// Scanning over zero digits does not change the leading digit.
proof fn lemma_leading_from_zeros(h: u64, a: int, b: int)
    requires
        1 <= a <= b <= 16,
        forall|d: int| a <= d < b ==> #[trigger] get_digit_s(h, d) == 0,
    ensures
        leading_from(h, a) == leading_from(h, b),
    decreases b - a,
{
    if a < b {
        lemma_res_le_15(h);
        if a > get_res_s(h) || a > 15 {
            assert(leading_from(h, a) == 0);
            assert(leading_from(h, b) == 0);
        } else {
            assert(get_digit_s(h, a) == 0);
            lemma_leading_from_zeros(h, a + 1, b);
        }
    }
}

/// A leading digit of zero means every digit within the resolution is zero.
proof fn lemma_leading_zero_upto(h: u64, a: int)
    requires
        1 <= a <= 16,
        leading_from(h, a) == 0,
    ensures
        forall|d: int| a <= d <= get_res_s(h) ==> #[trigger] get_digit_s(h, d) == 0,
    decreases 16 - a,
{
    if a <= get_res_s(h) {
        lemma_res_le_15(h);
        assert(get_digit_s(h, a) == 0);
        lemma_leading_zero_upto(h, a + 1);
    }
}

/// Returns the highest-resolution non-zero digit of an index.
pub fn _h3LeadingNonZeroDigit(h: u64) -> (r: Direction)
    ensures
        digit_val(r) == leading_digit_s(h) as int,
        digit_val(r) <= 7,
{
    let res = H3_GET_RESOLUTION(h);
    let mut rr: i8 = 1;
    while rr <= res
        invariant
            1 <= rr <= res + 1,
            res as int == get_res_s(h) as int,
            0 <= res <= 15,
            leading_from(h, 1) == leading_from(h, rr as int),
        decreases 16 - rr,
    {
        let d = H3_GET_INDEX_DIGIT(h, rr);
        if direction_value(d) != 0 {
            proof {
                assert(leading_from(h, rr as int) == get_digit_s(h, rr as int));
            }
            return d;
        }
        proof {
            assert(leading_from(h, rr as int) == leading_from(h, rr as int + 1));
        }
        rr = rr + 1;
    }
    // if we're here it's all 0's
    proof {
        assert(leading_from(h, rr as int) == 0);
    }
    Direction::CENTER_DIGIT
}

/// The bit-pattern invariant of a valid cell index: high bit clear, cell
/// mode, reserved bits clear, base cell in range, digits within the
/// resolution in 0..=6, digits beyond the resolution all 7, and no leading
/// K-axes digit on a pentagon base cell.
pub open spec fn valid_cell_s(h: u64) -> bool {
    &&& get_high_bit_s(h) == 0
    &&& get_mode_s(h) == 1
    &&& get_reserved_s(h) == 0
    &&& get_bc_s(h) < 122
    &&& (forall|r: int| 1 <= r <= get_res_s(h) ==> #[trigger] get_digit_s(h, r) != 7)
    &&& (forall|r: int| get_res_s(h) < r <= 15 ==> #[trigger] get_digit_s(h, r) == 7)
    &&& (crate::basecells::is_pentagon_base(get_bc_s(h) as int) ==> leading_digit_s(h) != 1)
}

/// Whether an index is a valid cell (hexagon or pentagon).
pub fn isValidCell(h: u64) -> (r: i32)
    ensures
        r == 1 <==> valid_cell_s(h),
        r == 0 || r == 1,
{
    if H3_GET_HIGH_BIT(h) != 0 {
        return 0;
    }

    if H3_GET_MODE(h) != H3_CELL_MODE {
        return 0;
    }

    if H3_GET_RESERVED_BITS(h) != 0 {
        return 0;
    }

    let baseCell: i8 = H3_GET_BASE_CELL(h);
    if baseCell < 0 || baseCell >= crate::basecells::NUM_BASE_CELLS {
        return 0;
    }

    let res = H3_GET_RESOLUTION(h);
    if res < 0 || res > MAX_H3_RES {
        return 0;
    }

    let mut rr: i8 = 1;
    while rr <= res
        invariant
            1 <= rr <= res + 1,
            res as int == get_res_s(h) as int,
            0 <= res <= 15,
            forall|d: int| 1 <= d < rr ==> #[trigger] get_digit_s(h, d) != 7,
        decreases 16 - rr,
    {
        let digit = H3_GET_INDEX_DIGIT(h, rr);
        if direction_value(digit) == 7 {
            return 0;
        }
        rr = rr + 1;
    }

    let mut rr2: i8 = res + 1;
    while rr2 <= MAX_H3_RES
        invariant
            res + 1 <= rr2 <= 16,
            res as int == get_res_s(h) as int,
            0 <= res <= 15,
            forall|d: int| res < d < rr2 ==> #[trigger] get_digit_s(h, d) == 7,
        decreases 16 - rr2,
    {
        let digit = H3_GET_INDEX_DIGIT(h, rr2);
        if direction_value(digit) != 7 {
            return 0;
        }
        rr2 = rr2 + 1;
    }

    if crate::basecells::_isBaseCellPentagon(baseCell) {
        let lead = _h3LeadingNonZeroDigit(h);
        if direction_value(lead) == 1 {
            return 0;
        }
    }

    1
}

/// Initializes an index to the given resolution and base cell, with every
/// digit within the resolution set to `initDigit` and every digit beyond it
/// left at 7.
pub fn setH3Index(hp: &mut u64, res: i8, baseCell: i8, initDigit: Direction)
    requires
        0 <= res <= 15,
        0 <= baseCell < 122,
    ensures
        get_high_bit_s(*final(hp)) == 0,
        get_mode_s(*final(hp)) == 1,
        get_reserved_s(*final(hp)) == 0,
        get_res_s(*final(hp)) == res as u64,
        get_bc_s(*final(hp)) == baseCell as u64,
        forall|d: int|
            1 <= d <= res ==> #[trigger] get_digit_s(*final(hp), d) as int == digit_val(initDigit),
        forall|d: int| res < d <= 15 ==> #[trigger] get_digit_s(*final(hp), d) == 7,
{
    let mut h = H3_INIT;
    proof {
        assert forall|d: int| 1 <= d <= 15 implies #[trigger] get_digit_s(H3_INIT, d) == 7 by {
            lemma_init_bv(d as u64);
        }
        lemma_init_bv(1);
    }
    h = H3_SET_MODE(h, H3_CELL_MODE);
    h = H3_SET_RESOLUTION(h, res);
    h = H3_SET_BASE_CELL(h, baseCell);
    let mut rr: i8 = 1;
    while rr <= res
        invariant
            1 <= rr <= res + 1,
            0 <= res <= 15,
            0 <= baseCell < 122,
            get_high_bit_s(h) == 0,
            get_mode_s(h) == 1,
            get_reserved_s(h) == 0,
            get_res_s(h) == res as u64,
            get_bc_s(h) == baseCell as u64,
            forall|d: int| 1 <= d < rr ==> #[trigger] get_digit_s(h, d) as int == digit_val(initDigit),
            forall|d: int| rr <= d <= 15 ==> #[trigger] get_digit_s(h, d) == 7,
        decreases 16 - rr,
    {
        h = H3_SET_INDEX_DIGIT(h, rr, initDigit);
        rr = rr + 1;
    }
    *hp = h;
}

proof fn lemma_init_bv(d: u64)
    by (bit_vector)
    requires
        1 <= d <= 15,
    ensures
        35184372088831u64 >> 63 == 0,
        (35184372088831u64 >> 59) & 15 == 0,
        (35184372088831u64 >> 56) & 7 == 0,
        (35184372088831u64 >> 52) & 15 == 0,
        (35184372088831u64 >> 45) & 127 == 0,
        (35184372088831u64 >> ((3 * (15 - d)) as u64)) & 7 == 7,
{
}

/// How the output of [`cellToParent`] relates to its input when the parent
/// resolution is coarser or equal: same fields, digits kept up to the parent
/// resolution, 7 in the positions between parent and child resolution, and
/// untouched beyond the child resolution.
pub open spec fn parent_rel(h: u64, pr: int, out: u64) -> bool {
    &&& get_res_s(out) == pr
    &&& get_high_bit_s(out) == get_high_bit_s(h)
    &&& get_mode_s(out) == get_mode_s(h)
    &&& get_reserved_s(out) == get_reserved_s(h)
    &&& get_bc_s(out) == get_bc_s(h)
    &&& (forall|d: int| 1 <= d <= pr ==> #[trigger] get_digit_s(out, d) == get_digit_s(h, d))
    &&& (forall|d: int| pr < d <= get_res_s(h) ==> #[trigger] get_digit_s(out, d) == 7)
    &&& (forall|d: int|
        get_res_s(h) < d <= 15 ==> #[trigger] get_digit_s(out, d) == get_digit_s(h, d))
}

/// Produces the parent (or grandparent, and so on) of a cell at the given
/// coarser resolution.  A cell is its own parent at its own resolution.
pub fn cellToParent(h: u64, parentRes: i8, out: &mut u64) -> (r: H3Error)
    ensures
        (parentRes < 0 || parentRes > 15) ==> r == H3Error::E_RES_DOMAIN && *final(out) == *old(
            out,
        ),
        (0 <= parentRes <= 15 && parentRes as int > get_res_s(h) as int) ==> r
            == H3Error::E_RES_MISMATCH && *final(out) == *old(out),
        (0 <= parentRes <= 15 && parentRes as int == get_res_s(h) as int) ==> r
            == H3Error::E_SUCCESS && *final(out) == h,
        (0 <= parentRes && (parentRes as int) < get_res_s(h) as int) ==> r == H3Error::E_SUCCESS
            && parent_rel(h, parentRes as int, *final(out)),
{
    let childRes = H3_GET_RESOLUTION(h);
    if parentRes < 0 || parentRes > MAX_H3_RES {
        return H3Error::E_RES_DOMAIN;
    } else if parentRes > childRes {
        return H3Error::E_RES_MISMATCH;
    } else if parentRes == childRes {
        *out = h;
        return H3Error::E_SUCCESS;
    }
    let mut parentH = H3_SET_RESOLUTION(h, parentRes);
    let mut i: i8 = parentRes + 1;
    while i <= childRes
        invariant
            parentRes + 1 <= i <= childRes + 1,
            0 <= parentRes < childRes <= 15,
            childRes as int == get_res_s(h) as int,
            get_res_s(parentH) == parentRes as u64,
            get_high_bit_s(parentH) == get_high_bit_s(h),
            get_mode_s(parentH) == get_mode_s(h),
            get_reserved_s(parentH) == get_reserved_s(h),
            get_bc_s(parentH) == get_bc_s(h),
            forall|d: int|
                1 <= d <= parentRes ==> #[trigger] get_digit_s(parentH, d) == get_digit_s(h, d),
            forall|d: int| parentRes < d < i ==> #[trigger] get_digit_s(parentH, d) == 7,
            forall|d: int| i <= d <= 15 ==> #[trigger] get_digit_s(parentH, d) == get_digit_s(h, d),
        decreases 16 - i,
    {
        parentH = H3_SET_INDEX_DIGIT(parentH, i, Direction::INVALID_DIGIT);
        i = i + 1;
    }
    *out = parentH;
    H3Error::E_SUCCESS
}

/// Whether `childRes` is a valid child resolution for the cell; each
/// resolution is a valid child resolution of itself.
pub fn _hasChildAtRes(h: u64, childRes: i8) -> (r: bool)
    ensures
        r <==> (get_res_s(h) as int <= childRes as int && childRes <= 15),
{
    let parentRes = H3_GET_RESOLUTION(h);
    if childRes < parentRes || childRes > MAX_H3_RES {
        return false;
    }
    true
}

/// Seven to the power n.
pub open spec fn pow7(n: int) -> int
    decreases n,
{
    if n <= 0 {
        1
    } else {
        7 * pow7(n - 1)
    }
}

/// pow7 is monotone and at least one.
pub proof fn lemma_pow7_mono(a: int, b: int)
    requires
        0 <= a <= b,
    ensures
        1 <= pow7(a) <= pow7(b),
    decreases b,
{
    if a < b {
        lemma_pow7_mono(a, b - 1);
    } else {
        lemma_pow7_pos(a);
    }
}

proof fn lemma_pow7_pos(a: int)
    ensures
        pow7(a) >= 1,
    decreases a,
{
    if a > 0 {
        lemma_pow7_pos(a - 1);
    }
}

/// pow7 of anything up to 15 fits comfortably in 64 bits.
pub proof fn lemma_pow7_bound(n: int)
    requires
        0 <= n <= 15,
    ensures
        1 <= pow7(n) <= 4747561509943,
{
    lemma_pow7_mono(n, 15);
    reveal_with_fuel(pow7, 17);
    assert(pow7(15) == 4747561509943);
}

/// One less than a power of seven is divisible by six.
pub proof fn lemma_pow7_mod6(n: int)
    requires
        n >= 0,
    ensures
        (pow7(n) - 1) % 6 == 0,
        pow7(n) >= 1,
    decreases n,
{
    lemma_pow7_pos(n);
    if n > 0 {
        lemma_pow7_mod6(n - 1);
        let p = pow7(n - 1);
        assert((7 * p - 1) % 6 == 0) by (nonlinear_arith)
            requires
                (p - 1) % 6 == 0,
                p >= 1,
        ;
    }
}

/// Whether a cell is a pentagon: a pentagon base cell with every digit at the
/// center.
pub open spec fn is_pentagon_s(h: u64) -> bool {
    &&& crate::basecells::is_pentagon_base(get_bc_s(h) as int)
    &&& leading_digit_s(h) == 0
}

/// Whether the index is a pentagon cell.
pub fn isPentagon(h: u64) -> (r: i32)
    ensures
        r == 1 <==> is_pentagon_s(h),
        r == 0 || r == 1,
{
    let lead = _h3LeadingNonZeroDigit(h);
    if crate::basecells::_isBaseCellPentagon(H3_GET_BASE_CELL(h)) && direction_value(lead) == 0 {
        1
    } else {
        0
    }
}

/// Returns the exact number of children of a cell at the given finer
/// resolution: an aperture-7 hexagon has 7^n children, a pentagon
/// 1 + 5*(7^n - 1)/6, where n is the resolution difference.
pub fn cellToChildrenSize(h: u64, childRes: i32, out: &mut u64) -> (r: H3Error)
    ensures
        ((childRes as int) < get_res_s(h) as int || childRes > 15) ==> r == H3Error::E_RES_DOMAIN
            && *final(out) == *old(out),
        (get_res_s(h) as int <= childRes as int && childRes <= 15) ==> {
            &&& r == H3Error::E_SUCCESS
            &&& is_pentagon_s(h) ==> *final(out) as int == 1 + 5 * ((pow7(
                childRes - get_res_s(h)) - 1) / 6)
            &&& !is_pentagon_s(h) ==> *final(out) as int == pow7(childRes - get_res_s(h))
        },
{
    let res = H3_GET_RESOLUTION(h);
    if childRes < res as i32 || childRes > MAX_H3_RES as i32 {
        return H3Error::E_RES_DOMAIN;
    }

    let n: i8 = childRes as i8 - res;
    let ghost nn: int = n as int;

    let mut p: u64 = 1;
    let mut idx: i8 = 0;
    while idx < n
        invariant
            0 <= idx <= n <= 15,
            p as int == pow7(idx as int),
        decreases n - idx,
    {
        proof {
            lemma_pow7_bound(idx as int + 1);
        }
        p = p * 7;
        idx = idx + 1;
    }

    proof {
        lemma_pow7_bound(nn);
    }
    if isPentagon(h) == 1 {
        proof {
            lemma_pow7_mod6(nn);
            let q = (pow7(nn) - 1) / 6;
            assert(pow7(nn) - 1 == 6 * q && (5 * (pow7(nn) - 1)) / 6 == 5 * q) by (nonlinear_arith)
                requires
                    (pow7(nn) - 1) % 6 == 0,
                    pow7(nn) >= 1,
                    q == (pow7(nn) - 1) / 6,
            ;
        }
        *out = 1u64 + 5u64 * (p - 1u64) / 6u64;
    } else {
        *out = p;
    }
    H3Error::E_SUCCESS
}

/// Takes an index and immediately returns the immediate child index based on
/// the specified cell number.  Bit operations only; could generate invalid
/// indexes if not careful (deleted child under a pentagon).
pub fn makeDirectChild(h: u64, cellNumber: i8) -> (r: u64)
    requires
        get_res_s(h) < 15,
        0 <= cellNumber <= 7,
    ensures
        get_res_s(r) == get_res_s(h) + 1,
        get_high_bit_s(r) == get_high_bit_s(h),
        get_mode_s(r) == get_mode_s(h),
        get_reserved_s(r) == get_reserved_s(h),
        get_bc_s(r) == get_bc_s(h),
        get_digit_s(r, get_res_s(h) as int + 1) == cellNumber as u64,
        forall|d: int|
            1 <= d <= 15 && d != get_res_s(h) + 1 ==> #[trigger] get_digit_s(r, d) == get_digit_s(
                h, d),
{
    let childRes = H3_GET_RESOLUTION(h) + 1;
    let childH = H3_SET_RESOLUTION(h, childRes);
    H3_SET_INDEX_DIGIT(childH, childRes, direction_from_value(cellNumber as u8))
}

proof fn lemma_zero_digits_bv(h: u64, a: u64, b: u64, d: u64)
    by (bit_vector)
    requires
        1 <= a <= b,
        b <= 15,
        1 <= d <= 15,
    ensures
        ({
            let m = !((!((!0u64) << ((3 * (b + 1 - a)) as u64))) << ((3 * (15 - b)) as u64));
            let s = h & m;
            &&& (a <= d <= b ==> (s >> ((3 * (15 - d)) as u64)) & 7 == 0)
            &&& (!(a <= d <= b) ==> (s >> ((3 * (15 - d)) as u64)) & 7 == (h >> ((3 * (15 - d))
                as u64)) & 7)
            &&& s >> 63 == h >> 63
            &&& (s >> 59) & 15 == (h >> 59) & 15
            &&& (s >> 56) & 7 == (h >> 56) & 7
            &&& (s >> 52) & 15 == (h >> 52) & 15
            &&& (s >> 45) & 127 == (h >> 45) & 127
        }),
{
}

/// Zeroes out index digits from start to end, inclusive.  No-op if
/// start > end.
pub fn _zeroIndexDigits(h: u64, start: i8, end: i8) -> (r: u64)
    requires
        1 <= start <= 16,
        0 <= end <= 15,
    ensures
        start > end ==> r == h,
        start <= end ==> {
            &&& (forall|d: int| start <= d <= end ==> #[trigger] get_digit_s(r, d) == 0)
            &&& (forall|d: int|
                1 <= d <= 15 && !(start <= d <= end) ==> #[trigger] get_digit_s(r, d)
                    == get_digit_s(h, d))
            &&& get_high_bit_s(r) == get_high_bit_s(h)
            &&& get_mode_s(r) == get_mode_s(h)
            &&& get_reserved_s(r) == get_reserved_s(h)
            &&& get_res_s(r) == get_res_s(h)
            &&& get_bc_s(r) == get_bc_s(h)
        },
{
    if start > end {
        return h;
    }

    let mut m: u64 = 0;

    m = !m;
    m = m << (3 * ((end - start + 1) as u64));
    m = !m;
    m = m << (3 * ((15 - end) as u64));
    m = !m;

    let out = h & m;
    proof {
        let au = start as u64;
        let bu = end as u64;
        assert(m == !((!((!0u64) << ((3 * (bu + 1 - au)) as u64))) << ((3 * (15 - bu)) as u64)));
        assert forall|d: int| 1 <= d <= 15 implies ((start <= d <= end ==> #[trigger] get_digit_s(
            out, d) == 0) && (!(start <= d <= end) ==> get_digit_s(out, d) == get_digit_s(
            h, d))) by {
            lemma_zero_digits_bv(h, au, bu, d as u64);
        }
        lemma_zero_digits_bv(h, au, bu, 1);
    }
    out
}

/// How the output of [`cellToCenterChild`] relates to its input: same fields,
/// original digits kept, center digits in the new positions, untouched beyond
/// the child resolution.
pub open spec fn center_child_rel(h: u64, cr: int, out: u64) -> bool {
    &&& get_res_s(out) == cr
    &&& get_high_bit_s(out) == get_high_bit_s(h)
    &&& get_mode_s(out) == get_mode_s(h)
    &&& get_reserved_s(out) == get_reserved_s(h)
    &&& get_bc_s(out) == get_bc_s(h)
    &&& (forall|d: int|
        1 <= d <= get_res_s(h) ==> #[trigger] get_digit_s(out, d) == get_digit_s(h, d))
    &&& (forall|d: int| get_res_s(h) < d <= cr ==> #[trigger] get_digit_s(out, d) == 0)
    &&& (forall|d: int| cr < d <= 15 ==> #[trigger] get_digit_s(out, d) == get_digit_s(h, d))
}

/// Produces the center child of a cell at the given finer resolution: the
/// new digit positions are all the center digit.
pub fn cellToCenterChild(h: u64, childRes: i32, child: &mut u64) -> (r: H3Error)
    ensures
        ((childRes as int) < get_res_s(h) as int || childRes > 15) ==> r == H3Error::E_RES_DOMAIN
            && *final(child) == *old(child),
        (get_res_s(h) as int <= childRes as int && childRes <= 15) ==> r == H3Error::E_SUCCESS
            && center_child_rel(h, childRes as int, *final(child)),
{
    let res = H3_GET_RESOLUTION(h);
    if childRes < res as i32 || childRes > MAX_H3_RES as i32 {
        return H3Error::E_RES_DOMAIN;
    }

    let childH = _zeroIndexDigits(h, res + 1, childRes as i8);
    *child = H3_SET_RESOLUTION(childH, childRes as i8);
    H3Error::E_SUCCESS
}

/// Whether the cell is in a Class III resolution (odd resolutions are Class
/// III and subject to shape distortion on icosahedron edges).
pub fn isResClassIII(h: u64) -> (r: i32)
    ensures
        r == 1 <==> get_res_s(h) as int % 2 == 1,
        r == 0 || r == 1,
{
    let res = H3_GET_RESOLUTION(h);
    if res % 2 == 1 {
        1
    } else {
        0
    }
}


/// The numeric form of the counter-clockwise digit rotation: the cycle
/// 1 -> 5 -> 4 -> 6 -> 2 -> 3 -> 1, fixing 0 and 7.
pub open spec fn rot_val_ccw(v: int) -> int {
    if v == 1 {
        5
    } else if v == 5 {
        4
    } else if v == 4 {
        6
    } else if v == 6 {
        2
    } else if v == 2 {
        3
    } else if v == 3 {
        1
    } else {
        v
    }
}

/// The numeric form of the clockwise digit rotation: the inverse cycle.
pub open spec fn rot_val_cw(v: int) -> int {
    if v == 1 {
        3
    } else if v == 3 {
        2
    } else if v == 2 {
        6
    } else if v == 6 {
        4
    } else if v == 4 {
        5
    } else if v == 5 {
        1
    } else {
        v
    }
}

/// The digit-level rotations agree with their numeric forms.
proof fn lemma_rot_digit_val(d: Direction)
    ensures
        digit_val(crate::coordijk::rot_digit_ccw(d)) == rot_val_ccw(digit_val(d)),
        digit_val(crate::coordijk::rot_digit_cw(d)) == rot_val_cw(digit_val(d)),
{
}

/// Rotates an index 60 degrees counter-clockwise: every digit within the
/// resolution is rotated, everything else is untouched.
pub fn _h3Rotate60ccw(h: u64) -> (r: u64)
    requires
        forall|d: int| 1 <= d <= get_res_s(h) ==> #[trigger] get_digit_s(h, d) != 7,
    ensures
        forall|d: int|
            1 <= d <= get_res_s(h) ==> #[trigger] get_digit_s(r, d) as int == rot_val_ccw(
                get_digit_s(h, d) as int),
        forall|d: int|
            get_res_s(h) < d <= 15 ==> #[trigger] get_digit_s(r, d) == get_digit_s(h, d),
        get_high_bit_s(r) == get_high_bit_s(h),
        get_mode_s(r) == get_mode_s(h),
        get_reserved_s(r) == get_reserved_s(h),
        get_res_s(r) == get_res_s(h),
        get_bc_s(r) == get_bc_s(h),
{
    let mut mutH = h;
    let res = H3_GET_RESOLUTION(h);
    let mut rr: i8 = 1;
    while rr <= res
        invariant
            1 <= rr <= res + 1,
            0 <= res <= 15,
            res as int == get_res_s(h) as int,
            forall|d: int| 1 <= d <= get_res_s(h) ==> #[trigger] get_digit_s(h, d) != 7,
            forall|d: int|
                1 <= d < rr ==> #[trigger] get_digit_s(mutH, d) as int == rot_val_ccw(
                    get_digit_s(h, d) as int),
            forall|d: int|
                rr <= d <= 15 ==> #[trigger] get_digit_s(mutH, d) == get_digit_s(h, d),
            get_high_bit_s(mutH) == get_high_bit_s(h),
            get_mode_s(mutH) == get_mode_s(h),
            get_reserved_s(mutH) == get_reserved_s(h),
            get_res_s(mutH) == get_res_s(h),
            get_bc_s(mutH) == get_bc_s(h),
        decreases 16 - rr,
    {
        let oldDigit = H3_GET_INDEX_DIGIT(mutH, rr);
        proof {
            lemma_rot_digit_val(oldDigit);
        }
        mutH = H3_SET_INDEX_DIGIT(mutH, rr, crate::coordijk::_rotate60ccw(oldDigit));
        rr = rr + 1;
    }

    mutH
}

/// Rotates an index 60 degrees clockwise: every digit within the resolution
/// is rotated, everything else is untouched.
pub fn _h3Rotate60cw(h: u64) -> (r: u64)
    requires
        forall|d: int| 1 <= d <= get_res_s(h) ==> #[trigger] get_digit_s(h, d) != 7,
    ensures
        forall|d: int|
            1 <= d <= get_res_s(h) ==> #[trigger] get_digit_s(r, d) as int == rot_val_cw(
                get_digit_s(h, d) as int),
        forall|d: int|
            get_res_s(h) < d <= 15 ==> #[trigger] get_digit_s(r, d) == get_digit_s(h, d),
        get_high_bit_s(r) == get_high_bit_s(h),
        get_mode_s(r) == get_mode_s(h),
        get_reserved_s(r) == get_reserved_s(h),
        get_res_s(r) == get_res_s(h),
        get_bc_s(r) == get_bc_s(h),
{
    let mut mutH = h;
    let res = H3_GET_RESOLUTION(h);
    let mut rr: i8 = 1;
    while rr <= res
        invariant
            1 <= rr <= res + 1,
            0 <= res <= 15,
            res as int == get_res_s(h) as int,
            forall|d: int| 1 <= d <= get_res_s(h) ==> #[trigger] get_digit_s(h, d) != 7,
            forall|d: int|
                1 <= d < rr ==> #[trigger] get_digit_s(mutH, d) as int == rot_val_cw(
                    get_digit_s(h, d) as int),
            forall|d: int|
                rr <= d <= 15 ==> #[trigger] get_digit_s(mutH, d) == get_digit_s(h, d),
            get_high_bit_s(mutH) == get_high_bit_s(h),
            get_mode_s(mutH) == get_mode_s(h),
            get_reserved_s(mutH) == get_reserved_s(h),
            get_res_s(mutH) == get_res_s(h),
            get_bc_s(mutH) == get_bc_s(h),
        decreases 16 - rr,
    {
        let oldDigit = H3_GET_INDEX_DIGIT(mutH, rr);
        proof {
            lemma_rot_digit_val(oldDigit);
        }
        mutH = H3_SET_INDEX_DIGIT(mutH, rr, crate::coordijk::_rotate60cw(oldDigit));
        rr = rr + 1;
    }

    mutH
}

/// Rotates an index 60 degrees counter-clockwise about a pentagonal center,
/// stepping across the deleted K-axes subsequence: if the rotation would land
/// the leading digit on the K axis, one more whole rotation is applied.
pub fn _h3RotatePent60ccw(h: u64) -> (r: u64)
    requires
        forall|d: int| 1 <= d <= get_res_s(h) ==> #[trigger] get_digit_s(h, d) != 7,
    ensures
        rot_val_ccw(leading_digit_s(h) as int) != 1 ==> forall|d: int|
            1 <= d <= get_res_s(h) ==> #[trigger] get_digit_s(r, d) as int == rot_val_ccw(
                get_digit_s(h, d) as int),
        rot_val_ccw(leading_digit_s(h) as int) == 1 ==> forall|d: int|
            1 <= d <= get_res_s(h) ==> #[trigger] get_digit_s(r, d) as int == rot_val_ccw(
                rot_val_ccw(get_digit_s(h, d) as int)),
        forall|d: int|
            get_res_s(h) < d <= 15 ==> #[trigger] get_digit_s(r, d) == get_digit_s(h, d),
        get_high_bit_s(r) == get_high_bit_s(h),
        get_mode_s(r) == get_mode_s(h),
        get_reserved_s(r) == get_reserved_s(h),
        get_res_s(r) == get_res_s(h),
        get_bc_s(r) == get_bc_s(h),
{
    // rotate in place; skip any leading 1 digits (k-axis)
    let lead = _h3LeadingNonZeroDigit(h);
    let mut mutH = _h3Rotate60ccw(h);
    proof {
        lemma_leading_not7(h, 1);
        lemma_leading_rotates(h, mutH, true);
    }
    if direction_value(crate::coordijk::_rotate60ccw(lead)) == 1 {
        // adjust for the deleted k-axes sequence
        mutH = _h3Rotate60ccw(mutH);
    }
    mutH
}

/// Rotates an index 60 degrees clockwise about a pentagonal center, stepping
/// across the deleted K-axes subsequence.
pub fn _h3RotatePent60cw(h: u64) -> (r: u64)
    requires
        forall|d: int| 1 <= d <= get_res_s(h) ==> #[trigger] get_digit_s(h, d) != 7,
    ensures
        rot_val_cw(leading_digit_s(h) as int) != 1 ==> forall|d: int|
            1 <= d <= get_res_s(h) ==> #[trigger] get_digit_s(r, d) as int == rot_val_cw(
                get_digit_s(h, d) as int),
        rot_val_cw(leading_digit_s(h) as int) == 1 ==> forall|d: int|
            1 <= d <= get_res_s(h) ==> #[trigger] get_digit_s(r, d) as int == rot_val_cw(
                rot_val_cw(get_digit_s(h, d) as int)),
        forall|d: int|
            get_res_s(h) < d <= 15 ==> #[trigger] get_digit_s(r, d) == get_digit_s(h, d),
        get_high_bit_s(r) == get_high_bit_s(h),
        get_mode_s(r) == get_mode_s(h),
        get_reserved_s(r) == get_reserved_s(h),
        get_res_s(r) == get_res_s(h),
        get_bc_s(r) == get_bc_s(h),
{
    // rotate in place; skip any leading 1 digits (k-axis)
    let lead = _h3LeadingNonZeroDigit(h);
    let mut mutH = _h3Rotate60cw(h);
    proof {
        lemma_leading_not7(h, 1);
        lemma_leading_rotates(h, mutH, false);
    }
    if direction_value(crate::coordijk::_rotate60cw(lead)) == 1 {
        // adjust for the deleted k-axes sequence
        mutH = _h3Rotate60cw(mutH);
    }
    mutH
}

/// The leading digit is never the invalid digit when no digit is.
proof fn lemma_leading_not7(h: u64, a: int)
    requires
        1 <= a <= 16,
        forall|d: int| 1 <= d <= get_res_s(h) ==> #[trigger] get_digit_s(h, d) != 7,
    ensures
        leading_from(h, a) != 7,
    decreases 16 - a,
{
    lemma_res_le_15(h);
    if a < 1 || a > 15 || a > get_res_s(h) {
    } else if get_digit_s(h, a) != 0 {
    } else {
        lemma_leading_not7(h, a + 1);
    }
}

/// Rotating every digit of an index rotates its leading non-zero digit.
proof fn lemma_leading_rotates(h: u64, r: u64, ccw: bool)
    requires
        get_res_s(r) == get_res_s(h),
        ccw ==> forall|d: int|
            1 <= d <= get_res_s(h) ==> #[trigger] get_digit_s(r, d) as int == rot_val_ccw(
                get_digit_s(h, d) as int),
        !ccw ==> forall|d: int|
            1 <= d <= get_res_s(h) ==> #[trigger] get_digit_s(r, d) as int == rot_val_cw(
                get_digit_s(h, d) as int),
    ensures
        ccw ==> leading_digit_s(r) as int == rot_val_ccw(leading_digit_s(h) as int),
        !ccw ==> leading_digit_s(r) as int == rot_val_cw(leading_digit_s(h) as int),
{
    lemma_leading_rotates_from(h, r, ccw, 1);
}

proof fn lemma_leading_rotates_from(h: u64, r: u64, ccw: bool, a: int)
    requires
        1 <= a <= 16,
        get_res_s(r) == get_res_s(h),
        ccw ==> forall|d: int|
            1 <= d <= get_res_s(h) ==> #[trigger] get_digit_s(r, d) as int == rot_val_ccw(
                get_digit_s(h, d) as int),
        !ccw ==> forall|d: int|
            1 <= d <= get_res_s(h) ==> #[trigger] get_digit_s(r, d) as int == rot_val_cw(
                get_digit_s(h, d) as int),
    ensures
        ccw ==> leading_from(r, a) as int == rot_val_ccw(leading_from(h, a) as int),
        !ccw ==> leading_from(r, a) as int == rot_val_cw(leading_from(h, a) as int),
    decreases 16 - a,
{
    lemma_res_le_15(h);
    if a < 1 || a > 15 || a > get_res_s(h) {
    } else {
        if get_digit_s(h, a) != 0 {
        } else {
            lemma_leading_rotates_from(h, r, ccw, a + 1);
        }
    }
}

/// A valid cell is its own parent at its own resolution, in the sense of
/// [`parent_rel`].
pub proof fn lemma_parent_self(c: u64)
    requires
        valid_cell_s(c),
    ensures
        parent_rel(c, get_res_s(c) as int, c),
{
}

/// Round trip through the center child: taking any valid cell's ancestor at
/// resolution r, descending to that ancestor's center child at the original
/// resolution, and taking the ancestor again at resolution r gives the same
/// ancestor back.
pub proof fn lemma_parent_of_center_child(c: u64, r: int, p: u64, cc: u64, p2: u64)
    requires
        valid_cell_s(c),
        0 <= r <= get_res_s(c),
        parent_rel(c, r, p),
        center_child_rel(p, get_res_s(c) as int, cc),
        parent_rel(cc, r, p2),
    ensures
        p2 == p,
{
    lemma_res_le_15(c);
    assert forall|d: int| 1 <= d <= 15 implies #[trigger] get_digit_s(p2, d) == get_digit_s(
        p, d) by {
        let resc = get_res_s(c) as int;
        if d <= r {
            assert(get_digit_s(p2, d) == get_digit_s(cc, d));
            assert(get_digit_s(cc, d) == get_digit_s(p, d));
        } else if d <= resc {
            assert(get_digit_s(p2, d) == 7);
            assert(get_digit_s(p, d) == 7);
        } else {
            assert(get_digit_s(p2, d) == get_digit_s(cc, d));
            assert(get_digit_s(cc, d) == get_digit_s(p, d));
            assert(get_digit_s(p, d) == get_digit_s(c, d));
        }
    }
    lemma_index_ext(p2, p);
}

/// A valid pentagon cell has every digit within its resolution at the
/// center; hence a pentagon is fully determined by its base cell and
/// resolution, and there are exactly as many pentagons per resolution as
/// pentagon base cells (twelve).
pub proof fn lemma_pentagon_determined(a: u64, b: u64)
    requires
        valid_cell_s(a),
        valid_cell_s(b),
        is_pentagon_s(a),
        is_pentagon_s(b),
        get_res_s(a) == get_res_s(b),
        get_bc_s(a) == get_bc_s(b),
    ensures
        a == b,
{
    lemma_leading_zero_upto(a, 1);
    lemma_leading_zero_upto(b, 1);
    assert forall|d: int| 1 <= d <= 15 implies #[trigger] get_digit_s(a, d) == get_digit_s(
        b, d) by {
        if d <= get_res_s(a) {
            assert(get_digit_s(a, d) == 0 && get_digit_s(b, d) == 0);
        } else {
            assert(get_digit_s(a, d) == 7 && get_digit_s(b, d) == 7);
        }
    }
    lemma_index_ext(a, b);
}


/// n-fold application of the ccw digit rotation.
pub open spec fn rot_val_ccw_n(v: int, n: int) -> int
    decreases n,
{
    if n <= 0 {
        v
    } else {
        rot_val_ccw(rot_val_ccw_n(v, n - 1))
    }
}

/// Iterated digit rotation stays within the valid digits and fixes exactly
/// the center digit.
pub proof fn lemma_rotn_val_range(v: int, n: int)
    requires
        0 <= v <= 6,
        n >= 0,
    ensures
        0 <= rot_val_ccw_n(v, n) <= 6,
        rot_val_ccw_n(v, n) == 0 <==> v == 0,
    decreases n,
{
    if n > 0 {
        lemma_rotn_val_range(v, n - 1);
    }
}

/// Iterated rotations compose additively.
pub proof fn lemma_rotn_val_add(v: int, a: int, b: int)
    requires
        a >= 0,
        b >= 0,
    ensures
        rot_val_ccw_n(rot_val_ccw_n(v, a), b) == rot_val_ccw_n(v, a + b),
    decreases b,
{
    if b > 0 {
        lemma_rotn_val_add(v, a, b - 1);
    }
}

/// One clockwise digit rotation equals five counter-clockwise ones.
pub proof fn lemma_rot_cw_as_ccw5(v: int)
    requires
        0 <= v <= 7,
    ensures
        rot_val_cw(v) == rot_val_ccw_n(v, 5),
{
    reveal_with_fuel(rot_val_ccw_n, 7);
}

/// Rotating every digit by the same iterated rotation rotates the leading
/// non-zero digit the same way.
proof fn lemma_leading_map_from(h: u64, r: u64, m: int, a: int)
    requires
        1 <= a <= 16,
        m >= 0,
        get_res_s(r) == get_res_s(h),
        forall|p: int| 1 <= p <= get_res_s(h) ==> #[trigger] get_digit_s(h, p) <= 6,
        forall|p: int|
            1 <= p <= get_res_s(h) ==> #[trigger] get_digit_s(r, p) as int == rot_val_ccw_n(
                get_digit_s(h, p) as int,
                m,
            ),
    ensures
        leading_from(r, a) as int == rot_val_ccw_n(leading_from(h, a) as int, m),
    decreases 16 - a,
{
    lemma_res_le_15(h);
    if a < 1 || a > 15 || a > get_res_s(h) {
        lemma_rotn_val_range(0, m);
    } else {
        lemma_rotn_val_range(get_digit_s(h, a) as int, m);
        if get_digit_s(h, a) != 0 {
        } else {
            lemma_leading_map_from(h, r, m, a + 1);
        }
    }
}

/// Rotating every digit by the same iterated rotation rotates the leading
/// non-zero digit the same way.
pub proof fn lemma_leading_map(h: u64, r: u64, m: int)
    requires
        m >= 0,
        get_res_s(r) == get_res_s(h),
        forall|p: int| 1 <= p <= get_res_s(h) ==> #[trigger] get_digit_s(h, p) <= 6,
        forall|p: int|
            1 <= p <= get_res_s(h) ==> #[trigger] get_digit_s(r, p) as int == rot_val_ccw_n(
                get_digit_s(h, p) as int,
                m,
            ),
    ensures
        leading_digit_s(r) as int == rot_val_ccw_n(leading_digit_s(h) as int, m),
{
    lemma_leading_map_from(h, r, m, 1);
}

/// Which aperture-7 parent transform each resolution uses: Class III (odd)
/// resolutions use the ccw transform, Class II (even) the cw one.
pub open spec fn up_step_s(t: (int, int, int), r: int) -> (int, int, int) {
    if r % 2 == 1 {
        crate::coordijk::up_ap7_s(t)
    } else {
        crate::coordijk::up_ap7r_s(t)
    }
}

/// The matching child-grid center transform.
pub open spec fn down_step_s(t: (int, int, int), r: int) -> (int, int, int) {
    if r % 2 == 1 {
        crate::coordijk::down_ap7_s(t)
    } else {
        crate::coordijk::down_ap7r_s(t)
    }
}

/// The coordinate of the enclosing cell at resolution r of a cell whose
/// coordinate at resolution res is t, obtained by walking up one aperture-7
/// level at a time.
pub open spec fn fold_s(t: (int, int, int), res: int, r: int) -> (int, int, int)
    decreases res - r,
{
    if r >= res {
        t
    } else {
        up_step_s(fold_s(t, res, r + 1), r + 1)
    }
}

/// The indexing digit at position p (1 <= p <= res) of the cell with
/// coordinate t at resolution res: how the cell at level p sits within its
/// level p-1 parent.
pub open spec fn raw_digit_s(t: (int, int, int), res: int, p: int) -> int {
    let c = fold_s(t, res, p);
    crate::coordijk::unit_digit3(
        crate::coordijk::norm3(
            crate::coordijk::sub3(c, down_step_s(up_step_s(c, p), p)),
        ),
    )
}

/// Whether encoding succeeds: the coordinate folded all the way up must land
/// on a valid resolution-0 base cell position of its face.
pub open spec fn encode_ok_s(t: (int, int, int), res: int) -> bool {
    let b = fold_s(t, res, 0);
    0 <= b.0 <= 2 && 0 <= b.1 <= 2 && 0 <= b.2 <= 2
}

/// The digits of index out are the raw indexing digits of the cell with
/// coordinate t at resolution res, all turned by the same m-fold ccw digit
/// rotation.
pub open spec fn digits_rotated_s(t: (int, int, int), res: int, out: u64, m: int) -> bool {
    &&& 0 <= m <= 20
    &&& forall|p: int|
        1 <= p <= res ==> #[trigger] get_digit_s(out, p) as int == rot_val_ccw_n(
            raw_digit_s(t, res, p),
            m,
        )
}

/// One- and two-fold rotations written as iterated rotations.
pub proof fn lemma_rotn_12(v: int)
    ensures
        rot_val_ccw_n(v, 1) == rot_val_ccw(v),
        rot_val_ccw_n(v, 2) == rot_val_ccw(rot_val_ccw(v)),
{
    reveal_with_fuel(rot_val_ccw_n, 3);
}

/// One step of the upward fold: replaces the coordinate by its aperture-7
/// parent at level rr - 1 and returns the indexing digit recording where the
/// cell sat within that parent.
#[verifier::rlimit(100)]
#[verifier::spinoff_prover]
fn encode_step(fijkBC: &mut FaceIJK, rr: i8) -> (dg: Direction)
    requires
        1 <= rr <= 15,
        crate::coordijk::bounded3(crate::coordijk::view3(old(fijkBC).coord), 0x0800_0000),
        -0x0400_0000 <= crate::coordijk::axial3(crate::coordijk::view3(old(fijkBC).coord)).0
            <= 0x0400_0000,
        -0x0400_0000 <= crate::coordijk::axial3(crate::coordijk::view3(old(fijkBC).coord)).1
            <= 0x0400_0000,
    ensures
        final(fijkBC).face == old(fijkBC).face,
        crate::coordijk::view3(final(fijkBC).coord) == up_step_s(
            crate::coordijk::view3(old(fijkBC).coord),
            rr as int,
        ),
        crate::coordijk::bounded3(crate::coordijk::view3(final(fijkBC).coord), 0x0800_0000),
        -0x0400_0000 <= crate::coordijk::axial3(crate::coordijk::view3(final(fijkBC).coord)).0
            <= 0x0400_0000,
        -0x0400_0000 <= crate::coordijk::axial3(crate::coordijk::view3(final(fijkBC).coord)).1
            <= 0x0400_0000,
        crate::coordijk::digit_val(dg) == crate::coordijk::unit_digit3(
            crate::coordijk::norm3(
                crate::coordijk::sub3(
                    crate::coordijk::view3(old(fijkBC).coord),
                    down_step_s(
                        up_step_s(crate::coordijk::view3(old(fijkBC).coord), rr as int),
                        rr as int,
                    ),
                ),
            ),
        ),
        0 <= crate::coordijk::digit_val(dg) <= 6,
{
    let ghost c_here = crate::coordijk::view3(fijkBC.coord);
    let lastIJK = fijkBC.coord;
    let mut lastCenter: CoordIJK;
    proof {
        crate::coordijk::lemma_up_ap7_axial(c_here, 0x0400_0000);
    }
    if isResolutionClassIII(rr) {
        // Class III: rotate ccw
        crate::coordijk::_upAp7(&mut fijkBC.coord);
        lastCenter = fijkBC.coord;
        crate::coordijk::_downAp7(&mut lastCenter);
    } else {
        // Class II: rotate cw
        crate::coordijk::_upAp7r(&mut fijkBC.coord);
        lastCenter = fijkBC.coord;
        crate::coordijk::_downAp7r(&mut lastCenter);
    }

    let mut diff = CoordIJK { i: 0, j: 0, k: 0 };
    crate::coordijk::_ijkSub(lastIJK, lastCenter, &mut diff);
    crate::coordijk::_ijkNormalize(&mut diff);

    let dg = crate::coordijk::_unitIjkToDigit(diff);
    proof {
        crate::coordijk::lemma_normalize_idempotent(
            crate::coordijk::sub3(c_here, crate::coordijk::view3(lastCenter)),
        );
        if rr as int % 2 == 1 {
            crate::coordijk::lemma_up7_down7_diff(c_here);
        } else {
            crate::coordijk::lemma_up7r_down7r_diff(c_here);
        }
    }
    dg
}

/// Converts a FaceIJK address to the corresponding cell index: fold the
/// coordinate up to resolution 0 recording a digit per level, look up the
/// base cell, and rotate the digits into the base cell's own orientation
/// (pentagon base cells also step across their deleted K-axes subsequence).
/// Returns the null index when the address does not land on a base cell.
#[verifier::rlimit(100)]
#[verifier::spinoff_prover]
pub fn _faceIjkToH3(fijk: FaceIJK, res: i8) -> (r: u64)
    requires
        0 <= res <= 15,
        0 <= fijk.face < 20,
        crate::coordijk::bounded3(crate::coordijk::view3(fijk.coord), 0x0200_0000),
    ensures
        r == H3_NULL <==> !encode_ok_s(crate::coordijk::view3(fijk.coord), res as int),
        r != H3_NULL ==> valid_cell_s(r),
        r != H3_NULL ==> get_res_s(r) == res as u64,
        r != H3_NULL ==> ({
            let b = fold_s(crate::coordijk::view3(fijk.coord), res as int, 0);
            get_bc_s(r) as int == crate::basecells::bc_table(fijk.face as int, b.0, b.1, b.2).0
        }),
        r != H3_NULL ==> exists|m: int| #[trigger] digits_rotated_s(
            crate::coordijk::view3(fijk.coord),
            res as int,
            r,
            m,
        ),
{
    let ghost t0 = crate::coordijk::view3(fijk.coord);
    let ghost resv = res as int;

    // initialize the index
    let mut h = H3_INIT;
    proof {
        assert forall|d: int| 1 <= d <= 15 implies #[trigger] get_digit_s(H3_INIT, d) == 7 by {
            lemma_init_bv(d as u64);
        }
        lemma_init_bv(1);
    }
    h = H3_SET_MODE(h, H3_CELL_MODE);
    h = H3_SET_RESOLUTION(h, res);

    // check for res 0/base cell
    if res == 0 {
        if fijk.coord.i > crate::basecells::MAX_FACE_COORD || fijk.coord.j
            > crate::basecells::MAX_FACE_COORD || fijk.coord.k > crate::basecells::MAX_FACE_COORD
            || fijk.coord.i < 0 || fijk.coord.j < 0 || fijk.coord.k < 0 {
            // out of range input
            return H3_NULL;
        }

        h = H3_SET_BASE_CELL(h, crate::basecells::_faceIjkToBaseCell(fijk));
        proof {
            assert(leading_digit_s(h) == 0);
            assert(get_mode_s(h) == 1 && h != 0) by {
                assert((0u64 >> 59) & 15 == 0) by (bit_vector);
            }
            assert(digits_rotated_s(t0, resv, h, 0));
        }
        return h;
    }

    // we need to find the correct base cell FaceIJK for this index;
    // start with the passed in face and resolution res ijk coordinates
    // in that face's coordinate system
    let mut fijkBC = fijk;

    // build the index from finest res up
    let mut rr: i8 = res;
    while rr > 0
        invariant
            0 <= rr <= res <= 15,
            fijkBC.face == fijk.face,
            crate::coordijk::view3(fijkBC.coord) == fold_s(t0, resv, rr as int),
            resv == res as int,
            crate::coordijk::bounded3(crate::coordijk::view3(fijkBC.coord), 0x0800_0000),
            -0x0400_0000 <= crate::coordijk::axial3(crate::coordijk::view3(fijkBC.coord)).0
                <= 0x0400_0000,
            -0x0400_0000 <= crate::coordijk::axial3(crate::coordijk::view3(fijkBC.coord)).1
                <= 0x0400_0000,
            get_high_bit_s(h) == 0,
            get_mode_s(h) == 1,
            get_reserved_s(h) == 0,
            get_res_s(h) == res as u64,
            get_bc_s(h) == 0,
            forall|p: int|
                rr < p <= res ==> #[trigger] get_digit_s(h, p) as int == raw_digit_s(t0, resv, p)
                    && get_digit_s(h, p) <= 6,
            forall|p: int| 1 <= p <= rr ==> #[trigger] get_digit_s(h, p) == 7,
            forall|p: int| res < p <= 15 ==> #[trigger] get_digit_s(h, p) == 7,
        decreases rr,
    {
        let dg = encode_step(&mut fijkBC, rr);
        proof {
            assert(crate::coordijk::view3(fijkBC.coord) == fold_s(t0, resv, rr as int - 1));
            assert(crate::coordijk::digit_val(dg) == raw_digit_s(t0, resv, rr as int));
        }
        h = H3_SET_INDEX_DIGIT(h, rr, dg);
        rr = rr - 1;
    }

    // fijkBC should now hold the IJK of the base cell in the coordinate
    // system of the current face
    if fijkBC.coord.i > crate::basecells::MAX_FACE_COORD || fijkBC.coord.j
        > crate::basecells::MAX_FACE_COORD || fijkBC.coord.k > crate::basecells::MAX_FACE_COORD
        || fijkBC.coord.i < 0 || fijkBC.coord.j < 0 || fijkBC.coord.k < 0 {
        // out of range input
        return H3_NULL;
    }

    // lookup the correct base cell
    let baseCell = crate::basecells::_faceIjkToBaseCell(fijkBC);
    h = H3_SET_BASE_CELL(h, baseCell);
    let ghost h_base = h;

    // rotate if necessary to get canonical base cell orientation
    // for this base cell
    let numRots = crate::basecells::_faceIjkToBaseCellCCWrot60(fijkBC);
    let ghost mut m_fix: int = 0;
    if crate::basecells::_isBaseCellPentagon(baseCell) {
        // force rotation out of missing k-axes sub-sequence
        let lead = _h3LeadingNonZeroDigit(h);
        if direction_value(lead) == 1 {
            // check for a cw/ccw offset face; default is ccw
            if crate::basecells::_baseCellIsCwOffset(baseCell, fijkBC.face) {
                let h2 = _h3Rotate60cw(h);
                proof {
                    lemma_leading_rotates(h, h2, false);
                    assert forall|p: int| 1 <= p <= res implies #[trigger] get_digit_s(h2, p)
                        as int == rot_val_ccw_n(get_digit_s(h_base, p) as int, 5) by {
                        lemma_rot_cw_as_ccw5(get_digit_s(h_base, p) as int);
                    }
                    m_fix = 5;
                }
                h = h2;
            } else {
                let h2 = _h3Rotate60ccw(h);
                proof {
                    lemma_leading_rotates(h, h2, true);
                    assert forall|p: int| 1 <= p <= res implies #[trigger] get_digit_s(h2, p)
                        as int == rot_val_ccw_n(get_digit_s(h_base, p) as int, 1) by {
                        lemma_rotn_12(get_digit_s(h_base, p) as int);
                    }
                    m_fix = 1;
                }
                h = h2;
            }
        } else {
            proof {
                assert forall|p: int| 1 <= p <= res implies #[trigger] get_digit_s(h, p) as int
                    == rot_val_ccw_n(get_digit_s(h_base, p) as int, 0) by {
                }
            }
        }
        proof {
            assert(leading_digit_s(h) != 1);
            assert forall|p: int| 1 <= p <= res implies #[trigger] get_digit_s(h, p) <= 6 by {
                lemma_rotn_val_range(get_digit_s(h_base, p) as int, m_fix);
            }
        }
        let ghost h_fixed = h;
        let mut i: i8 = 0;
        let ghost mut m_pent: int = 0;
        while i < numRots
            invariant
                0 <= i <= numRots < 6,
                0 <= m_pent <= 2 * i,
                get_high_bit_s(h) == get_high_bit_s(h_fixed),
                get_mode_s(h) == get_mode_s(h_fixed),
                get_reserved_s(h) == get_reserved_s(h_fixed),
                get_res_s(h) == get_res_s(h_fixed),
                get_res_s(h_fixed) == res as u64,
                get_bc_s(h) == get_bc_s(h_fixed),
                0 <= res <= 15,
                leading_digit_s(h) != 1,
                forall|p: int| 1 <= p <= res ==> #[trigger] get_digit_s(h_fixed, p) <= 6,
                forall|p: int|
                    1 <= p <= res ==> #[trigger] get_digit_s(h, p) as int == rot_val_ccw_n(
                        get_digit_s(h_fixed, p) as int,
                        m_pent,
                    ),
                forall|p: int|
                    res < p <= 15 ==> #[trigger] get_digit_s(h, p) == get_digit_s(h_fixed, p),
            decreases numRots - i,
        {
            proof {
                assert forall|p: int| 1 <= p <= res implies #[trigger] get_digit_s(h, p)
                    <= 6 by {
                    lemma_rotn_val_range(get_digit_s(h_fixed, p) as int, m_pent);
                }
            }
            let h2 = _h3RotatePent60ccw(h);
            proof {
                let lead_h = leading_digit_s(h) as int;
                let step: int = if rot_val_ccw(lead_h) == 1 {
                    2int
                } else {
                    1int
                };
                assert forall|p: int| 1 <= p <= res implies #[trigger] get_digit_s(h2, p)
                    as int == rot_val_ccw_n(get_digit_s(h, p) as int, step) by {
                    lemma_rotn_12(get_digit_s(h, p) as int);
                }
                assert forall|p: int| 1 <= p <= res implies #[trigger] get_digit_s(h2, p)
                    as int == rot_val_ccw_n(get_digit_s(h_fixed, p) as int, m_pent + step) by {
                    lemma_rotn_val_add(get_digit_s(h_fixed, p) as int, m_pent, step);
                }
                lemma_leading_map(h, h2, step);
                lemma_rotn_12(lead_h);
                assert(leading_digit_s(h2) != 1);
                m_pent = m_pent + step;
            }
            h = h2;
            i = i + 1;
        }
        proof {
            assert forall|p: int| 1 <= p <= res implies #[trigger] get_digit_s(h, p) as int
                == rot_val_ccw_n(get_digit_s(h_base, p) as int, m_fix + m_pent) && get_digit_s(
                h, p) <= 6 by {
                lemma_rotn_val_add(get_digit_s(h_base, p) as int, m_fix, m_pent);
                lemma_rotn_val_range(get_digit_s(h_base, p) as int, m_fix + m_pent);
            }
            assert(digits_rotated_s(t0, resv, h, m_fix + m_pent));
        }
    } else {
        let ghost h_fixed = h;
        let mut i: i8 = 0;
        while i < numRots
            invariant
                0 <= i <= numRots < 6,
                get_high_bit_s(h) == get_high_bit_s(h_fixed),
                get_mode_s(h) == get_mode_s(h_fixed),
                get_reserved_s(h) == get_reserved_s(h_fixed),
                get_res_s(h) == get_res_s(h_fixed),
                get_res_s(h_fixed) == res as u64,
                get_bc_s(h) == get_bc_s(h_fixed),
                0 <= res <= 15,
                forall|p: int| 1 <= p <= res ==> #[trigger] get_digit_s(h_fixed, p) <= 6,
                forall|p: int|
                    1 <= p <= res ==> #[trigger] get_digit_s(h, p) as int == rot_val_ccw_n(
                        get_digit_s(h_fixed, p) as int,
                        i as int,
                    ),
                forall|p: int|
                    res < p <= 15 ==> #[trigger] get_digit_s(h, p) == get_digit_s(h_fixed, p),
            decreases numRots - i,
        {
            proof {
                assert forall|p: int| 1 <= p <= res implies #[trigger] get_digit_s(h, p)
                    <= 6 by {
                    lemma_rotn_val_range(get_digit_s(h_fixed, p) as int, i as int);
                }
            }
            let h2 = _h3Rotate60ccw(h);
            proof {
                assert forall|p: int| 1 <= p <= res implies #[trigger] get_digit_s(h2, p)
                    as int == rot_val_ccw_n(get_digit_s(h_fixed, p) as int, i as int + 1) by {
                    lemma_rotn_12(get_digit_s(h, p) as int);
                    lemma_rotn_val_add(get_digit_s(h_fixed, p) as int, i as int, 1);
                }
            }
            h = h2;
            i = i + 1;
        }
        proof {
            assert forall|p: int| 1 <= p <= res implies #[trigger] get_digit_s(h, p) <= 6 by {
                lemma_rotn_val_range(get_digit_s(h_fixed, p) as int, numRots as int);
            }
            assert(digits_rotated_s(t0, resv, h, numRots as int));
        }
    }

    proof {
        assert(get_mode_s(h) == 1 && h != 0) by {
            assert((0u64 >> 59) & 15 == 0) by (bit_vector);
        }
    }
    h
}


/// Four to the power n.
pub open spec fn pow4(n: int) -> int
    decreases n,
{
    if n <= 0 {
        1
    } else {
        4 * pow4(n - 1)
    }
}

proof fn lemma_pow4_bound(n: int)
    requires
        0 <= n <= 15,
    ensures
        1 <= pow4(n) <= 1073741824,
    decreases n,
{
    reveal_with_fuel(pow4, 17);
    assert(pow4(15) == 1073741824);
    lemma_pow4_mono(n, 15);
}

proof fn lemma_pow4_mono(a: int, b: int)
    requires
        0 <= a <= b,
    ensures
        1 <= pow4(a) <= pow4(b),
    decreases b,
{
    if a < b {
        lemma_pow4_mono(a, b - 1);
    } else if a > 0 {
        lemma_pow4_mono(0, a - 1);
    }
}

/// The digit the decoder follows at position r: the index's own digit,
/// rotated once clockwise when the whole index was pre-rotated to step a
/// pentagon's leading digit out of the deleted subsequence.
pub open spec fn decode_digit_s(h: u64, r: int) -> int {
    if crate::basecells::is_pentagon_base(get_bc_s(h) as int) && leading_digit_s(h) == 5 {
        rot_val_cw(get_digit_s(h, r) as int)
    } else {
        get_digit_s(h, r) as int
    }
}

/// The coordinate of a cell in its base cell's home frame, after walking the
/// digits at positions 1..=r down from the base cell.
pub open spec fn decode_fold_s(h: u64, r: int) -> (int, int, int)
    decreases r,
{
    if r <= 0 {
        crate::basecells::home_fijk_s(get_bc_s(h) as int).1
    } else {
        let prev = decode_fold_s(h, r - 1);
        let stepped = if r % 2 == 1 {
            crate::coordijk::down_ap7_s(prev)
        } else {
            crate::coordijk::down_ap7r_s(prev)
        };
        crate::coordijk::neighbor3(stepped, decode_digit_s(h, r))
    }
}

/// What decoding an index to a FaceIJK address yields: walk the digits down
/// from the base cell's home face, then re-home across an icosahedron edge
/// if the walk overflowed the face (through a Class II substrate when the
/// resolution is Class III).  `None` marks a coordinate that left the
/// verified range, which grid data never does, and is reported as an invalid
/// cell.
pub open spec fn decode_s(h: u64) -> Option<(int, (int, int, int))> {
    let bc = get_bc_s(h) as int;
    let res = get_res_s(h) as int;
    let face = crate::basecells::home_fijk_s(bc).0;
    let home = crate::basecells::home_fijk_s(bc).1;
    let t = decode_fold_s(h, res);
    if !(t.0 <= 0x0200_0000 && t.1 <= 0x0200_0000 && t.2 <= 0x0200_0000) {
        None
    } else if !crate::basecells::is_pentagon_base(bc) && (res == 0 || home == (
        0int,
        0int,
        0int,
    )) {
        Some((face, t))
    } else {
        decode_adjust_s(
            face,
            t,
            res,
            crate::basecells::is_pentagon_base(bc),
            crate::basecells::is_pentagon_base(bc) && leading_digit_s(h) == 4,
        )
    }
}

/// The overage post-processing of decoding: re-home the walked coordinate
/// across an icosahedron edge if it overflowed the face, through a Class II
/// substrate when the resolution is Class III.
pub open spec fn decode_adjust_s(
    face: int,
    t: (int, int, int),
    res: int,
    pent: bool,
    pl4: bool,
) -> Option<(int, (int, int, int))> {
    let class3 = res % 2 == 1;
    let res2 = if class3 {
        res + 1
    } else {
        res
    };
    let t2 = if class3 {
        crate::coordijk::down_ap7r_s(t)
    } else {
        t
    };
    if !(t2.0 <= 0x0400_0000 && t2.1 <= 0x0400_0000 && t2.2 <= 0x0400_0000) {
        None
    } else {
        let a = crate::faceijk::adjust_overage_s(face, t2, res2, pl4, false);
        if a.2 == crate::faceijk::Overage::NO_OVERAGE {
            if class3 {
                Some((a.0, t))
            } else {
                Some((a.0, a.1))
            }
        } else {
            decode_tail_s(a.0, a.1, res2, class3, pent)
        }
    }
}

/// The secondary-overage tail of decoding: a pentagon keeps crossing faces
/// until it settles, and a Class III cell is lifted back out of the
/// substrate grid.
pub open spec fn decode_tail_s(
    face: int,
    t: (int, int, int),
    res2: int,
    class3: bool,
    pent: bool,
) -> Option<(int, (int, int, int))> {
    if pent && !crate::coordijk::bounded3(t, 0x0400_0000) {
        None
    } else {
        let b = if pent {
            crate::faceijk::pent_decode_iter_s(face, t, res2, 5)
        } else {
            (face, t, crate::faceijk::Overage::NEW_FACE)
        };
        if pent && b.2 != crate::faceijk::Overage::NO_OVERAGE {
            None
        } else if class3 {
            if !(b.1.0 <= 0x0800_0000 && b.1.1 <= 0x0800_0000 && b.1.2 <= 0x0800_0000 && b.1.0
                >= -0x0800_0000 && b.1.1 >= -0x0800_0000 && b.1.2 >= -0x0800_0000) {
                None
            } else {
                Some((b.0, crate::coordijk::up_ap7r_s(b.1)))
            }
        } else {
            Some((b.0, b.1))
        }
    }
}

/// Executes [`decode_tail_s`].
#[verifier::rlimit(100)]
#[verifier::spinoff_prover]
fn decode_overage_tail(fijk: &mut FaceIJK, res2: i8, class3: bool, isPent: bool) -> (ok: bool)
    requires
        0 <= res2 <= 16,
        res2 as int % 2 == 0,
        0 <= old(fijk).face < 20,
        crate::coordijk::bounded3(crate::coordijk::view3(old(fijk).coord), 0x1c40_0000),
    ensures
        ({
            let d = decode_tail_s(
                old(fijk).face as int,
                crate::coordijk::view3(old(fijk).coord),
                res2 as int,
                class3,
                isPent,
            );
            &&& (d is Some ==> ok && final(fijk).face as int == d->Some_0.0
                && crate::coordijk::view3(final(fijk).coord) == d->Some_0.1
                && 0 <= final(fijk).face < 20)
            &&& (d is None ==> !ok)
        }),
{
    if isPent {
        if !(fijk.coord.i <= 0x0400_0000 && fijk.coord.i >= -0x0400_0000 && fijk.coord.j
            <= 0x0400_0000 && fijk.coord.j >= -0x0400_0000 && fijk.coord.k <= 0x0400_0000
            && fijk.coord.k >= -0x0400_0000) {
            return false;
        }
        let o2 = crate::faceijk::pent_decode_overage(fijk, res2);
        if !(o2 == crate::faceijk::Overage::NO_OVERAGE) {
            return false;
        }
    }

    if class3 {
        if !(fijk.coord.i <= 0x0800_0000 && fijk.coord.j <= 0x0800_0000 && fijk.coord.k
            <= 0x0800_0000 && fijk.coord.i >= -0x0800_0000 && fijk.coord.j >= -0x0800_0000
            && fijk.coord.k >= -0x0800_0000) {
            return false;
        }
        crate::coordijk::_upAp7r(&mut fijk.coord);
    }
    true
}

/// Executes [`decode_adjust_s`]; returns false when the coordinate left the
/// verified range.
#[verifier::rlimit(100)]
#[verifier::spinoff_prover]
fn decode_adjust(fijk: &mut FaceIJK, res: i8, isPent: bool, pentLeading4: bool) -> (ok: bool)
    requires
        0 <= res <= 15,
        0 <= old(fijk).face < 20,
        crate::coordijk::nonneg3(crate::coordijk::view3(old(fijk).coord)),
        crate::coordijk::bounded3(crate::coordijk::view3(old(fijk).coord), 0x0200_0000),
    ensures
        ({
            let d = decode_adjust_s(
                old(fijk).face as int,
                crate::coordijk::view3(old(fijk).coord),
                res as int,
                isPent,
                pentLeading4,
            );
            &&& (d is Some ==> ok && final(fijk).face as int == d->Some_0.0
                && crate::coordijk::view3(final(fijk).coord) == d->Some_0.1
                && 0 <= final(fijk).face < 20)
            &&& (d is None ==> !ok)
        }),
{
    let ghost face_g = old(fijk).face as int;
    let ghost t_g = crate::coordijk::view3(old(fijk).coord);
    let ghost class3_g = res as int % 2 == 1;
    let origIJK = fijk.coord;

    // if we're in Class III, drop into the next finer Class II grid
    let mut res2 = res;
    if isResolutionClassIII(res) {
        crate::coordijk::_downAp7r(&mut fijk.coord);
        res2 = res + 1;
    }
    let ghost t2_g: (int, int, int) = if class3_g {
        crate::coordijk::down_ap7r_s(t_g)
    } else {
        t_g
    };
    proof {
        assert(crate::coordijk::view3(fijk.coord) == t2_g);
        assert(crate::coordijk::nonneg3(t2_g));
        assert(res2 as int == if class3_g { res as int + 1 } else { res as int });
    }
    if !(fijk.coord.i <= 0x0400_0000 && fijk.coord.j <= 0x0400_0000 && fijk.coord.k
        <= 0x0400_0000) {
        return false;
    }

    // adjust for overage if needed
    // a pentagon base cell with a leading 4 digit requires special handling
    let overage = crate::faceijk::_adjustOverageClassII(fijk, res2, pentLeading4, false);
    let ghost a_g = crate::faceijk::adjust_overage_s(face_g, t2_g, res2 as int, pentLeading4,
        false);
    proof {
        assert((fijk.face as int, crate::coordijk::view3(fijk.coord), overage) == a_g);
    }
    if !(overage == crate::faceijk::Overage::NO_OVERAGE) {
        // if the base cell is a pentagon we have the potential for secondary
        // overages, and a Class III cell must be lifted out of the substrate
        let ok = decode_overage_tail(fijk, res2, res2 != res, isPent);
        proof {
            assert(decode_tail_s(a_g.0, a_g.1, res2 as int, class3_g, isPent)
                == decode_adjust_s(face_g, t_g, res as int, isPent, pentLeading4));
        }
        return ok;
    } else if res2 != res {
        fijk.coord = origIJK;
    }
    true
}

/// Converts a cell index to its FaceIJK address: the inverse of
/// [`_faceIjkToH3`] composed with the home-face data of the base cell.
/// Returns an invalid-cell error only if the walk left the verified
/// coordinate range, which cannot happen for grid data.
#[verifier::rlimit(100)]
#[verifier::spinoff_prover]
pub fn _h3ToFaceIjk(h: u64, fijk: &mut FaceIJK) -> (r: H3Error)
    requires
        valid_cell_s(h),
    ensures
        decode_s(h) is Some ==> {
            &&& r == H3Error::E_SUCCESS
            &&& final(fijk).face as int == decode_s(h)->Some_0.0
            &&& crate::coordijk::view3(final(fijk).coord) == decode_s(h)->Some_0.1
            &&& 0 <= final(fijk).face < 20
        },
        decode_s(h) is None ==> r == H3Error::E_CELL_INVALID && final(fijk).face == 0
            && crate::coordijk::view3(final(fijk).coord) == (0int, 0int, 0int),
{
    let baseCell = H3_GET_BASE_CELL(h);
    let res = H3_GET_RESOLUTION(h);

    // adjust for the pentagonal missing sequence; all of sub-sequence 5 needs
    // to be adjusted (and some of sub-sequence 4 below)
    let mut hAdj = h;
    let isPent = crate::basecells::_isBaseCellPentagon(baseCell);
    let lead = _h3LeadingNonZeroDigit(h);
    if isPent && direction_value(lead) == 5 {
        hAdj = _h3Rotate60cw(h);
    }
    proof {
        assert forall|p: int| 1 <= p <= res implies #[trigger] get_digit_s(hAdj, p) as int
            == decode_digit_s(h, p) by {}
    }

    // start with the "home" face and ijk+ coordinates for the base cell
    let mut homeF = FaceIJK { face: 0, coord: CoordIJK { i: 0, j: 0, k: 0 } };
    crate::basecells::_baseCellToFaceIjk(baseCell, &mut homeF);

    let mut c = crate::coordijk::CoordIJK64 {
        i: homeF.coord.i as i64,
        j: homeF.coord.j as i64,
        k: homeF.coord.k as i64,
    };
    let mut rr: i8 = 1;
    while rr <= res
        invariant
            1 <= rr <= res + 1,
            0 <= res <= 15,
            res as int == get_res_s(h) as int,
            valid_cell_s(h),
            crate::coordijk::view64(c) == decode_fold_s(h, rr as int - 1),
            crate::coordijk::nonneg3(crate::coordijk::view64(c)),
            crate::coordijk::bounded3(crate::coordijk::view64(c), 4 * pow4(rr as int - 1) - 1),
            forall|p: int|
                1 <= p <= res ==> #[trigger] get_digit_s(hAdj, p) as int == decode_digit_s(h, p),
            get_res_s(hAdj) == get_res_s(h),
        decreases 16 - rr,
    {
        proof {
            lemma_pow4_bound(rr as int - 1);
            lemma_pow4_bound(rr as int);
        }
        if isResolutionClassIII(rr) {
            crate::coordijk::down_ap7_64(&mut c);
        } else {
            crate::coordijk::down_ap7r_64(&mut c);
        }
        crate::coordijk::neighbor64(&mut c, H3_GET_INDEX_DIGIT(hAdj, rr));
        rr = rr + 1;
    }
    proof {
        lemma_pow4_bound(res as int);
    }

    // reject coordinates outside the verified range (cannot occur for grid
    // data: all cells stay well within their face's frame)
    if !(c.i <= 0x0200_0000 && c.j <= 0x0200_0000 && c.k <= 0x0200_0000) {
        fijk.face = 0;
        fijk.coord = CoordIJK { i: 0, j: 0, k: 0 };
        return H3Error::E_CELL_INVALID;
    }
    fijk.face = homeF.face;
    fijk.coord = CoordIJK { i: c.i as i32, j: c.j as i32, k: c.k as i32 };

    // center base cell hierarchy is entirely on this face
    if !isPent && (res == 0 || (homeF.coord.i == 0 && homeF.coord.j == 0 && homeF.coord.k == 0)) {
        return H3Error::E_SUCCESS;
    }

    // if we're here we have the potential for an "overage"; i.e., it is
    // possible that the cell lies on an adjacent face
    let pentLeading4 = isPent && direction_value(lead) == 4;
    let ok = decode_adjust(fijk, res, isPent, pentLeading4);
    if !ok {
        fijk.face = 0;
        fijk.coord = CoordIJK { i: 0, j: 0, k: 0 };
        return H3Error::E_CELL_INVALID;
    }
    H3Error::E_SUCCESS
}



/// An index whose digits agree with h up to position b and are zero from
/// there to its own resolution has h's leading digit, or none at all.
proof fn lemma_leading_common(h: u64, out: u64, b: int, a: int)
    requires
        1 <= a <= 16,
        0 <= b <= get_res_s(h),
        b <= get_res_s(out),
        forall|d: int| 1 <= d <= b ==> #[trigger] get_digit_s(out, d) == get_digit_s(h, d),
        forall|d: int| b < d <= get_res_s(out) ==> #[trigger] get_digit_s(out, d) == 0,
    ensures
        leading_from(out, a) == leading_from(h, a) || leading_from(out, a) == 0,
    decreases 16 - a,
{
    lemma_res_le_15(h);
    lemma_res_le_15(out);
    if a > 15 || a > get_res_s(out) {
    } else if a > b {
        lemma_leading_from_zeros(out, a, get_res_s(out) as int + 1);
        assert(leading_from(out, get_res_s(out) as int + 1) == 0);
    } else {
        if get_digit_s(out, a) != 0 {
        } else {
            lemma_leading_common(h, out, b, a + 1);
        }
    }
}

/// The parent of a valid cell, at any coarser resolution, is itself a valid
/// cell.
pub proof fn lemma_parent_preserves_validity(h: u64, pr: int, out: u64)
    requires
        valid_cell_s(h),
        0 <= pr <= get_res_s(h),
        parent_rel(h, pr, out),
    ensures
        valid_cell_s(out),
{
    lemma_res_le_15(h);
    lemma_leading_common(h, out, pr, 1);
}

/// The center child of a valid cell, at any finer resolution, is itself a
/// valid cell.
pub proof fn lemma_center_child_preserves_validity(h: u64, cr: int, out: u64)
    requires
        valid_cell_s(h),
        get_res_s(h) <= cr <= 15,
        center_child_rel(h, cr, out),
    ensures
        valid_cell_s(out),
{
    lemma_res_le_15(h);
    lemma_leading_common(h, out, get_res_s(h) as int, 1);
}


} // verus!
