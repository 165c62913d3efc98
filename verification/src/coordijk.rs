use vstd::prelude::*;
use crate::h3api::CoordIJ;

verus! {

/// IJK hexagon coordinates.  Each axis is spaced 120 degrees apart.  The
/// canonical "+" form produced by [`_ijkNormalize`] has no negative component
/// and at least one zero component.
#[derive(Copy, Clone, PartialEq, Eq, Structural, Debug)]
pub struct CoordIJK {
    /// i component
    pub i: i32,
    /// j component
    pub j: i32,
    /// k component
    pub k: i32,
}

/// Digit naming one of the seven aperture-7 children of a cell, i.e. one of
/// the seven IJK unit vectors.  `INVALID_DIGIT` (7) is the reserved
/// "invalid/unused" value that also fills index digits beyond a cell's
/// resolution.
#[derive(Copy, Clone, PartialEq, Eq, Structural, Debug)]
pub enum Direction {
    /// Digit in the cell center
    CENTER_DIGIT,
    /// Digit in the k-axes direction
    K_AXES_DIGIT,
    /// Digit in the j-axes direction
    J_AXES_DIGIT,
    /// Digit in the j == k direction
    JK_AXES_DIGIT,
    /// Digit in the i-axes direction
    I_AXES_DIGIT,
    /// Digit in the i == k direction
    IK_AXES_DIGIT,
    /// Digit in the i == j direction
    IJ_AXES_DIGIT,
    /// The invalid direction
    INVALID_DIGIT,
}

/// Child digit which is skipped for pentagons.
pub const PENTAGON_SKIPPED_DIGIT: Direction = Direction::K_AXES_DIGIT;

/// The numeric value (0..=7) of a digit, as packed into an index.
pub open spec fn digit_val(d: Direction) -> int {
    match d {
        Direction::CENTER_DIGIT => 0,
        Direction::K_AXES_DIGIT => 1,
        Direction::J_AXES_DIGIT => 2,
        Direction::JK_AXES_DIGIT => 3,
        Direction::I_AXES_DIGIT => 4,
        Direction::IK_AXES_DIGIT => 5,
        Direction::IJ_AXES_DIGIT => 6,
        Direction::INVALID_DIGIT => 7,
    }
}

/// Numeric value of a digit.
pub fn direction_value(d: Direction) -> (r: u8)
    ensures
        r as int == digit_val(d),
{
    match d {
        Direction::CENTER_DIGIT => 0,
        Direction::K_AXES_DIGIT => 1,
        Direction::J_AXES_DIGIT => 2,
        Direction::JK_AXES_DIGIT => 3,
        Direction::I_AXES_DIGIT => 4,
        Direction::IK_AXES_DIGIT => 5,
        Direction::IJ_AXES_DIGIT => 6,
        Direction::INVALID_DIGIT => 7,
    }
}

/// The digit with the given numeric value (0..=7).
pub fn direction_from_value(v: u8) -> (r: Direction)
    requires
        v <= 7,
    ensures
        digit_val(r) == v as int,
{
    if v == 0 {
        Direction::CENTER_DIGIT
    } else if v == 1 {
        Direction::K_AXES_DIGIT
    } else if v == 2 {
        Direction::J_AXES_DIGIT
    } else if v == 3 {
        Direction::JK_AXES_DIGIT
    } else if v == 4 {
        Direction::I_AXES_DIGIT
    } else if v == 5 {
        Direction::IK_AXES_DIGIT
    } else if v == 6 {
        Direction::IJ_AXES_DIGIT
    } else {
        Direction::INVALID_DIGIT
    }
}

/// Mathematical view of an IJK coordinate as a triple of integers.
pub open spec fn view3(c: CoordIJK) -> (int, int, int) {
    (c.i as int, c.j as int, c.k as int)
}

/// Smallest of three integers.
pub open spec fn min3(a: int, b: int, c: int) -> int {
    if a <= b && a <= c {
        a
    } else if b <= c {
        b
    } else {
        c
    }
}

/// Largest of three integers.
pub open spec fn max3(a: int, b: int, c: int) -> int {
    if a >= b && a >= c {
        a
    } else if b >= c {
        b
    } else {
        c
    }
}

/// Componentwise sum of two triples.
pub open spec fn add3(a: (int, int, int), b: (int, int, int)) -> (int, int, int) {
    (a.0 + b.0, a.1 + b.1, a.2 + b.2)
}

/// Componentwise difference of two triples.
pub open spec fn sub3(a: (int, int, int), b: (int, int, int)) -> (int, int, int) {
    (a.0 - b.0, a.1 - b.1, a.2 - b.2)
}

/// Triple scaled by a factor.
pub open spec fn scale3(a: (int, int, int), f: int) -> (int, int, int) {
    (a.0 * f, a.1 * f, a.2 * f)
}

/// Every component within [-b, b].
pub open spec fn bounded3(t: (int, int, int), b: int) -> bool {
    &&& -b <= t.0 <= b
    &&& -b <= t.1 <= b
    &&& -b <= t.2 <= b
}

/// Every component non-negative.
pub open spec fn nonneg3(t: (int, int, int)) -> bool {
    t.0 >= 0 && t.1 >= 0 && t.2 >= 0
}

/// The canonical "+" form of an IJK triple: subtract the componentwise
/// minimum, so that no component is negative and at least one is zero.
/// Folding the negative components into the other two axes and then removing
/// the common minimum amounts to exactly this.
pub open spec fn norm3(t: (int, int, int)) -> (int, int, int) {
    let m = min3(t.0, t.1, t.2);
    (t.0 - m, t.1 - m, t.2 - m)
}

/// The IJK unit vector of digit d (0..=6).
pub open spec fn unit_vec3(d: int) -> (int, int, int) {
    if d == 1 {
        (0, 0, 1)
    } else if d == 2 {
        (0, 1, 0)
    } else if d == 3 {
        (0, 1, 1)
    } else if d == 4 {
        (1, 0, 0)
    } else if d == 5 {
        (1, 0, 1)
    } else if d == 6 {
        (1, 1, 0)
    } else {
        (0, 0, 0)
    }
}

/// The digit whose unit vector a normalized triple equals, or 7 if none.
pub open spec fn unit_digit3(t: (int, int, int)) -> int {
    if t == (0int, 0int, 0int) {
        0
    } else if t == (0int, 0int, 1int) {
        1
    } else if t == (0int, 1int, 0int) {
        2
    } else if t == (0int, 1int, 1int) {
        3
    } else if t == (1int, 0int, 0int) {
        4
    } else if t == (1int, 0int, 1int) {
        5
    } else if t == (1int, 1int, 0int) {
        6
    } else {
        7
    }
}

/// Rounding of n/7 to the nearest integer, halves away from zero.  Since 7 is
/// odd, n/7 is never exactly halfway, so this agrees with every
/// round-to-nearest convention.
pub open spec fn rnd7(n: int) -> int {
    if n >= 0 {
        (n + 3) / 7
    } else {
        -((3 - n) / 7)
    }
}

/// Aperture-7 counter-clockwise parent of a triple (grid one level coarser).
pub open spec fn up_ap7_s(t: (int, int, int)) -> (int, int, int) {
    let i = t.0 - t.2;
    let j = t.1 - t.2;
    norm3((rnd7(3 * i - j), rnd7(i + 2 * j), 0))
}

/// Aperture-7 clockwise parent of a triple.
pub open spec fn up_ap7r_s(t: (int, int, int)) -> (int, int, int) {
    let i = t.0 - t.2;
    let j = t.1 - t.2;
    norm3((rnd7(2 * i + j), rnd7(3 * j - i), 0))
}

/// Center of the same cell in the aperture-7 counter-clockwise child grid:
/// image under i -> (3,0,1), j -> (1,3,0), k -> (0,1,3).
pub open spec fn down_ap7_s(t: (int, int, int)) -> (int, int, int) {
    norm3((3 * t.0 + t.1, 3 * t.1 + t.2, t.0 + 3 * t.2))
}

/// Center of the same cell in the aperture-7 clockwise child grid:
/// image under i -> (3,1,0), j -> (0,3,1), k -> (1,0,3).
pub open spec fn down_ap7r_s(t: (int, int, int)) -> (int, int, int) {
    norm3((3 * t.0 + t.2, t.0 + 3 * t.1, t.1 + 3 * t.2))
}

/// Center of the same cell in the aperture-3 counter-clockwise child grid:
/// image under i -> (2,0,1), j -> (1,2,0), k -> (0,1,2).
pub open spec fn down_ap3_s(t: (int, int, int)) -> (int, int, int) {
    norm3((2 * t.0 + t.1, 2 * t.1 + t.2, t.0 + 2 * t.2))
}

/// Center of the same cell in the aperture-3 clockwise child grid:
/// image under i -> (2,1,0), j -> (0,2,1), k -> (1,0,2).
pub open spec fn down_ap3r_s(t: (int, int, int)) -> (int, int, int) {
    norm3((2 * t.0 + t.2, t.0 + 2 * t.1, t.1 + 2 * t.2))
}

/// Rotation by 60 degrees counter-clockwise:
/// image under i -> (1,1,0), j -> (0,1,1), k -> (1,0,1).
pub open spec fn rot60ccw_s(t: (int, int, int)) -> (int, int, int) {
    norm3((t.0 + t.2, t.0 + t.1, t.1 + t.2))
}

/// Rotation by 60 degrees clockwise:
/// image under i -> (1,0,1), j -> (1,1,0), k -> (0,1,1).
pub open spec fn rot60cw_s(t: (int, int, int)) -> (int, int, int) {
    norm3((t.0 + t.1, t.1 + t.2, t.0 + t.2))
}

/// The neighbor of a cell in the direction of digit d; digit 0 and the
/// invalid digit leave the coordinate unchanged.
pub open spec fn neighbor3(t: (int, int, int), d: int) -> (int, int, int) {
    if 1 <= d <= 6 {
        norm3(add3(t, unit_vec3(d)))
    } else {
        t
    }
}

/// Hex grid distance between two triples: largest component magnitude of the
/// normalized difference.
pub open spec fn dist3(a: (int, int, int), b: (int, int, int)) -> int {
    let d = norm3(sub3(a, b));
    max3(d.0, d.1, d.2)
}

/// Sets an IJK coordinate to the specified component values.
pub fn _setIJK(ijk: &mut CoordIJK, i: i32, j: i32, k: i32)
    ensures
        view3(*final(ijk)) == (i as int, j as int, k as int),
{
    ijk.i = i;
    ijk.j = j;
    ijk.k = k;
}

/// Whether two IJK coordinates contain exactly the same component values.
pub fn _ijkMatches(c1: CoordIJK, c2: CoordIJK) -> (r: bool)
    ensures
        r <==> view3(c1) == view3(c2),
{
    c1.i == c2.i && c1.j == c2.j && c1.k == c2.k
}

/// Adds two IJK coordinates into `sum`.
pub fn _ijkAdd(h1: CoordIJK, h2: CoordIJK, sum: &mut CoordIJK)
    requires
        bounded3(view3(h1), 0x4000_0000),
        bounded3(view3(h2), 0x3fff_ffff),
    ensures
        view3(*final(sum)) == add3(view3(h1), view3(h2)),
{
    sum.i = h1.i + h2.i;
    sum.j = h1.j + h2.j;
    sum.k = h1.k + h2.k;
}

/// Subtracts two IJK coordinates into `diff` (h1 - h2).
pub fn _ijkSub(h1: CoordIJK, h2: CoordIJK, diff: &mut CoordIJK)
    requires
        bounded3(view3(h1), 0x4000_0000),
        bounded3(view3(h2), 0x3fff_ffff),
    ensures
        view3(*final(diff)) == sub3(view3(h1), view3(h2)),
{
    diff.i = h1.i - h2.i;
    diff.j = h1.j - h2.j;
    diff.k = h1.k - h2.k;
}

/// Uniformly scales IJK coordinates by a scalar.  Works in place.
pub fn _ijkScale(c: &mut CoordIJK, factor: i32)
    requires
        bounded3(view3(*old(c)), 4),
        -0x0200_0000 <= factor as int <= 0x0200_0000,
    ensures
        view3(*final(c)) == scale3(view3(*old(c)), factor as int),
{
    proof {
        assert(-0x0800_0000 <= c.i as int * factor as int <= 0x0800_0000
            && -0x0800_0000 <= c.j as int * factor as int <= 0x0800_0000
            && -0x0800_0000 <= c.k as int * factor as int <= 0x0800_0000) by (nonlinear_arith)
            requires
                bounded3(view3(*c), 4),
                -0x0200_0000 <= factor as int <= 0x0200_0000,
        ;
    }
    c.i *= factor;
    c.j *= factor;
    c.k *= factor;
}

/// Normalizes IJK coordinates to their canonical "+" form by folding negative
/// components into the other two axes and removing the componentwise minimum.
/// Works in place.
pub fn _ijkNormalize(c: &mut CoordIJK)
    requires
        bounded3(view3(*old(c)), 0x3000_0000),
    ensures
        view3(*final(c)) == norm3(view3(*old(c))),
{
    let mut i: i64 = c.i as i64;
    let mut j: i64 = c.j as i64;
    let mut k: i64 = c.k as i64;

    // remove any negative values
    if i < 0 {
        j = j - i;
        k = k - i;
        i = 0;
    }

    if j < 0 {
        i = i - j;
        k = k - j;
        j = 0;
    }

    if k < 0 {
        i = i - k;
        j = j - k;
        k = 0;
    }

    // remove the min value if needed
    let mut min: i64 = i;
    if j < min {
        min = j;
    }
    if k < min {
        min = k;
    }
    if min > 0 {
        i = i - min;
        j = j - min;
        k = k - min;
    }

    c.i = i as i32;
    c.j = j as i32;
    c.k = k as i32;
}

/// The IJK unit vector of a digit.
pub fn unit_vector(d: Direction) -> (r: CoordIJK)
    ensures
        view3(r) == unit_vec3(digit_val(d)),
{
    match d {
        Direction::CENTER_DIGIT => CoordIJK { i: 0, j: 0, k: 0 },
        Direction::K_AXES_DIGIT => CoordIJK { i: 0, j: 0, k: 1 },
        Direction::J_AXES_DIGIT => CoordIJK { i: 0, j: 1, k: 0 },
        Direction::JK_AXES_DIGIT => CoordIJK { i: 0, j: 1, k: 1 },
        Direction::I_AXES_DIGIT => CoordIJK { i: 1, j: 0, k: 0 },
        Direction::IK_AXES_DIGIT => CoordIJK { i: 1, j: 0, k: 1 },
        Direction::IJ_AXES_DIGIT => CoordIJK { i: 1, j: 1, k: 0 },
        Direction::INVALID_DIGIT => CoordIJK { i: 0, j: 0, k: 0 },
    }
}

/// Determines the digit corresponding to a unit vector in IJK coordinates,
/// comparing the normalized input against the seven unit vectors.
pub fn _unitIjkToDigit(ijk: CoordIJK) -> (r: Direction)
    requires
        bounded3(view3(ijk), 0x2000_0000),
    ensures
        digit_val(r) == unit_digit3(norm3(view3(ijk))),
{
    let mut c = ijk;
    _ijkNormalize(&mut c);
    if c.i == 0 && c.j == 0 && c.k == 0 {
        Direction::CENTER_DIGIT
    } else if c.i == 0 && c.j == 0 && c.k == 1 {
        Direction::K_AXES_DIGIT
    } else if c.i == 0 && c.j == 1 && c.k == 0 {
        Direction::J_AXES_DIGIT
    } else if c.i == 0 && c.j == 1 && c.k == 1 {
        Direction::JK_AXES_DIGIT
    } else if c.i == 1 && c.j == 0 && c.k == 0 {
        Direction::I_AXES_DIGIT
    } else if c.i == 1 && c.j == 0 && c.k == 1 {
        Direction::IK_AXES_DIGIT
    } else if c.i == 1 && c.j == 1 && c.k == 0 {
        Direction::IJ_AXES_DIGIT
    } else {
        Direction::INVALID_DIGIT
    }
}

/// Rounded quotient by 7, halves away from zero.
fn round_div7(n: i32) -> (r: i32)
    requires
        -0x4000_0000 <= n as int <= 0x4000_0000,
    ensures
        r as int == rnd7(n as int),
{
    if n >= 0 {
        (n + 3) / 7
    } else {
        let m: i32 = -n;
        -((m + 3) / 7)
    }
}

/// Finds the normalized IJK coordinates of the indexing parent of a cell in a
/// counter-clockwise aperture-7 grid.  Works in place.
pub fn _upAp7(ijk: &mut CoordIJK)
    requires
        bounded3(view3(*old(ijk)), 0x0800_0000),
    ensures
        view3(*final(ijk)) == up_ap7_s(view3(*old(ijk))),
{
    // convert to axial coordinates
    let i: i32 = ijk.i - ijk.k;
    let j: i32 = ijk.j - ijk.k;

    ijk.i = round_div7(3 * i - j);
    ijk.j = round_div7(i + 2 * j);
    ijk.k = 0;
    _ijkNormalize(ijk);
}

/// Finds the normalized IJK coordinates of the indexing parent of a cell in a
/// clockwise aperture-7 grid.  Works in place.
pub fn _upAp7r(ijk: &mut CoordIJK)
    requires
        bounded3(view3(*old(ijk)), 0x0800_0000),
    ensures
        view3(*final(ijk)) == up_ap7r_s(view3(*old(ijk))),
{
    // convert to axial coordinates
    let i: i32 = ijk.i - ijk.k;
    let j: i32 = ijk.j - ijk.k;

    ijk.i = round_div7(2 * i + j);
    ijk.j = round_div7(3 * j - i);
    ijk.k = 0;
    _ijkNormalize(ijk);
}

/// Finds the normalized IJK coordinates of the hex centered on the indicated
/// hex at the next finer aperture-7 counter-clockwise resolution.  Works in
/// place.
pub fn _downAp7(ijk: &mut CoordIJK)
    requires
        bounded3(view3(*old(ijk)), 0x0800_0000),
    ensures
        view3(*final(ijk)) == down_ap7_s(view3(*old(ijk))),
{
    let i: i64 = 3 * (ijk.i as i64) + (ijk.j as i64);
    let j: i64 = 3 * (ijk.j as i64) + (ijk.k as i64);
    let k: i64 = (ijk.i as i64) + 3 * (ijk.k as i64);
    ijk.i = i as i32;
    ijk.j = j as i32;
    ijk.k = k as i32;
    _ijkNormalize(ijk);
}

/// Finds the normalized IJK coordinates of the hex centered on the indicated
/// hex at the next finer aperture-7 clockwise resolution.  Works in place.
pub fn _downAp7r(ijk: &mut CoordIJK)
    requires
        bounded3(view3(*old(ijk)), 0x0800_0000),
    ensures
        view3(*final(ijk)) == down_ap7r_s(view3(*old(ijk))),
{
    let i: i64 = 3 * (ijk.i as i64) + (ijk.k as i64);
    let j: i64 = (ijk.i as i64) + 3 * (ijk.j as i64);
    let k: i64 = (ijk.j as i64) + 3 * (ijk.k as i64);
    ijk.i = i as i32;
    ijk.j = j as i32;
    ijk.k = k as i32;
    _ijkNormalize(ijk);
}

/// Finds the normalized IJK coordinates of the hex centered on the indicated
/// hex at the next finer aperture-3 counter-clockwise resolution.  Works in
/// place.
pub fn _downAp3(ijk: &mut CoordIJK)
    requires
        bounded3(view3(*old(ijk)), 0x0800_0000),
    ensures
        view3(*final(ijk)) == down_ap3_s(view3(*old(ijk))),
{
    let i: i64 = 2 * (ijk.i as i64) + (ijk.j as i64);
    let j: i64 = 2 * (ijk.j as i64) + (ijk.k as i64);
    let k: i64 = (ijk.i as i64) + 2 * (ijk.k as i64);
    ijk.i = i as i32;
    ijk.j = j as i32;
    ijk.k = k as i32;
    _ijkNormalize(ijk);
}

/// Finds the normalized IJK coordinates of the hex centered on the indicated
/// hex at the next finer aperture-3 clockwise resolution.  Works in place.
pub fn _downAp3r(ijk: &mut CoordIJK)
    requires
        bounded3(view3(*old(ijk)), 0x0800_0000),
    ensures
        view3(*final(ijk)) == down_ap3r_s(view3(*old(ijk))),
{
    let i: i64 = 2 * (ijk.i as i64) + (ijk.k as i64);
    let j: i64 = (ijk.i as i64) + 2 * (ijk.j as i64);
    let k: i64 = (ijk.j as i64) + 2 * (ijk.k as i64);
    ijk.i = i as i32;
    ijk.j = j as i32;
    ijk.k = k as i32;
    _ijkNormalize(ijk);
}

/// Finds the normalized IJK coordinates of the hex in the specified digit
/// direction from the given coordinates.  Works in place.
pub fn _neighbor(ijk: &mut CoordIJK, digit: Direction)
    requires
        bounded3(view3(*old(ijk)), 0x0800_0000),
    ensures
        view3(*final(ijk)) == neighbor3(view3(*old(ijk)), digit_val(digit)),
{
    let v: u8 = direction_value(digit);
    if 1 <= v && v <= 6 {
        let uv = unit_vector(digit);
        let mut sum = CoordIJK { i: 0, j: 0, k: 0 };
        _ijkAdd(*ijk, uv, &mut sum);
        *ijk = sum;
        _ijkNormalize(ijk);
    }
}

/// Rotates IJK coordinates 60 degrees counter-clockwise.  Works in place.
pub fn _ijkRotate60ccw(ijk: &mut CoordIJK)
    requires
        bounded3(view3(*old(ijk)), 0x1800_0000),
    ensures
        view3(*final(ijk)) == rot60ccw_s(view3(*old(ijk))),
{
    let i: i32 = ijk.i + ijk.k;
    let j: i32 = ijk.i + ijk.j;
    let k: i32 = ijk.j + ijk.k;
    ijk.i = i;
    ijk.j = j;
    ijk.k = k;
    _ijkNormalize(ijk);
}

/// Rotates IJK coordinates 60 degrees clockwise.  Works in place.
pub fn _ijkRotate60cw(ijk: &mut CoordIJK)
    requires
        bounded3(view3(*old(ijk)), 0x1800_0000),
    ensures
        view3(*final(ijk)) == rot60cw_s(view3(*old(ijk))),
{
    let i: i32 = ijk.i + ijk.j;
    let j: i32 = ijk.j + ijk.k;
    let k: i32 = ijk.i + ijk.k;
    ijk.i = i;
    ijk.j = j;
    ijk.k = k;
    _ijkNormalize(ijk);
}

/// The cyclic permutation a digit undergoes when the cell is rotated 60
/// degrees counter-clockwise: 1 -> 5 -> 4 -> 6 -> 2 -> 3 -> 1, center fixed.
pub open spec fn rot_digit_ccw(d: Direction) -> Direction {
    match d {
        Direction::CENTER_DIGIT => Direction::CENTER_DIGIT,
        Direction::K_AXES_DIGIT => Direction::IK_AXES_DIGIT,
        Direction::IK_AXES_DIGIT => Direction::I_AXES_DIGIT,
        Direction::I_AXES_DIGIT => Direction::IJ_AXES_DIGIT,
        Direction::IJ_AXES_DIGIT => Direction::J_AXES_DIGIT,
        Direction::J_AXES_DIGIT => Direction::JK_AXES_DIGIT,
        Direction::JK_AXES_DIGIT => Direction::K_AXES_DIGIT,
        Direction::INVALID_DIGIT => Direction::INVALID_DIGIT,
    }
}

/// The cyclic permutation a digit undergoes when the cell is rotated 60
/// degrees clockwise: the inverse of [`rot_digit_ccw`].
pub open spec fn rot_digit_cw(d: Direction) -> Direction {
    match d {
        Direction::CENTER_DIGIT => Direction::CENTER_DIGIT,
        Direction::K_AXES_DIGIT => Direction::JK_AXES_DIGIT,
        Direction::JK_AXES_DIGIT => Direction::J_AXES_DIGIT,
        Direction::J_AXES_DIGIT => Direction::IJ_AXES_DIGIT,
        Direction::IJ_AXES_DIGIT => Direction::I_AXES_DIGIT,
        Direction::I_AXES_DIGIT => Direction::IK_AXES_DIGIT,
        Direction::IK_AXES_DIGIT => Direction::K_AXES_DIGIT,
        Direction::INVALID_DIGIT => Direction::INVALID_DIGIT,
    }
}

/// Rotates an indexing digit 60 degrees counter-clockwise.  The invalid digit
/// marks a caller error and is excluded.
pub fn _rotate60ccw(digit: Direction) -> (r: Direction)
    requires
        digit != Direction::INVALID_DIGIT,
    ensures
        r == rot_digit_ccw(digit),
{
    match digit {
        Direction::CENTER_DIGIT => Direction::CENTER_DIGIT,
        Direction::K_AXES_DIGIT => Direction::IK_AXES_DIGIT,
        Direction::IK_AXES_DIGIT => Direction::I_AXES_DIGIT,
        Direction::I_AXES_DIGIT => Direction::IJ_AXES_DIGIT,
        Direction::IJ_AXES_DIGIT => Direction::J_AXES_DIGIT,
        Direction::J_AXES_DIGIT => Direction::JK_AXES_DIGIT,
        Direction::JK_AXES_DIGIT => Direction::K_AXES_DIGIT,
        Direction::INVALID_DIGIT => Direction::INVALID_DIGIT,
    }
}

/// Rotates an indexing digit 60 degrees clockwise.  The invalid digit marks a
/// caller error and is excluded.
pub fn _rotate60cw(digit: Direction) -> (r: Direction)
    requires
        digit != Direction::INVALID_DIGIT,
    ensures
        r == rot_digit_cw(digit),
{
    match digit {
        Direction::CENTER_DIGIT => Direction::CENTER_DIGIT,
        Direction::K_AXES_DIGIT => Direction::JK_AXES_DIGIT,
        Direction::JK_AXES_DIGIT => Direction::J_AXES_DIGIT,
        Direction::J_AXES_DIGIT => Direction::IJ_AXES_DIGIT,
        Direction::IJ_AXES_DIGIT => Direction::I_AXES_DIGIT,
        Direction::I_AXES_DIGIT => Direction::IK_AXES_DIGIT,
        Direction::IK_AXES_DIGIT => Direction::K_AXES_DIGIT,
        Direction::INVALID_DIGIT => Direction::INVALID_DIGIT,
    }
}

/// Finds the hex-grid distance between two IJK coordinates.
pub fn ijkDistance(c1: CoordIJK, c2: CoordIJK) -> (r: i32)
    requires
        bounded3(view3(c1), 0x0800_0000),
        bounded3(view3(c2), 0x0800_0000),
    ensures
        r as int == dist3(view3(c1), view3(c2)),
        r >= 0,
{
    let mut diff = CoordIJK { i: 0, j: 0, k: 0 };
    _ijkSub(c1, c2, &mut diff);
    _ijkNormalize(&mut diff);
    let mut m: i32 = diff.i;
    if diff.j > m {
        m = diff.j;
    }
    if diff.k > m {
        m = diff.k;
    }
    m
}

/// Transforms IJK+ coordinates to the axial IJ coordinate system.
pub fn ijkToIj(ijk: CoordIJK, ij: &mut CoordIJ)
    requires
        bounded3(view3(ijk), 0x2000_0000),
    ensures
        final(ij).i as int == ijk.i - ijk.k,
        final(ij).j as int == ijk.j - ijk.k,
{
    ij.i = ijk.i - ijk.k;
    ij.j = ijk.j - ijk.k;
}

/// Transforms axial IJ coordinates to the normalized IJK+ system.
pub fn ijToIjk(ij: CoordIJ, ijk: &mut CoordIJK)
    requires
        -0x1000_0000 <= ij.i as int <= 0x1000_0000,
        -0x1000_0000 <= ij.j as int <= 0x1000_0000,
    ensures
        view3(*final(ijk)) == norm3((ij.i as int, ij.j as int, 0)),
{
    ijk.i = ij.i;
    ijk.j = ij.j;
    ijk.k = 0;

    _ijkNormalize(ijk);
}

/// Converts IJK coordinates to cube coordinates, in place.
pub fn ijkToCube(ijk: &mut CoordIJK)
    requires
        bounded3(view3(*old(ijk)), 0x2000_0000),
    ensures
        final(ijk).i as int == -old(ijk).i + old(ijk).k,
        final(ijk).j as int == old(ijk).j - old(ijk).k,
        final(ijk).k as int == old(ijk).i - old(ijk).j,
{
    ijk.i = -ijk.i + ijk.k;
    ijk.j = ijk.j - ijk.k;
    ijk.k = -ijk.i - ijk.j;
}

/// Converts cube coordinates to normalized IJK coordinates, in place.
pub fn cubeToIjk(ijk: &mut CoordIJK)
    requires
        bounded3(view3(*old(ijk)), 0x1000_0000),
    ensures
        view3(*final(ijk)) == norm3((-old(ijk).i as int, old(ijk).j as int, 0)),
{
    ijk.i = -ijk.i;
    ijk.k = 0;
    _ijkNormalize(ijk);
}

/// Normalization is idempotent and always lands on the canonical "+" form:
/// the result has componentwise minimum zero, and normalizing a normalized
/// triple changes nothing.
pub proof fn lemma_normalize_idempotent(t: (int, int, int))
    ensures
        min3(norm3(t).0, norm3(t).1, norm3(t).2) == 0,
        norm3(norm3(t)) == norm3(t),
{
}

/// Normalization preserves the hex-lattice point a triple denotes: the axial
/// (IJ) flattening, obtained by subtracting the k component, is unchanged.
pub proof fn lemma_normalize_preserves_axial(t: (int, int, int))
    ensures
        norm3(t).0 - norm3(t).2 == t.0 - t.2,
        norm3(t).1 - norm3(t).2 == t.1 - t.2,
{
}

/// Six counter-clockwise digit rotations are the identity, and a clockwise
/// rotation undoes a counter-clockwise one (and conversely), for every digit.
pub proof fn lemma_digit_rotations(d: Direction)
    ensures
        rot_digit_ccw(rot_digit_ccw(rot_digit_ccw(rot_digit_ccw(rot_digit_ccw(rot_digit_ccw(d))))))
            == d,
        rot_digit_cw(rot_digit_ccw(d)) == d,
        rot_digit_ccw(rot_digit_cw(d)) == d,
{
}

/// Each of the seven unit vectors maps back to its own digit, and the unit
/// vectors are the only normalized triples that name a digit at all.
pub proof fn lemma_unit_vector_digits(d: int, t: (int, int, int))
    ensures
        0 <= d <= 6 ==> unit_digit3(unit_vec3(d)) == d,
        (forall|e: int| 0 <= e <= 6 ==> t != unit_vec3(e)) ==> unit_digit3(t) == 7,
{
    if unit_digit3(t) != 7 {
        assert(t == unit_vec3(unit_digit3(t)));
    }
}


/// The axial (IJ) flattening of a triple: subtract the k component.
pub open spec fn axial3(t: (int, int, int)) -> (int, int) {
    (t.0 - t.2, t.1 - t.2)
}

/// n-fold 60-degree counter-clockwise rotation.
pub open spec fn rotn_ccw(t: (int, int, int), n: int) -> (int, int, int)
    decreases n,
{
    if n <= 0 {
        t
    } else {
        rot60ccw_s(rotn_ccw(t, n - 1))
    }
}

/// A normalized triple is a function of its axial flattening alone:
/// (p - m, q - m, -m) for m = min(p, q, 0).  Hence bounds on the axial
/// components bound the normalized components.
pub proof fn lemma_norm3_from_axial(x: (int, int, int), s: int)
    requires
        s >= 0,
        -s <= axial3(x).0 <= s,
        -s <= axial3(x).1 <= s,
    ensures
        nonneg3(norm3(x)),
        bounded3(norm3(x), 2 * s),
        norm3(x).0 - norm3(x).2 == axial3(x).0,
        norm3(x).1 - norm3(x).2 == axial3(x).1,
{
}

/// In axial terms a ccw rotation maps (p, q) to (p - q, p), and a cw
/// rotation maps (p, q) to (q, q - p).
pub proof fn lemma_rot60_axial(t: (int, int, int))
    ensures
        axial3(rot60ccw_s(t)) == (axial3(t).0 - axial3(t).1, axial3(t).0),
        axial3(rot60cw_s(t)) == (axial3(t).1, axial3(t).1 - axial3(t).0),
{
}

/// The box |p| <= s, |q| <= s, |p - q| <= s on the axial components is
/// closed under 60-degree rotation, so any number of rotations keeps the
/// normalized components within [0, 2s].
pub proof fn lemma_rotn_ccw_axial_bound(t: (int, int, int), n: int, s: int)
    requires
        n >= 0,
        s >= 0,
        -s <= axial3(t).0 <= s,
        -s <= axial3(t).1 <= s,
        -s <= axial3(t).0 - axial3(t).1 <= s,
    ensures
        -s <= axial3(rotn_ccw(t, n)).0 <= s,
        -s <= axial3(rotn_ccw(t, n)).1 <= s,
        -s <= axial3(rotn_ccw(t, n)).0 - axial3(rotn_ccw(t, n)).1 <= s,
        n >= 1 ==> nonneg3(rotn_ccw(t, n)) && bounded3(rotn_ccw(t, n), 2 * s),
    decreases n,
{
    if n > 0 {
        lemma_rotn_ccw_axial_bound(t, n - 1, s);
        let u = rotn_ccw(t, n - 1);
        lemma_rot60_axial(u);
        lemma_norm3_from_axial((u.0 + u.2, u.0 + u.1, u.1 + u.2), s);
    }
}


/// The rounded quotient by seven differs from the exact quotient by at most
/// three sevenths: n - 7 * rnd7(n) lies in [-3, 3].
pub proof fn lemma_rnd7_bounds(n: int)
    ensures
        -3 <= n - 7 * rnd7(n) <= 3,
{
    if n >= 0 {
        vstd::arithmetic::div_mod::lemma_fundamental_div_mod(n + 3, 7);
        vstd::arithmetic::div_mod::lemma_mod_bound(n + 3, 7);
    } else {
        vstd::arithmetic::div_mod::lemma_fundamental_div_mod(3 - n, 7);
        vstd::arithmetic::div_mod::lemma_mod_bound(3 - n, 7);
    }
}

/// Moving up one aperture-7 level shrinks the axial components: a bound on
/// the axial components of the input bounds those of the parent, and the
/// parent's normalized components stay within twice that bound.
pub proof fn lemma_up_ap7_axial(t: (int, int, int), a: int)
    requires
        a >= 1,
        -a <= axial3(t).0 <= a,
        -a <= axial3(t).1 <= a,
    ensures
        -a <= axial3(up_ap7_s(t)).0 <= a,
        -a <= axial3(up_ap7_s(t)).1 <= a,
        -a <= axial3(up_ap7r_s(t)).0 <= a,
        -a <= axial3(up_ap7r_s(t)).1 <= a,
        nonneg3(up_ap7_s(t)) && bounded3(up_ap7_s(t), 2 * a),
        nonneg3(up_ap7r_s(t)) && bounded3(up_ap7r_s(t), 2 * a),
{
    let p = axial3(t).0;
    let q = axial3(t).1;
    lemma_rnd7_bounds(3 * p - q);
    lemma_rnd7_bounds(p + 2 * q);
    lemma_rnd7_bounds(2 * p + q);
    lemma_rnd7_bounds(3 * q - p);
    lemma_norm3_from_axial((rnd7(3 * p - q), rnd7(p + 2 * q), 0), a);
    lemma_norm3_from_axial((rnd7(2 * p + q), rnd7(3 * q - p), 0), a);
}

/// The cell an aperture-7 ccw parent centers on, seen back in the child
/// grid, differs from the child by exactly one of the seven unit vectors:
/// the rounding remainders cannot push the difference further.
pub proof fn lemma_up7_down7_diff(t: (int, int, int))
    ensures
        0 <= unit_digit3(norm3(sub3(t, down_ap7_s(up_ap7_s(t))))) <= 6,
{
    let p = axial3(t).0;
    let q = axial3(t).1;
    let u = 3 * p - q;
    let v = p + 2 * q;
    let a = rnd7(u);
    let b = rnd7(v);
    lemma_rnd7_bounds(u);
    lemma_rnd7_bounds(v);
    let sr = u - 7 * a;
    let w = v - 7 * b;
    let up = up_ap7_s(t);
    assert(axial3(up) == (a, b));
    let dn = down_ap7_s(up);
    assert(axial3(dn) == (2 * a + b, 3 * b - a));
    let diff = sub3(t, dn);
    let d0 = axial3(diff).0;
    let d1 = axial3(diff).1;
    assert(7 * d0 == 2 * sr + w);
    assert(7 * d1 == 3 * w - sr);
    assert(-1 <= d0 <= 1);
    assert(-1 <= d1 <= 1);
    assert(!(d0 == 1 && d1 == -1));
    assert(!(d0 == -1 && d1 == 1));
}

/// The clockwise variant of [`lemma_up7_down7_diff`].
pub proof fn lemma_up7r_down7r_diff(t: (int, int, int))
    ensures
        0 <= unit_digit3(norm3(sub3(t, down_ap7r_s(up_ap7r_s(t))))) <= 6,
{
    let p = axial3(t).0;
    let q = axial3(t).1;
    let u = 2 * p + q;
    let v = 3 * q - p;
    let a = rnd7(u);
    let b = rnd7(v);
    lemma_rnd7_bounds(u);
    lemma_rnd7_bounds(v);
    let sr = u - 7 * a;
    let w = v - 7 * b;
    let up = up_ap7r_s(t);
    assert(axial3(up) == (a, b));
    let dn = down_ap7r_s(up);
    assert(axial3(dn) == (3 * a - b, a + 2 * b));
    let diff = sub3(t, dn);
    let d0 = axial3(diff).0;
    let d1 = axial3(diff).1;
    assert(7 * d0 == 3 * sr - w);
    assert(7 * d1 == sr + 2 * w);
    assert(-1 <= d0 <= 1);
    assert(-1 <= d1 <= 1);
    assert(!(d0 == 1 && d1 == -1));
    assert(!(d0 == -1 && d1 == 1));
}


/// Wide IJK coordinates used internally while a cell is walked down from its
/// base cell, where intermediate bounds are easiest stated in 64 bits.
#[derive(Copy, Clone, PartialEq, Eq, Structural, Debug)]
pub(crate) struct CoordIJK64 {
    pub i: i64,
    pub j: i64,
    pub k: i64,
}

/// Mathematical view of a wide coordinate.
pub(crate) open spec fn view64(c: CoordIJK64) -> (int, int, int) {
    (c.i as int, c.j as int, c.k as int)
}

/// Normalizes a wide coordinate to the canonical "+" form.
pub(crate) fn normalize64(c: &mut CoordIJK64)
    requires
        bounded3(view64(*old(c)), 0x0400_0000_0000_0000),
    ensures
        view64(*final(c)) == norm3(view64(*old(c))),
{
    if c.i < 0 {
        c.j = c.j - c.i;
        c.k = c.k - c.i;
        c.i = 0;
    }
    if c.j < 0 {
        c.i = c.i - c.j;
        c.k = c.k - c.j;
        c.j = 0;
    }
    if c.k < 0 {
        c.i = c.i - c.k;
        c.j = c.j - c.k;
        c.k = 0;
    }
    let mut min: i64 = c.i;
    if c.j < min {
        min = c.j;
    }
    if c.k < min {
        min = c.k;
    }
    if min > 0 {
        c.i = c.i - min;
        c.j = c.j - min;
        c.k = c.k - min;
    }
}

/// Wide aperture-7 counter-clockwise child-grid center.
pub(crate) fn down_ap7_64(c: &mut CoordIJK64)
    requires
        bounded3(view64(*old(c)), 0x0100_0000_0000_0000),
    ensures
        view64(*final(c)) == down_ap7_s(view64(*old(c))),
{
    let i: i64 = 3 * c.i + c.j;
    let j: i64 = 3 * c.j + c.k;
    let k: i64 = c.i + 3 * c.k;
    c.i = i;
    c.j = j;
    c.k = k;
    normalize64(c);
}

/// Wide aperture-7 clockwise child-grid center.
pub(crate) fn down_ap7r_64(c: &mut CoordIJK64)
    requires
        bounded3(view64(*old(c)), 0x0100_0000_0000_0000),
    ensures
        view64(*final(c)) == down_ap7r_s(view64(*old(c))),
{
    let i: i64 = 3 * c.i + c.k;
    let j: i64 = c.i + 3 * c.j;
    let k: i64 = c.j + 3 * c.k;
    c.i = i;
    c.j = j;
    c.k = k;
    normalize64(c);
}

/// Wide neighbor step: add the digit's unit vector and normalize; the center
/// and invalid digits leave the coordinate unchanged.
pub(crate) fn neighbor64(c: &mut CoordIJK64, digit: Direction)
    requires
        bounded3(view64(*old(c)), 0x0100_0000_0000_0000),
    ensures
        view64(*final(c)) == neighbor3(view64(*old(c)), digit_val(digit)),
{
    let v: u8 = direction_value(digit);
    if 1 <= v && v <= 6 {
        let uv = unit_vector(digit);
        c.i = c.i + uv.i as i64;
        c.j = c.j + uv.j as i64;
        c.k = c.k + uv.k as i64;
        normalize64(c);
    }
}


/// Triples with equal axial flattenings normalize to the same canonical
/// form.
pub proof fn lemma_norm3_axial_eq(x: (int, int, int), y: (int, int, int))
    requires
        axial3(x) == axial3(y),
    ensures
        norm3(x) == norm3(y),
{
}

/// The rounded quotient recovers an exact factor through a disturbance of at
/// most three.
pub proof fn lemma_rnd7_exact(x: int, e: int)
    requires
        -3 <= e <= 3,
    ensures
        rnd7(7 * x + e) == x,
{
    lemma_rnd7_bounds(7 * x + e);
}

/// Stepping to an aperture-7 counter-clockwise child and back inverts
/// exactly: descending to the child grid, moving to the child named by a
/// digit, and taking the aperture-7 parent recovers the original cell; and
/// comparing that child against its parent's center recovers the digit.
/// This is the level-by-level round trip between an index's digits and grid
/// coordinates.
#[verifier::rlimit(100)]
#[verifier::spinoff_prover]
pub proof fn lemma_child_step_inverse(t: (int, int, int), d: int)
    requires
        0 <= d <= 6,
    ensures
        up_ap7_s(neighbor3(down_ap7_s(t), d)) == norm3(t),
        unit_digit3(
            norm3(
                sub3(
                    neighbor3(down_ap7_s(t), d),
                    down_ap7_s(up_ap7_s(neighbor3(down_ap7_s(t), d))),
                ),
            ),
        ) == d,
{
    let p = axial3(t).0;
    let q = axial3(t).1;
    let u = unit_vec3(d);
    let du0 = u.0 - u.2;
    let du1 = u.1 - u.2;
    lemma_rnd7_exact(p, 3 * du0 - du1);
    lemma_rnd7_exact(q, du0 + 2 * du1);

    let child = neighbor3(down_ap7_s(t), d);
    assert(axial3(child) == (2 * p + q + du0, 3 * q - p + du1));
    let back = up_ap7_s(child);
    assert(axial3(back) == (p, q));
    lemma_norm3_axial_eq(back, t);
    let center = down_ap7_s(back);
    assert(axial3(sub3(child, center)) == (du0, du1));
    lemma_norm3_axial_eq(sub3(child, center), u);
    assert(norm3(u) == u);
    lemma_unit_vector_digits(d, u);
}

/// The clockwise variant of [`lemma_child_step_inverse`].
#[verifier::rlimit(100)]
#[verifier::spinoff_prover]
pub proof fn lemma_child_step_inverse_r(t: (int, int, int), d: int)
    requires
        0 <= d <= 6,
    ensures
        up_ap7r_s(neighbor3(down_ap7r_s(t), d)) == norm3(t),
        unit_digit3(
            norm3(
                sub3(
                    neighbor3(down_ap7r_s(t), d),
                    down_ap7r_s(up_ap7r_s(neighbor3(down_ap7r_s(t), d))),
                ),
            ),
        ) == d,
{
    let p = axial3(t).0;
    let q = axial3(t).1;
    let u = unit_vec3(d);
    let du0 = u.0 - u.2;
    let du1 = u.1 - u.2;
    lemma_rnd7_exact(p, 2 * du0 + du1);
    lemma_rnd7_exact(q, 3 * du1 - du0);

    let child_r = neighbor3(down_ap7r_s(t), d);
    assert(axial3(child_r) == (3 * p - q + du0, p + 2 * q + du1));
    let back_r = up_ap7r_s(child_r);
    assert(axial3(back_r) == (p, q));
    lemma_norm3_axial_eq(back_r, t);
    let center_r = down_ap7r_s(back_r);
    assert(axial3(sub3(child_r, center_r)) == (du0, du1));
    lemma_norm3_axial_eq(sub3(child_r, center_r), u);
    assert(norm3(u) == u);
    lemma_unit_vector_digits(d, u);
}

} // verus!
