use h3grid::coordijk::{
    CoordIJK, Direction, _downAp3, _downAp3r, _downAp7, _downAp7r, _ijkAdd, _ijkMatches,
    _ijkRotate60ccw, _ijkRotate60cw, _ijkScale, _ijkSub, _neighbor, _setIJK, _upAp7, _upAp7r,
    cubeToIjk, direction_value, ijToIjk, ijkToCube, ijkToIj,
};
use h3grid::h3api::{CoordIJ, H3Error};
use h3grid::h3index::{
    getResolution, isValidCell, makeDirectChild, setH3Index, _h3LeadingNonZeroDigit,
    _h3Rotate60ccw, _h3Rotate60cw, _hasChildAtRes, _zeroIndexDigits, H3_GET_INDEX_DIGIT,
    H3_SET_INDEX_DIGIT,
};

const SF_CELL: u64 = 0x8928308280fffff;

#[test]
fn up_undoes_down_on_centers() {
    let samples = [
        CoordIJK { i: 0, j: 0, k: 0 },
        CoordIJK { i: 1, j: 0, k: 0 },
        CoordIJK { i: 0, j: 2, k: 1 },
        CoordIJK { i: 5, j: 3, k: 0 },
        CoordIJK { i: 12, j: 0, k: 7 },
    ];
    for s in samples {
        let mut c = s;
        _downAp7(&mut c);
        _upAp7(&mut c);
        let mut n = s;
        h3grid::coordijk::_ijkNormalize(&mut n);
        assert!(_ijkMatches(c, n), "ap7 round trip of {s:?}");

        let mut c2 = s;
        _downAp7r(&mut c2);
        _upAp7r(&mut c2);
        assert!(_ijkMatches(c2, n), "ap7r round trip of {s:?}");
    }
}

#[test]
fn down_transforms_of_unit_i() {
    let mut c = CoordIJK { i: 1, j: 0, k: 0 };
    _downAp7(&mut c);
    assert_eq!((c.i, c.j, c.k), (3, 0, 1));
    let mut c = CoordIJK { i: 1, j: 0, k: 0 };
    _downAp7r(&mut c);
    assert_eq!((c.i, c.j, c.k), (3, 1, 0));
    let mut c = CoordIJK { i: 1, j: 0, k: 0 };
    _downAp3(&mut c);
    assert_eq!((c.i, c.j, c.k), (2, 0, 1));
    let mut c = CoordIJK { i: 1, j: 0, k: 0 };
    _downAp3r(&mut c);
    assert_eq!((c.i, c.j, c.k), (2, 1, 0));
}

#[test]
fn coordinate_rotations_cycle() {
    let s = CoordIJK { i: 3, j: 1, k: 0 };
    let mut c = s;
    for _ in 0..6 {
        _ijkRotate60ccw(&mut c);
    }
    assert!(_ijkMatches(c, s));
    let mut c2 = s;
    _ijkRotate60ccw(&mut c2);
    _ijkRotate60cw(&mut c2);
    assert!(_ijkMatches(c2, s));
}

#[test]
fn neighbor_moves_one_step() {
    let mut c = CoordIJK { i: 0, j: 0, k: 0 };
    _neighbor(&mut c, Direction::I_AXES_DIGIT);
    assert_eq!((c.i, c.j, c.k), (1, 0, 0));
    // the center digit is a no-op
    _neighbor(&mut c, Direction::CENTER_DIGIT);
    assert_eq!((c.i, c.j, c.k), (1, 0, 0));
}

#[test]
fn arithmetic_helpers() {
    let mut sum = CoordIJK { i: 0, j: 0, k: 0 };
    _ijkAdd(CoordIJK { i: 1, j: 2, k: 3 }, CoordIJK { i: 4, j: 5, k: 6 }, &mut sum);
    assert_eq!((sum.i, sum.j, sum.k), (5, 7, 9));
    let mut diff = CoordIJK { i: 0, j: 0, k: 0 };
    _ijkSub(CoordIJK { i: 4, j: 5, k: 6 }, CoordIJK { i: 1, j: 2, k: 3 }, &mut diff);
    assert_eq!((diff.i, diff.j, diff.k), (3, 3, 3));
    let mut c = CoordIJK { i: 1, j: -2, k: 0 };
    _ijkScale(&mut c, 3);
    assert_eq!((c.i, c.j, c.k), (3, -6, 0));
    let mut set = CoordIJK { i: 0, j: 0, k: 0 };
    _setIJK(&mut set, 9, 8, 7);
    assert_eq!((set.i, set.j, set.k), (9, 8, 7));
}

#[test]
fn axial_and_cube_round_trips() {
    let c = CoordIJK { i: 2, j: 0, k: 1 };
    let mut ij = CoordIJ { i: 0, j: 0 };
    ijkToIj(c, &mut ij);
    assert_eq!((ij.i, ij.j), (1, -1));
    let mut back = CoordIJK { i: 0, j: 0, k: 0 };
    ijToIjk(ij, &mut back);
    let mut n = c;
    h3grid::coordijk::_ijkNormalize(&mut n);
    assert!(_ijkMatches(back, n));

    let mut cube = c;
    ijkToCube(&mut cube);
    cubeToIjk(&mut cube);
    assert!(_ijkMatches(cube, n));
}

#[test]
fn direct_children_carry_their_digit() {
    for num in 0i8..7 {
        let child = makeDirectChild(SF_CELL, num);
        assert_eq!(getResolution(child), 10);
        assert_eq!(direction_value(H3_GET_INDEX_DIGIT(child, 10)), num as u8);
        // all children except the seventh digit value are valid cells
        if num < 7 {
            assert_eq!(isValidCell(child), 1);
        }
    }
}

#[test]
fn has_child_at_res_bounds() {
    assert!(_hasChildAtRes(SF_CELL, 9));
    assert!(_hasChildAtRes(SF_CELL, 15));
    assert!(!_hasChildAtRes(SF_CELL, 8));
    assert!(!_hasChildAtRes(SF_CELL, 16));
}

#[test]
fn zeroing_digits_is_masked_and_bounded() {
    let z = _zeroIndexDigits(SF_CELL, 10, 12);
    for r in 10i8..=12 {
        assert_eq!(direction_value(H3_GET_INDEX_DIGIT(z, r)), 0);
    }
    for r in 1i8..=9 {
        assert_eq!(
            direction_value(H3_GET_INDEX_DIGIT(z, r)),
            direction_value(H3_GET_INDEX_DIGIT(SF_CELL, r))
        );
    }
    // start beyond end is a no-op
    assert_eq!(_zeroIndexDigits(SF_CELL, 12, 10), SF_CELL);
}

#[test]
fn index_rotations_cycle() {
    let r1 = _h3Rotate60ccw(SF_CELL);
    assert_ne!(r1, SF_CELL);
    assert_eq!(_h3Rotate60cw(r1), SF_CELL);
    let mut c = SF_CELL;
    for _ in 0..6 {
        c = _h3Rotate60ccw(c);
    }
    assert_eq!(c, SF_CELL);
}

#[test]
fn leading_non_zero_digit() {
    // all-zero digits lead with the center digit
    let mut h: u64 = 0;
    setH3Index(&mut h, 3, 15, Direction::CENTER_DIGIT);
    assert_eq!(direction_value(_h3LeadingNonZeroDigit(h)), 0);
    // the first non-zero digit is found past leading zeros
    let h2 = H3_SET_INDEX_DIGIT(h, 2, Direction::IK_AXES_DIGIT);
    assert_eq!(direction_value(_h3LeadingNonZeroDigit(h2)), 5);
    let h3 = H3_SET_INDEX_DIGIT(h2, 1, Direction::J_AXES_DIGIT);
    assert_eq!(direction_value(_h3LeadingNonZeroDigit(h3)), 2);
}

#[test]
fn set_h3_index_layout() {
    let mut h: u64 = 0;
    setH3Index(&mut h, 5, 12, Direction::K_AXES_DIGIT);
    assert_eq!(getResolution(h), 5);
    assert_eq!(h3grid::h3index::getBaseCellNumber(h), 12);
    for r in 1i8..=5 {
        assert_eq!(direction_value(H3_GET_INDEX_DIGIT(h, r)), 1);
    }
    for r in 6i8..=15 {
        assert_eq!(direction_value(H3_GET_INDEX_DIGIT(h, r)), 7);
    }
    let mut out: u64 = 0;
    // a K-digit string under a hexagon base cell is a valid cell
    assert_eq!(isValidCell(h), 1);
    assert_eq!(h3grid::h3index::cellToParent(h, 5, &mut out), H3Error::E_SUCCESS);
    assert_eq!(out, h);
}
