use h3grid::coordijk::{
    direction_value, unit_vector, CoordIJK, Direction, _ijkNormalize, _rotate60ccw, _rotate60cw,
    _unitIjkToDigit, ijkDistance,
};
use h3grid::h3api::H3Error;
use h3grid::h3index::{
    cellToCenterChild, cellToChildrenSize, cellToParent, getBaseCellNumber, getResolution,
    isPentagon, isResClassIII, isValidCell, setH3Index, H3_SET_INDEX_DIGIT,
};

const SF_CELL: u64 = 0x8928308280fffff;
const PENT_CELL: u64 = 0x8031fffffffffff;

#[test]
fn parent_at_coarser_resolutions() {
    let mut out: u64 = 0;
    assert_eq!(cellToParent(SF_CELL, 7, &mut out), H3Error::E_SUCCESS);
    assert_eq!(out, 0x872830828ffffff);

    let mut out0: u64 = 0;
    assert_eq!(cellToParent(SF_CELL, 0, &mut out0), H3Error::E_SUCCESS);
    assert_eq!(out0, 0x8029fffffffffff);
}

#[test]
fn parent_across_many_levels() {
    let mut out: u64 = 0;
    assert_eq!(
        cellToParent(0x8a589c98475ffff, 2, &mut out),
        H3Error::E_SUCCESS
    );
    assert_eq!(out, 0x82589ffffffffff);
}

#[test]
fn parent_at_own_resolution_is_identity() {
    let mut out: u64 = 0;
    assert_eq!(cellToParent(SF_CELL, 9, &mut out), H3Error::E_SUCCESS);
    assert_eq!(out, SF_CELL);

    let mut out2: u64 = 0;
    assert_eq!(cellToParent(PENT_CELL, 0, &mut out2), H3Error::E_SUCCESS);
    assert_eq!(out2, PENT_CELL);
}

#[test]
fn parent_errors() {
    let mut out: u64 = 7;
    assert_eq!(cellToParent(SF_CELL, -1, &mut out), H3Error::E_RES_DOMAIN);
    assert_eq!(out, 7);
    assert_eq!(cellToParent(SF_CELL, 16, &mut out), H3Error::E_RES_DOMAIN);
    assert_eq!(out, 7);
    assert_eq!(cellToParent(SF_CELL, 10, &mut out), H3Error::E_RES_MISMATCH);
    assert_eq!(out, 7);
}

#[test]
fn center_child_round_trip() {
    // take the ancestor at res 5, descend to its center child at res 9,
    // and come back up: the same ancestor appears
    let mut p: u64 = 0;
    assert_eq!(cellToParent(SF_CELL, 5, &mut p), H3Error::E_SUCCESS);
    let mut cc: u64 = 0;
    assert_eq!(cellToCenterChild(p, 9, &mut cc), H3Error::E_SUCCESS);
    assert_eq!(isValidCell(cc), 1);
    assert_eq!(getResolution(cc), 9);
    let mut p2: u64 = 0;
    assert_eq!(cellToParent(cc, 5, &mut p2), H3Error::E_SUCCESS);
    assert_eq!(p2, p);
}

#[test]
fn center_child_of_self_is_self() {
    let mut cc: u64 = 0;
    assert_eq!(cellToCenterChild(SF_CELL, 9, &mut cc), H3Error::E_SUCCESS);
    assert_eq!(cc, SF_CELL);
}

#[test]
fn center_child_errors() {
    let mut cc: u64 = 3;
    assert_eq!(cellToCenterChild(SF_CELL, 8, &mut cc), H3Error::E_RES_DOMAIN);
    assert_eq!(cc, 3);
    assert_eq!(
        cellToCenterChild(SF_CELL, 16, &mut cc),
        H3Error::E_RES_DOMAIN
    );
    assert_eq!(cc, 3);
}

#[test]
fn children_size_hexagon() {
    let mut n: u64 = 0;
    assert_eq!(cellToChildrenSize(SF_CELL, 9, &mut n), H3Error::E_SUCCESS);
    assert_eq!(n, 1);
    assert_eq!(cellToChildrenSize(SF_CELL, 10, &mut n), H3Error::E_SUCCESS);
    assert_eq!(n, 7);
    assert_eq!(cellToChildrenSize(SF_CELL, 11, &mut n), H3Error::E_SUCCESS);
    assert_eq!(n, 49);
    assert_eq!(cellToChildrenSize(SF_CELL, 15, &mut n), H3Error::E_SUCCESS);
    assert_eq!(n, 7u64.pow(6));
}

#[test]
fn children_size_pentagon() {
    // a pentagon has 1 + 5 * (7^n - 1) / 6 children at n levels down
    let mut n: u64 = 0;
    assert_eq!(cellToChildrenSize(PENT_CELL, 0, &mut n), H3Error::E_SUCCESS);
    assert_eq!(n, 1);
    assert_eq!(cellToChildrenSize(PENT_CELL, 1, &mut n), H3Error::E_SUCCESS);
    assert_eq!(n, 6);
    assert_eq!(cellToChildrenSize(PENT_CELL, 2, &mut n), H3Error::E_SUCCESS);
    assert_eq!(n, 41);
    assert_eq!(cellToChildrenSize(PENT_CELL, 3, &mut n), H3Error::E_SUCCESS);
    assert_eq!(n, 286);
}

#[test]
fn children_size_errors() {
    let mut n: u64 = 0;
    assert_eq!(cellToChildrenSize(SF_CELL, 8, &mut n), H3Error::E_RES_DOMAIN);
    assert_eq!(cellToChildrenSize(SF_CELL, 16, &mut n), H3Error::E_RES_DOMAIN);
    assert_eq!(cellToChildrenSize(SF_CELL, -1, &mut n), H3Error::E_RES_DOMAIN);
}

#[test]
fn validity_of_known_cells() {
    assert_eq!(isValidCell(SF_CELL), 1);
    assert_eq!(isValidCell(PENT_CELL), 1);
    assert_eq!(isValidCell(0x8a589c98475ffff), 1);
}

#[test]
fn validity_rejects_bad_patterns() {
    // zero index: wrong mode
    assert_eq!(isValidCell(0), 0);
    // high bit set
    assert_eq!(isValidCell(SF_CELL | (1u64 << 63)), 0);
    // reserved bits set
    assert_eq!(isValidCell(SF_CELL | (1u64 << 56)), 0);
    // base cell out of range (122)
    let bad_bc = (SF_CELL & !(127u64 << 45)) | (122u64 << 45);
    assert_eq!(isValidCell(bad_bc), 0);
    // a digit within the resolution must not be 7: make digit 1 invalid
    let bad_digit = H3_SET_INDEX_DIGIT(SF_CELL, 1, Direction::INVALID_DIGIT);
    assert_eq!(isValidCell(bad_digit), 0);
    // digits beyond the resolution must stay 7
    let bad_tail = H3_SET_INDEX_DIGIT(SF_CELL, 10, Direction::CENTER_DIGIT);
    assert_eq!(isValidCell(bad_tail), 0);
}

#[test]
fn validity_rejects_leading_k_digit_on_pentagon() {
    // base cell 24 is a pentagon; a leading K-axes digit names a deleted cell
    let mut pent1: u64 = 0;
    setH3Index(&mut pent1, 1, 24, Direction::K_AXES_DIGIT);
    assert_eq!(isValidCell(pent1), 0);
    // the same digit under a hexagon base cell is fine
    let mut hex1: u64 = 0;
    setH3Index(&mut hex1, 1, 25, Direction::K_AXES_DIGIT);
    assert_eq!(isValidCell(hex1), 1);
    // and a deeper K digit under the pentagon is fine once a non-zero,
    // non-K digit leads
    let mut pent2: u64 = 0;
    setH3Index(&mut pent2, 2, 24, Direction::CENTER_DIGIT);
    let pent2 = H3_SET_INDEX_DIGIT(H3_SET_INDEX_DIGIT(pent2, 1, Direction::J_AXES_DIGIT), 2,
        Direction::K_AXES_DIGIT);
    assert_eq!(isValidCell(pent2), 1);
}

#[test]
fn getters() {
    assert_eq!(getResolution(SF_CELL), 9);
    assert_eq!(getBaseCellNumber(SF_CELL), 20);
    assert_eq!(getResolution(PENT_CELL), 0);
    assert_eq!(getBaseCellNumber(PENT_CELL), 24);
}

#[test]
fn class_iii_predicate() {
    assert_eq!(isResClassIII(SF_CELL), 1); // res 9
    assert_eq!(isResClassIII(PENT_CELL), 0); // res 0
    assert_eq!(isResClassIII(0x8a589c98475ffff), 0); // res 10
}

#[test]
fn pentagon_predicate() {
    assert_eq!(isPentagon(SF_CELL), 0);
    assert_eq!(isPentagon(PENT_CELL), 1);
    // a non-center child chain under a pentagon base cell is a hexagon
    let mut h: u64 = 0;
    setH3Index(&mut h, 1, 24, Direction::J_AXES_DIGIT);
    assert_eq!(isPentagon(h), 0);
    // the center child stays a pentagon
    let mut c: u64 = 0;
    setH3Index(&mut c, 1, 24, Direction::CENTER_DIGIT);
    assert_eq!(isPentagon(c), 1);
}

#[test]
fn twelve_pentagons_at_every_resolution() {
    for res in [0i8, 1, 2, 7, 15] {
        let mut count = 0;
        for bc in 0i8..122 {
            let mut h: u64 = 0;
            setH3Index(&mut h, res, bc, Direction::CENTER_DIGIT);
            assert_eq!(isValidCell(h), 1);
            if isPentagon(h) == 1 {
                count += 1;
            }
        }
        assert_eq!(count, 12);
    }
}

#[test]
fn digit_rotations_cycle() {
    let digits = [
        Direction::K_AXES_DIGIT,
        Direction::J_AXES_DIGIT,
        Direction::JK_AXES_DIGIT,
        Direction::I_AXES_DIGIT,
        Direction::IK_AXES_DIGIT,
        Direction::IJ_AXES_DIGIT,
    ];
    for d in digits {
        // six ccw rotations are the identity
        let mut r = d;
        for _ in 0..6 {
            r = _rotate60ccw(r);
        }
        assert_eq!(direction_value(r), direction_value(d));
        // cw undoes ccw and conversely
        assert_eq!(
            direction_value(_rotate60cw(_rotate60ccw(d))),
            direction_value(d)
        );
        assert_eq!(
            direction_value(_rotate60ccw(_rotate60cw(d))),
            direction_value(d)
        );
        // a single rotation moves every non-center digit
        assert_ne!(direction_value(_rotate60ccw(d)), direction_value(d));
    }
    // the center digit is fixed
    assert_eq!(direction_value(_rotate60ccw(Direction::CENTER_DIGIT)), 0);
    assert_eq!(direction_value(_rotate60cw(Direction::CENTER_DIGIT)), 0);
}

#[test]
fn unit_vectors_name_their_digits() {
    for v in 0u8..7 {
        let d = match v {
            0 => Direction::CENTER_DIGIT,
            1 => Direction::K_AXES_DIGIT,
            2 => Direction::J_AXES_DIGIT,
            3 => Direction::JK_AXES_DIGIT,
            4 => Direction::I_AXES_DIGIT,
            5 => Direction::IK_AXES_DIGIT,
            _ => Direction::IJ_AXES_DIGIT,
        };
        let uv = unit_vector(d);
        assert_eq!(direction_value(_unitIjkToDigit(uv)), v);
    }
    // anything else yields the invalid digit
    let other = CoordIJK { i: 2, j: 0, k: 0 };
    assert_eq!(direction_value(_unitIjkToDigit(other)), 7);
    let far = CoordIJK { i: 5, j: 3, k: 1 };
    assert_eq!(direction_value(_unitIjkToDigit(far)), 7);
}

#[test]
fn normalization_is_idempotent() {
    let samples = [
        CoordIJK { i: -1, j: -2, k: 5 },
        CoordIJK { i: 3, j: 1, k: 2 },
        CoordIJK { i: 0, j: 0, k: 0 },
        CoordIJK { i: 7, j: -7, k: 0 },
        CoordIJK { i: 100, j: 100, k: 100 },
    ];
    for s in samples {
        let mut once = s;
        _ijkNormalize(&mut once);
        let mut twice = once;
        _ijkNormalize(&mut twice);
        assert_eq!(once.i, twice.i);
        assert_eq!(once.j, twice.j);
        assert_eq!(once.k, twice.k);
        assert_eq!(once.i.min(once.j).min(once.k), 0);
        assert!(once.i >= 0 && once.j >= 0 && once.k >= 0);
    }
    // a concrete normalization
    let mut c = CoordIJK { i: -1, j: -2, k: 5 };
    _ijkNormalize(&mut c);
    assert_eq!((c.i, c.j, c.k), (1, 0, 7));
}

#[test]
fn ijk_distance_examples() {
    let origin = CoordIJK { i: 0, j: 0, k: 0 };
    let unit_i = CoordIJK { i: 1, j: 0, k: 0 };
    assert_eq!(ijkDistance(origin, unit_i), 1);
    assert_eq!(ijkDistance(unit_i, unit_i), 0);
    let far = CoordIJK { i: 3, j: 0, k: 0 };
    let off = CoordIJK { i: 0, j: 2, k: 0 };
    assert_eq!(ijkDistance(far, off), 5);
}
