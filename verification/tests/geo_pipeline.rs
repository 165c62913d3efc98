//! End-to-end checks of the encoder and decoder.  The spherical projection
//! between latitude/longitude and face coordinates is floating point and
//! lives outside the library; the helpers below perform it so that the
//! integer grid engine can be driven from real coordinates.

use h3grid::coordijk::CoordIJK;
use h3grid::faceijk::{FaceIJK, _adjustPentVertOverage, _faceIjkPentToVerts, _faceIjkToVerts};
use h3grid::h3api::H3Error;
use h3grid::h3index::{
    cellToParent, getResolution, isPentagon, isValidCell, setH3Index, _faceIjkToH3, _h3ToFaceIjk,
};
use h3grid::coordijk::Direction;

const EPSILON: f64 = 0.0000000000000001;
const M_SIN60: f64 = 0.8660254037844386467637231707529361834714;
const M_AP7_ROT_RADS: f64 = 0.333473172251832115336090755351601070065900389;
const RES0_U_GNOMONIC: f64 = 0.38196601125010500003;
const M_SQRT7: f64 = 2.6457513110645905905016157536392604257102;
const M_PI: f64 = std::f64::consts::PI;
const M_PI_2: f64 = std::f64::consts::FRAC_PI_2;
const M_2PI: f64 = 2.0 * std::f64::consts::PI;

// Icosahedron face centers in latitude/longitude radians.
const FACE_CENTER_GEO: [(f64, f64); 20] = [
    (0.803582649718989942, 1.248397419617396099),
    (1.307747883455638156, 2.536945009877921159),
    (1.054751253523952054, -1.347517358900396623),
    (0.600191595538186799, -0.450603909469755746),
    (0.491715428198773866, 0.401988202911306943),
    (0.172745327415618701, 1.678146885280433686),
    (0.605929321571350690, 2.953923329812411617),
    (0.427370518328979641, -1.888876200336285401),
    (-0.079066118549212831, -0.733429513380867741),
    (-0.230961644455383637, 0.506495587332349035),
    (0.079066118549212831, 2.408163140208925497),
    (0.230961644455383637, -2.635097066257444203),
    (-0.172745327415618701, -1.463445768309359553),
    (-0.605929321571350690, -0.187669323777381622),
    (-0.427370518328979641, 1.252716453253507838),
    (-0.600191595538186799, 2.690988744120037492),
    (-0.491715428198773866, -2.739604450678486295),
    (-0.803582649718989942, -1.893195233972397139),
    (-1.307747883455638156, -0.604647643711872080),
    (-1.054751253523952054, 1.794075294689396615),
];

// Icosahedron face centers as unit-sphere points.
const FACE_CENTER_POINT: [(f64, f64, f64); 20] = [
    (0.2199307791404606, 0.6583691780274996, 0.7198475378926182),
    (-0.2139234834501421, 0.1478171829550703, 0.9656017935214205),
    (0.1092625278784797, -0.4811951572873210, 0.8697775121287253),
    (0.7428567301586791, -0.3593941678278028, 0.5648005936517033),
    (0.8112534709140969, 0.3448953237639384, 0.4721387736413930),
    (-0.1055498149613921, 0.9794457296411413, 0.1718874610009365),
    (-0.8075407579970092, 0.1533552485898818, 0.5695261994882688),
    (-0.2846148069787907, -0.8644080972654206, 0.4144792552473539),
    (0.7405621473854482, -0.6673299564565524, -0.0789837646326737),
    (0.8512303986474293, 0.4722343788582681, -0.2289137388687808),
    (-0.7405621473854481, 0.6673299564565524, 0.0789837646326737),
    (-0.8512303986474292, -0.4722343788582682, 0.2289137388687808),
    (0.1055498149613919, -0.9794457296411413, -0.1718874610009365),
    (0.8075407579970092, -0.1533552485898819, -0.5695261994882688),
    (0.2846148069787908, 0.8644080972654204, -0.4144792552473539),
    (-0.7428567301586791, 0.3593941678278027, -0.5648005936517033),
    (-0.8112534709140971, -0.3448953237639382, -0.4721387736413930),
    (-0.2199307791404607, -0.6583691780274996, -0.7198475378926182),
    (0.2139234834501420, -0.1478171829550704, -0.9656017935214205),
    (-0.1092625278784796, 0.4811951572873210, -0.8697775121287253),
];

// Azimuth in radians from each face center to its vertex 0 (i-axis).
const FACE_AXES_AZ_0: [f64; 20] = [
    5.619958268523939882,
    5.760339081714187279,
    0.780213654393430055,
    0.430469363979999913,
    6.130269123335111400,
    2.692877706530642877,
    2.982963003477243874,
    3.532912002790141181,
    3.494305004259568154,
    3.003214169499538391,
    5.930472956509811562,
    0.138378484090254847,
    0.448714947059150361,
    0.158629650112549365,
    5.891865957979238535,
    2.711123289609793325,
    3.294508837434268316,
    3.804819692245439833,
    3.664438879055192436,
    2.361378999196363184,
];


fn pos_angle_rads(rads: f64) -> f64 {
    let tmp = if rads < 0.0 { rads + M_2PI } else { rads };
    if rads >= M_2PI {
        tmp - M_2PI
    } else {
        tmp
    }
}

fn constrain_lng(lng: f64) -> f64 {
    let mut l = lng;
    while l > M_PI {
        l -= 2.0 * M_PI;
    }
    while l < -M_PI {
        l += 2.0 * M_PI;
    }
    l
}

fn geo_azimuth_rads(p1: (f64, f64), p2: (f64, f64)) -> f64 {
    (p2.0.cos() * (p2.1 - p1.1).sin())
        .atan2(p1.0.cos() * p2.0.sin() - p1.0.sin() * p2.0.cos() * (p2.1 - p1.1).cos())
}

fn geo_az_distance_rads(p1: (f64, f64), az_in: f64, distance: f64) -> (f64, f64) {
    if distance < EPSILON {
        return p1;
    }
    let az = pos_angle_rads(az_in);
    if az < EPSILON || (az - M_PI).abs() < EPSILON {
        // due north/south
        let lat = if az < EPSILON { p1.0 + distance } else { p1.0 - distance };
        if (lat - M_PI_2).abs() < EPSILON {
            (M_PI_2, 0.0)
        } else if (lat + M_PI_2).abs() < EPSILON {
            (-M_PI_2, 0.0)
        } else {
            (lat, constrain_lng(p1.1))
        }
    } else {
        let mut sinlat = p1.0.sin() * distance.cos() + p1.0.cos() * distance.sin() * az.cos();
        sinlat = sinlat.clamp(-1.0, 1.0);
        let lat = sinlat.asin();
        if (lat - M_PI_2).abs() < EPSILON {
            (M_PI_2, 0.0)
        } else if (lat + M_PI_2).abs() < EPSILON {
            (-M_PI_2, 0.0)
        } else {
            let sinlng = (az.sin() * distance.sin() / lat.cos()).clamp(-1.0, 1.0);
            let coslng =
                ((distance.cos() - p1.0.sin() * lat.sin()) / p1.0.cos() / lat.cos()).clamp(
                    -1.0, 1.0,
                );
            (lat, constrain_lng(p1.1 + sinlng.atan2(coslng)))
        }
    }
}

fn geo_to_closest_face(lat: f64, lng: f64) -> (usize, f64) {
    let r = lat.cos();
    let v = (lng.cos() * r, lng.sin() * r, lat.sin());
    let mut face = 0usize;
    let mut sqd = 5.0f64;
    for f in 0..20 {
        let c = FACE_CENTER_POINT[f];
        let d = (c.0 - v.0) * (c.0 - v.0) + (c.1 - v.1) * (c.1 - v.1) + (c.2 - v.2) * (c.2 - v.2);
        if d < sqd {
            face = f;
            sqd = d;
        }
    }
    (face, sqd)
}

fn hex2d_to_coord_ijk(x: f64, y: f64) -> CoordIJK {
    // quantize into the ij system and then normalize
    let a1 = x.abs();
    let a2 = y.abs();
    let x2 = a2 / M_SIN60;
    let x1 = a1 + x2 / 2.0;
    let m1 = x1 as i32;
    let m2 = x2 as i32;
    let r1 = x1 - m1 as f64;
    let r2 = x2 - m2 as f64;

    let mut i;
    let mut j;
    if r1 < 0.5 {
        if r1 < 1.0 / 3.0 {
            if r2 < (1.0 + r1) / 2.0 {
                i = m1;
                j = m2;
            } else {
                i = m1;
                j = m2 + 1;
            }
        } else {
            j = if r2 < (1.0 - r1) { m2 } else { m2 + 1 };
            i = if (1.0 - r1) <= r2 && r2 < (2.0 * r1) { m1 + 1 } else { m1 };
        }
    } else {
        if r1 < 2.0 / 3.0 {
            j = if r2 < (1.0 - r1) { m2 } else { m2 + 1 };
            i = if (2.0 * r1 - 1.0) < r2 && r2 < (1.0 - r1) { m1 } else { m1 + 1 };
        } else {
            if r2 < (r1 / 2.0) {
                i = m1 + 1;
                j = m2;
            } else {
                i = m1 + 1;
                j = m2 + 1;
            }
        }
    }

    // fold across the axes if necessary
    if x < 0.0 {
        if (j % 2) == 0 {
            let axisi = (j / 2) as i64;
            let diff = i as i64 - axisi;
            i = ((i as f64) - 2.0 * (diff as f64)) as i32;
        } else {
            let axisi = ((j + 1) / 2) as i64;
            let diff = i as i64 - axisi;
            i = ((i as f64) - (2.0 * (diff as f64) + 1.0)) as i32;
        }
    }
    if y < 0.0 {
        i = i - (2 * j + 1) / 2;
        j = -j;
    }
    let mut c = CoordIJK { i, j, k: 0 };
    h3grid::coordijk::_ijkNormalize(&mut c);
    c
}

fn geo_to_face_ijk(lat: f64, lng: f64, res: i8) -> FaceIJK {
    let (face, sqd) = geo_to_closest_face(lat, lng);
    let mut r = (1.0 - sqd / 2.0).acos();
    if r < EPSILON {
        return FaceIJK { face: face as i8, coord: CoordIJK { i: 0, j: 0, k: 0 } };
    }
    let mut theta = pos_angle_rads(
        FACE_AXES_AZ_0[face]
            - pos_angle_rads(geo_azimuth_rads(FACE_CENTER_GEO[face], (lat, lng))),
    );
    if res % 2 == 1 {
        theta = pos_angle_rads(theta - M_AP7_ROT_RADS);
    }
    r = r.tan();
    r /= RES0_U_GNOMONIC;
    for _ in 0..res {
        r *= M_SQRT7;
    }
    let x = r * theta.cos();
    let y = r * theta.sin();
    let coord = hex2d_to_coord_ijk(x, y);
    FaceIJK { face: face as i8, coord }
}

fn lat_lng_to_cell(lat: f64, lng: f64, res: i8) -> u64 {
    let fijk = geo_to_face_ijk(lat, lng, res);
    _faceIjkToH3(fijk, res)
}

fn face_ijk_to_geo(fijk: FaceIJK, res: i8) -> (f64, f64) {
    // ijk -> hex2d
    let i = (fijk.coord.i - fijk.coord.k) as f64;
    let j = (fijk.coord.j - fijk.coord.k) as f64;
    let x = i - 0.5 * j;
    let y = j * M_SIN60;
    // hex2d -> geo (not a substrate grid)
    let mut r = (x * x + y * y).sqrt();
    if r < EPSILON {
        return FACE_CENTER_GEO[fijk.face as usize];
    }
    let mut theta = y.atan2(x);
    for _ in 0..res {
        r /= M_SQRT7;
    }
    r *= RES0_U_GNOMONIC;
    r = r.atan();
    if res % 2 == 1 {
        theta = pos_angle_rads(theta + M_AP7_ROT_RADS);
    }
    theta = pos_angle_rads(FACE_AXES_AZ_0[fijk.face as usize] - theta);
    geo_az_distance_rads(FACE_CENTER_GEO[fijk.face as usize], theta, r)
}

fn cell_to_lat_lng(h: u64) -> (f64, f64) {
    let mut fijk = FaceIJK { face: 0, coord: CoordIJK { i: 0, j: 0, k: 0 } };
    let e = _h3ToFaceIjk(h, &mut fijk);
    assert_eq!(e, H3Error::E_SUCCESS);
    face_ijk_to_geo(fijk, (getResolution(h)) as i8)
}

fn distance_rads(a: (f64, f64), b: (f64, f64)) -> f64 {
    let sin_lat = ((b.0 - a.0) / 2.0).sin();
    let sin_lng = ((b.1 - a.1) / 2.0).sin();
    let big_a = sin_lat * sin_lat + a.0.cos() * b.0.cos() * sin_lng * sin_lng;
    2.0 * big_a.sqrt().atan2((1.0 - big_a).sqrt())
}

const SF_LAT: f64 = 0.6595014;
const SF_LNG: f64 = -2.1371685;
const SF_CELL: u64 = 0x8928308280fffff;
const PENT_CELL: u64 = 0x8031fffffffffff;

#[test]
fn encode_san_francisco() {
    // the center of the San Francisco cell encodes back to it
    let cell = lat_lng_to_cell(0.65932783654353, -2.1366051804082944, 9);
    assert_eq!(cell, SF_CELL);
    assert_eq!(getResolution(cell), 9);
    assert_eq!(isPentagon(cell), 0);
    assert_eq!(isValidCell(cell), 1);
    // a nearby point lands in a valid neighboring cell of the same parent
    let near = lat_lng_to_cell(SF_LAT, SF_LNG, 9);
    assert_eq!(isValidCell(near), 1);
    assert_eq!(getResolution(near), 9);
    let mut p1: u64 = 0;
    let mut p2: u64 = 0;
    assert_eq!(cellToParent(cell, 6, &mut p1), H3Error::E_SUCCESS);
    assert_eq!(cellToParent(near, 6, &mut p2), H3Error::E_SUCCESS);
    assert_eq!(p1, p2);
}

#[test]
fn encode_face_center_res0() {
    // the center of icosahedron face 0 lies in base cell 16, the cell whose
    // home is face 0
    let cell = lat_lng_to_cell(0.803582649718989942, 1.248397419617396099, 0);
    assert_eq!(isValidCell(cell), 1);
    assert_eq!(getResolution(cell), 0);
    assert_eq!(h3grid::h3index::getBaseCellNumber(cell), 16);
    assert_eq!(isPentagon(cell), 0);
}

#[test]
fn encode_always_yields_valid_cells() {
    for res in [0i8, 1, 5, 9, 15] {
        let mut lat = -1.4f64;
        while lat < 1.5 {
            let mut lng = -3.1f64;
            while lng < 3.2 {
                let cell = lat_lng_to_cell(lat, lng, res);
                assert_ne!(cell, 0, "null index at {lat} {lng} {res}");
                assert_eq!(isValidCell(cell), 1, "invalid at {lat} {lng} {res}");
                assert_eq!(getResolution(cell), res as i32);
                lng += 0.7;
            }
            lat += 0.35;
        }
    }
}

#[test]
fn decode_encode_round_trip_base_cells() {
    // every base cell decodes to its home address and encodes back to itself
    for bc in 0i8..122 {
        let mut h: u64 = 0;
        setH3Index(&mut h, 0, bc, Direction::CENTER_DIGIT);
        let mut fijk = FaceIJK { face: 0, coord: CoordIJK { i: 0, j: 0, k: 0 } };
        assert_eq!(_h3ToFaceIjk(h, &mut fijk), H3Error::E_SUCCESS);
        assert_eq!(_faceIjkToH3(fijk, 0), h, "base cell {bc}");
    }
}

#[test]
fn decode_encode_round_trip_children() {
    // all direct children of a hexagon and of a pentagon base cell
    for bc in [20i8, 24, 4, 63, 0, 121] {
        for digit in 0u8..7 {
            if digit == 1 && [4i8, 24, 63].contains(&bc) {
                continue; // deleted K subsequence under a pentagon
            }
            let mut h: u64 = 0;
            setH3Index(&mut h, 1, bc, Direction::CENTER_DIGIT);
            let d = match digit {
                0 => Direction::CENTER_DIGIT,
                1 => Direction::K_AXES_DIGIT,
                2 => Direction::J_AXES_DIGIT,
                3 => Direction::JK_AXES_DIGIT,
                4 => Direction::I_AXES_DIGIT,
                5 => Direction::IK_AXES_DIGIT,
                _ => Direction::IJ_AXES_DIGIT,
            };
            let h = h3grid::h3index::H3_SET_INDEX_DIGIT(h, 1, d);
            assert_eq!(isValidCell(h), 1);
            let mut fijk = FaceIJK { face: 0, coord: CoordIJK { i: 0, j: 0, k: 0 } };
            assert_eq!(_h3ToFaceIjk(h, &mut fijk), H3Error::E_SUCCESS);
            assert_eq!(_faceIjkToH3(fijk, 1), h, "bc {bc} digit {digit}");
        }
    }
}

#[test]
fn decode_encode_round_trip_deep_cell() {
    let cells = [SF_CELL, 0x8a589c98475ffff, 0x872830828ffffff];
    for h in cells {
        let res = getResolution(h) as i8;
        let mut fijk = FaceIJK { face: 0, coord: CoordIJK { i: 0, j: 0, k: 0 } };
        assert_eq!(_h3ToFaceIjk(h, &mut fijk), H3Error::E_SUCCESS);
        assert_eq!(_faceIjkToH3(fijk, res), h, "cell {h:x}");
    }
}

#[test]
fn round_trip_through_cell_center() {
    let cells = [
        SF_CELL,
        PENT_CELL,
        0x872830828ffffff,
        0x8a589c98475ffff,
        0x8029fffffffffff,
    ];
    for h in cells {
        let (lat, lng) = cell_to_lat_lng(h);
        let back = lat_lng_to_cell(lat, lng, getResolution(h) as i8);
        assert_eq!(back, h, "round trip of {h:x}");
    }
}

#[test]
fn distance_law_for_cell_centers() {
    let a = cell_to_lat_lng(SF_CELL);
    let mut other: u64 = 0;
    setH3Index(&mut other, 9, 60, Direction::CENTER_DIGIT);
    let b = cell_to_lat_lng(other);
    assert!(distance_rads(a, b) > 0.0);
    assert_eq!(distance_rads(a, a), 0.0);
    assert_eq!(distance_rads(b, b), 0.0);
}

#[test]
fn pentagon_has_five_vertices() {
    let mut fijk = FaceIJK { face: 0, coord: CoordIJK { i: 0, j: 0, k: 0 } };
    assert_eq!(_h3ToFaceIjk(PENT_CELL, &mut fijk), H3Error::E_SUCCESS);
    let mut res: i8 = 0;
    let mut verts = [FaceIJK { face: 0, coord: CoordIJK { i: 0, j: 0, k: 0 } }; 5];
    _faceIjkPentToVerts(&mut fijk, &mut res, &mut verts);
    assert_eq!(verts.len(), 5);
    // every pentagon vertex re-homes onto a real face
    for v in verts.iter_mut() {
        let _ = _adjustPentVertOverage(v, res);
        assert!(v.face >= 0 && v.face < 20);
        assert!(v.coord.i >= 0 && v.coord.j >= 0 && v.coord.k >= 0);
    }
}

#[test]
fn hexagon_has_six_vertices() {
    let mut fijk = FaceIJK { face: 0, coord: CoordIJK { i: 0, j: 0, k: 0 } };
    assert_eq!(_h3ToFaceIjk(SF_CELL, &mut fijk), H3Error::E_SUCCESS);
    let mut res: i8 = 9;
    let mut verts = [FaceIJK { face: 0, coord: CoordIJK { i: 0, j: 0, k: 0 } }; 6];
    _faceIjkToVerts(&mut fijk, &mut res, &mut verts);
    assert_eq!(verts.len(), 6);
    assert_eq!(res, 10); // Class III dropped into the Class II substrate
}
