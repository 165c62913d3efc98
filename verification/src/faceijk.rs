use vstd::prelude::*;
use crate::coordijk::CoordIJK;

verus! {

/// Face number and IJK coordinates on that face-centered coordinate system.
#[derive(Copy, Clone, PartialEq, Eq, Structural, Debug)]
pub struct FaceIJK {
    /// face number
    pub face: i8,
    /// ijk coordinates on that face
    pub coord: CoordIJK,
}

/// Information to transform into an adjacent face's IJK system.
#[derive(Copy, Clone, PartialEq, Eq, Structural, Debug)]
pub struct FaceOrientIJK {
    /// face number
    pub face: i8,
    /// resolution-0 translation relative to the primary face
    pub translate: CoordIJK,
    /// number of 60-degree ccw rotations relative to the primary face
    pub ccwRot60: i8,
}

/// IJ quadrant faceNeighbors table direction.
pub const IJ: i8 = 1;

/// KI quadrant faceNeighbors table direction.
pub const KI: i8 = 2;

/// JK quadrant faceNeighbors table direction.
pub const JK: i8 = 3;

/// Invalid face index.
pub const INVALID_FACE: i8 = -1;

/// Digit representing overage type.
#[derive(Copy, Clone, PartialEq, Eq, Structural, Debug)]
pub enum Overage {
    /// No overage (on original face)
    NO_OVERAGE,
    /// On face edge (only occurs on substrate grids)
    FACE_EDGE,
    /// Overage on new face interior
    NEW_FACE,
}

pub open spec fn face_neighbors_face0(dir: int) -> (int, (int, int, int), int) {
    if dir == 0 {
        (0, (0, 0, 0), 0)
    } else if dir == 1 {
        (4, (2, 0, 2), 1)
    } else if dir == 2 {
        (1, (2, 2, 0), 5)
    } else
    {
        (5, (0, 2, 2), 3)
    }
}

pub open spec fn face_neighbors_face1(dir: int) -> (int, (int, int, int), int) {
    if dir == 0 {
        (1, (0, 0, 0), 0)
    } else if dir == 1 {
        (0, (2, 0, 2), 1)
    } else if dir == 2 {
        (2, (2, 2, 0), 5)
    } else
    {
        (6, (0, 2, 2), 3)
    }
}

pub open spec fn face_neighbors_face2(dir: int) -> (int, (int, int, int), int) {
    if dir == 0 {
        (2, (0, 0, 0), 0)
    } else if dir == 1 {
        (1, (2, 0, 2), 1)
    } else if dir == 2 {
        (3, (2, 2, 0), 5)
    } else
    {
        (7, (0, 2, 2), 3)
    }
}

pub open spec fn face_neighbors_face3(dir: int) -> (int, (int, int, int), int) {
    if dir == 0 {
        (3, (0, 0, 0), 0)
    } else if dir == 1 {
        (2, (2, 0, 2), 1)
    } else if dir == 2 {
        (4, (2, 2, 0), 5)
    } else
    {
        (8, (0, 2, 2), 3)
    }
}

pub open spec fn face_neighbors_face4(dir: int) -> (int, (int, int, int), int) {
    if dir == 0 {
        (4, (0, 0, 0), 0)
    } else if dir == 1 {
        (3, (2, 0, 2), 1)
    } else if dir == 2 {
        (0, (2, 2, 0), 5)
    } else
    {
        (9, (0, 2, 2), 3)
    }
}

pub open spec fn face_neighbors_face5(dir: int) -> (int, (int, int, int), int) {
    if dir == 0 {
        (5, (0, 0, 0), 0)
    } else if dir == 1 {
        (10, (2, 2, 0), 3)
    } else if dir == 2 {
        (14, (2, 0, 2), 3)
    } else
    {
        (0, (0, 2, 2), 3)
    }
}

pub open spec fn face_neighbors_face6(dir: int) -> (int, (int, int, int), int) {
    if dir == 0 {
        (6, (0, 0, 0), 0)
    } else if dir == 1 {
        (11, (2, 2, 0), 3)
    } else if dir == 2 {
        (10, (2, 0, 2), 3)
    } else
    {
        (1, (0, 2, 2), 3)
    }
}

pub open spec fn face_neighbors_face7(dir: int) -> (int, (int, int, int), int) {
    if dir == 0 {
        (7, (0, 0, 0), 0)
    } else if dir == 1 {
        (12, (2, 2, 0), 3)
    } else if dir == 2 {
        (11, (2, 0, 2), 3)
    } else
    {
        (2, (0, 2, 2), 3)
    }
}

pub open spec fn face_neighbors_face8(dir: int) -> (int, (int, int, int), int) {
    if dir == 0 {
        (8, (0, 0, 0), 0)
    } else if dir == 1 {
        (13, (2, 2, 0), 3)
    } else if dir == 2 {
        (12, (2, 0, 2), 3)
    } else
    {
        (3, (0, 2, 2), 3)
    }
}

pub open spec fn face_neighbors_face9(dir: int) -> (int, (int, int, int), int) {
    if dir == 0 {
        (9, (0, 0, 0), 0)
    } else if dir == 1 {
        (14, (2, 2, 0), 3)
    } else if dir == 2 {
        (13, (2, 0, 2), 3)
    } else
    {
        (4, (0, 2, 2), 3)
    }
}

pub open spec fn face_neighbors_face10(dir: int) -> (int, (int, int, int), int) {
    if dir == 0 {
        (10, (0, 0, 0), 0)
    } else if dir == 1 {
        (5, (2, 2, 0), 3)
    } else if dir == 2 {
        (6, (2, 0, 2), 3)
    } else
    {
        (15, (0, 2, 2), 3)
    }
}

pub open spec fn face_neighbors_face11(dir: int) -> (int, (int, int, int), int) {
    if dir == 0 {
        (11, (0, 0, 0), 0)
    } else if dir == 1 {
        (6, (2, 2, 0), 3)
    } else if dir == 2 {
        (7, (2, 0, 2), 3)
    } else
    {
        (16, (0, 2, 2), 3)
    }
}

pub open spec fn face_neighbors_face12(dir: int) -> (int, (int, int, int), int) {
    if dir == 0 {
        (12, (0, 0, 0), 0)
    } else if dir == 1 {
        (7, (2, 2, 0), 3)
    } else if dir == 2 {
        (8, (2, 0, 2), 3)
    } else
    {
        (17, (0, 2, 2), 3)
    }
}

pub open spec fn face_neighbors_face13(dir: int) -> (int, (int, int, int), int) {
    if dir == 0 {
        (13, (0, 0, 0), 0)
    } else if dir == 1 {
        (8, (2, 2, 0), 3)
    } else if dir == 2 {
        (9, (2, 0, 2), 3)
    } else
    {
        (18, (0, 2, 2), 3)
    }
}

pub open spec fn face_neighbors_face14(dir: int) -> (int, (int, int, int), int) {
    if dir == 0 {
        (14, (0, 0, 0), 0)
    } else if dir == 1 {
        (9, (2, 2, 0), 3)
    } else if dir == 2 {
        (5, (2, 0, 2), 3)
    } else
    {
        (19, (0, 2, 2), 3)
    }
}

pub open spec fn face_neighbors_face15(dir: int) -> (int, (int, int, int), int) {
    if dir == 0 {
        (15, (0, 0, 0), 0)
    } else if dir == 1 {
        (16, (2, 0, 2), 1)
    } else if dir == 2 {
        (19, (2, 2, 0), 5)
    } else
    {
        (10, (0, 2, 2), 3)
    }
}

pub open spec fn face_neighbors_face16(dir: int) -> (int, (int, int, int), int) {
    if dir == 0 {
        (16, (0, 0, 0), 0)
    } else if dir == 1 {
        (17, (2, 0, 2), 1)
    } else if dir == 2 {
        (15, (2, 2, 0), 5)
    } else
    {
        (11, (0, 2, 2), 3)
    }
}

pub open spec fn face_neighbors_face17(dir: int) -> (int, (int, int, int), int) {
    if dir == 0 {
        (17, (0, 0, 0), 0)
    } else if dir == 1 {
        (18, (2, 0, 2), 1)
    } else if dir == 2 {
        (16, (2, 2, 0), 5)
    } else
    {
        (12, (0, 2, 2), 3)
    }
}

pub open spec fn face_neighbors_face18(dir: int) -> (int, (int, int, int), int) {
    if dir == 0 {
        (18, (0, 0, 0), 0)
    } else if dir == 1 {
        (19, (2, 0, 2), 1)
    } else if dir == 2 {
        (17, (2, 2, 0), 5)
    } else
    {
        (13, (0, 2, 2), 3)
    }
}

pub open spec fn face_neighbors_face19(dir: int) -> (int, (int, int, int), int) {
    if dir == 0 {
        (19, (0, 0, 0), 0)
    } else if dir == 1 {
        (15, (2, 0, 2), 1)
    } else if dir == 2 {
        (18, (2, 2, 0), 5)
    } else
    {
        (14, (0, 2, 2), 3)
    }
}

/// Row of the face-neighbor table: for a face and a quadrant direction
/// (0 central, 1 IJ, 2 KI, 3 JK), the neighboring face, the translation of
/// its origin in resolution-0 units, and the number of ccw 60-degree
/// rotations from this face's frame into the neighbor's.
pub open spec fn face_neighbors_s(face: int, dir: int) -> (int, (int, int, int), int) {
    if face == 0 {
        face_neighbors_face0(dir)
    } else if face == 1 {
        face_neighbors_face1(dir)
    } else if face == 2 {
        face_neighbors_face2(dir)
    } else if face == 3 {
        face_neighbors_face3(dir)
    } else if face == 4 {
        face_neighbors_face4(dir)
    } else if face == 5 {
        face_neighbors_face5(dir)
    } else if face == 6 {
        face_neighbors_face6(dir)
    } else if face == 7 {
        face_neighbors_face7(dir)
    } else if face == 8 {
        face_neighbors_face8(dir)
    } else if face == 9 {
        face_neighbors_face9(dir)
    } else if face == 10 {
        face_neighbors_face10(dir)
    } else if face == 11 {
        face_neighbors_face11(dir)
    } else if face == 12 {
        face_neighbors_face12(dir)
    } else if face == 13 {
        face_neighbors_face13(dir)
    } else if face == 14 {
        face_neighbors_face14(dir)
    } else if face == 15 {
        face_neighbors_face15(dir)
    } else if face == 16 {
        face_neighbors_face16(dir)
    } else if face == 17 {
        face_neighbors_face17(dir)
    } else if face == 18 {
        face_neighbors_face18(dir)
    } else
    {
        face_neighbors_face19(dir)
    }
}

/// Looks up the face-neighbor table.
pub fn faceNeighbors(face: i8, dir: i8) -> (r: FaceOrientIJK)
    requires
        0 <= face < 20,
        0 <= dir < 4,
    ensures
        r.face as int == face_neighbors_s(face as int, dir as int).0,
        crate::coordijk::view3(r.translate) == face_neighbors_s(face as int, dir as int).1,
        r.ccwRot60 as int == face_neighbors_s(face as int, dir as int).2,
        0 <= r.face < 20,
        0 <= r.ccwRot60 < 6,
        crate::coordijk::bounded3(crate::coordijk::view3(r.translate), 2),
        crate::coordijk::nonneg3(crate::coordijk::view3(r.translate)),
{
    if face == 0 {
    if dir == 0 {
        FaceOrientIJK { face: 0, translate: CoordIJK { i: 0, j: 0, k: 0 }, ccwRot60: 0 }
    } else if dir == 1 {
        FaceOrientIJK { face: 4, translate: CoordIJK { i: 2, j: 0, k: 2 }, ccwRot60: 1 }
    } else if dir == 2 {
        FaceOrientIJK { face: 1, translate: CoordIJK { i: 2, j: 2, k: 0 }, ccwRot60: 5 }
    } else
    {
        FaceOrientIJK { face: 5, translate: CoordIJK { i: 0, j: 2, k: 2 }, ccwRot60: 3 }
    }
    } else if face == 1 {
    if dir == 0 {
        FaceOrientIJK { face: 1, translate: CoordIJK { i: 0, j: 0, k: 0 }, ccwRot60: 0 }
    } else if dir == 1 {
        FaceOrientIJK { face: 0, translate: CoordIJK { i: 2, j: 0, k: 2 }, ccwRot60: 1 }
    } else if dir == 2 {
        FaceOrientIJK { face: 2, translate: CoordIJK { i: 2, j: 2, k: 0 }, ccwRot60: 5 }
    } else
    {
        FaceOrientIJK { face: 6, translate: CoordIJK { i: 0, j: 2, k: 2 }, ccwRot60: 3 }
    }
    } else if face == 2 {
    if dir == 0 {
        FaceOrientIJK { face: 2, translate: CoordIJK { i: 0, j: 0, k: 0 }, ccwRot60: 0 }
    } else if dir == 1 {
        FaceOrientIJK { face: 1, translate: CoordIJK { i: 2, j: 0, k: 2 }, ccwRot60: 1 }
    } else if dir == 2 {
        FaceOrientIJK { face: 3, translate: CoordIJK { i: 2, j: 2, k: 0 }, ccwRot60: 5 }
    } else
    {
        FaceOrientIJK { face: 7, translate: CoordIJK { i: 0, j: 2, k: 2 }, ccwRot60: 3 }
    }
    } else if face == 3 {
    if dir == 0 {
        FaceOrientIJK { face: 3, translate: CoordIJK { i: 0, j: 0, k: 0 }, ccwRot60: 0 }
    } else if dir == 1 {
        FaceOrientIJK { face: 2, translate: CoordIJK { i: 2, j: 0, k: 2 }, ccwRot60: 1 }
    } else if dir == 2 {
        FaceOrientIJK { face: 4, translate: CoordIJK { i: 2, j: 2, k: 0 }, ccwRot60: 5 }
    } else
    {
        FaceOrientIJK { face: 8, translate: CoordIJK { i: 0, j: 2, k: 2 }, ccwRot60: 3 }
    }
    } else if face == 4 {
    if dir == 0 {
        FaceOrientIJK { face: 4, translate: CoordIJK { i: 0, j: 0, k: 0 }, ccwRot60: 0 }
    } else if dir == 1 {
        FaceOrientIJK { face: 3, translate: CoordIJK { i: 2, j: 0, k: 2 }, ccwRot60: 1 }
    } else if dir == 2 {
        FaceOrientIJK { face: 0, translate: CoordIJK { i: 2, j: 2, k: 0 }, ccwRot60: 5 }
    } else
    {
        FaceOrientIJK { face: 9, translate: CoordIJK { i: 0, j: 2, k: 2 }, ccwRot60: 3 }
    }
    } else if face == 5 {
    if dir == 0 {
        FaceOrientIJK { face: 5, translate: CoordIJK { i: 0, j: 0, k: 0 }, ccwRot60: 0 }
    } else if dir == 1 {
        FaceOrientIJK { face: 10, translate: CoordIJK { i: 2, j: 2, k: 0 }, ccwRot60: 3 }
    } else if dir == 2 {
        FaceOrientIJK { face: 14, translate: CoordIJK { i: 2, j: 0, k: 2 }, ccwRot60: 3 }
    } else
    {
        FaceOrientIJK { face: 0, translate: CoordIJK { i: 0, j: 2, k: 2 }, ccwRot60: 3 }
    }
    } else if face == 6 {
    if dir == 0 {
        FaceOrientIJK { face: 6, translate: CoordIJK { i: 0, j: 0, k: 0 }, ccwRot60: 0 }
    } else if dir == 1 {
        FaceOrientIJK { face: 11, translate: CoordIJK { i: 2, j: 2, k: 0 }, ccwRot60: 3 }
    } else if dir == 2 {
        FaceOrientIJK { face: 10, translate: CoordIJK { i: 2, j: 0, k: 2 }, ccwRot60: 3 }
    } else
    {
        FaceOrientIJK { face: 1, translate: CoordIJK { i: 0, j: 2, k: 2 }, ccwRot60: 3 }
    }
    } else if face == 7 {
    if dir == 0 {
        FaceOrientIJK { face: 7, translate: CoordIJK { i: 0, j: 0, k: 0 }, ccwRot60: 0 }
    } else if dir == 1 {
        FaceOrientIJK { face: 12, translate: CoordIJK { i: 2, j: 2, k: 0 }, ccwRot60: 3 }
    } else if dir == 2 {
        FaceOrientIJK { face: 11, translate: CoordIJK { i: 2, j: 0, k: 2 }, ccwRot60: 3 }
    } else
    {
        FaceOrientIJK { face: 2, translate: CoordIJK { i: 0, j: 2, k: 2 }, ccwRot60: 3 }
    }
    } else if face == 8 {
    if dir == 0 {
        FaceOrientIJK { face: 8, translate: CoordIJK { i: 0, j: 0, k: 0 }, ccwRot60: 0 }
    } else if dir == 1 {
        FaceOrientIJK { face: 13, translate: CoordIJK { i: 2, j: 2, k: 0 }, ccwRot60: 3 }
    } else if dir == 2 {
        FaceOrientIJK { face: 12, translate: CoordIJK { i: 2, j: 0, k: 2 }, ccwRot60: 3 }
    } else
    {
        FaceOrientIJK { face: 3, translate: CoordIJK { i: 0, j: 2, k: 2 }, ccwRot60: 3 }
    }
    } else if face == 9 {
    if dir == 0 {
        FaceOrientIJK { face: 9, translate: CoordIJK { i: 0, j: 0, k: 0 }, ccwRot60: 0 }
    } else if dir == 1 {
        FaceOrientIJK { face: 14, translate: CoordIJK { i: 2, j: 2, k: 0 }, ccwRot60: 3 }
    } else if dir == 2 {
        FaceOrientIJK { face: 13, translate: CoordIJK { i: 2, j: 0, k: 2 }, ccwRot60: 3 }
    } else
    {
        FaceOrientIJK { face: 4, translate: CoordIJK { i: 0, j: 2, k: 2 }, ccwRot60: 3 }
    }
    } else if face == 10 {
    if dir == 0 {
        FaceOrientIJK { face: 10, translate: CoordIJK { i: 0, j: 0, k: 0 }, ccwRot60: 0 }
    } else if dir == 1 {
        FaceOrientIJK { face: 5, translate: CoordIJK { i: 2, j: 2, k: 0 }, ccwRot60: 3 }
    } else if dir == 2 {
        FaceOrientIJK { face: 6, translate: CoordIJK { i: 2, j: 0, k: 2 }, ccwRot60: 3 }
    } else
    {
        FaceOrientIJK { face: 15, translate: CoordIJK { i: 0, j: 2, k: 2 }, ccwRot60: 3 }
    }
    } else if face == 11 {
    if dir == 0 {
        FaceOrientIJK { face: 11, translate: CoordIJK { i: 0, j: 0, k: 0 }, ccwRot60: 0 }
    } else if dir == 1 {
        FaceOrientIJK { face: 6, translate: CoordIJK { i: 2, j: 2, k: 0 }, ccwRot60: 3 }
    } else if dir == 2 {
        FaceOrientIJK { face: 7, translate: CoordIJK { i: 2, j: 0, k: 2 }, ccwRot60: 3 }
    } else
    {
        FaceOrientIJK { face: 16, translate: CoordIJK { i: 0, j: 2, k: 2 }, ccwRot60: 3 }
    }
    } else if face == 12 {
    if dir == 0 {
        FaceOrientIJK { face: 12, translate: CoordIJK { i: 0, j: 0, k: 0 }, ccwRot60: 0 }
    } else if dir == 1 {
        FaceOrientIJK { face: 7, translate: CoordIJK { i: 2, j: 2, k: 0 }, ccwRot60: 3 }
    } else if dir == 2 {
        FaceOrientIJK { face: 8, translate: CoordIJK { i: 2, j: 0, k: 2 }, ccwRot60: 3 }
    } else
    {
        FaceOrientIJK { face: 17, translate: CoordIJK { i: 0, j: 2, k: 2 }, ccwRot60: 3 }
    }
    } else if face == 13 {
    if dir == 0 {
        FaceOrientIJK { face: 13, translate: CoordIJK { i: 0, j: 0, k: 0 }, ccwRot60: 0 }
    } else if dir == 1 {
        FaceOrientIJK { face: 8, translate: CoordIJK { i: 2, j: 2, k: 0 }, ccwRot60: 3 }
    } else if dir == 2 {
        FaceOrientIJK { face: 9, translate: CoordIJK { i: 2, j: 0, k: 2 }, ccwRot60: 3 }
    } else
    {
        FaceOrientIJK { face: 18, translate: CoordIJK { i: 0, j: 2, k: 2 }, ccwRot60: 3 }
    }
    } else if face == 14 {
    if dir == 0 {
        FaceOrientIJK { face: 14, translate: CoordIJK { i: 0, j: 0, k: 0 }, ccwRot60: 0 }
    } else if dir == 1 {
        FaceOrientIJK { face: 9, translate: CoordIJK { i: 2, j: 2, k: 0 }, ccwRot60: 3 }
    } else if dir == 2 {
        FaceOrientIJK { face: 5, translate: CoordIJK { i: 2, j: 0, k: 2 }, ccwRot60: 3 }
    } else
    {
        FaceOrientIJK { face: 19, translate: CoordIJK { i: 0, j: 2, k: 2 }, ccwRot60: 3 }
    }
    } else if face == 15 {
    if dir == 0 {
        FaceOrientIJK { face: 15, translate: CoordIJK { i: 0, j: 0, k: 0 }, ccwRot60: 0 }
    } else if dir == 1 {
        FaceOrientIJK { face: 16, translate: CoordIJK { i: 2, j: 0, k: 2 }, ccwRot60: 1 }
    } else if dir == 2 {
        FaceOrientIJK { face: 19, translate: CoordIJK { i: 2, j: 2, k: 0 }, ccwRot60: 5 }
    } else
    {
        FaceOrientIJK { face: 10, translate: CoordIJK { i: 0, j: 2, k: 2 }, ccwRot60: 3 }
    }
    } else if face == 16 {
    if dir == 0 {
        FaceOrientIJK { face: 16, translate: CoordIJK { i: 0, j: 0, k: 0 }, ccwRot60: 0 }
    } else if dir == 1 {
        FaceOrientIJK { face: 17, translate: CoordIJK { i: 2, j: 0, k: 2 }, ccwRot60: 1 }
    } else if dir == 2 {
        FaceOrientIJK { face: 15, translate: CoordIJK { i: 2, j: 2, k: 0 }, ccwRot60: 5 }
    } else
    {
        FaceOrientIJK { face: 11, translate: CoordIJK { i: 0, j: 2, k: 2 }, ccwRot60: 3 }
    }
    } else if face == 17 {
    if dir == 0 {
        FaceOrientIJK { face: 17, translate: CoordIJK { i: 0, j: 0, k: 0 }, ccwRot60: 0 }
    } else if dir == 1 {
        FaceOrientIJK { face: 18, translate: CoordIJK { i: 2, j: 0, k: 2 }, ccwRot60: 1 }
    } else if dir == 2 {
        FaceOrientIJK { face: 16, translate: CoordIJK { i: 2, j: 2, k: 0 }, ccwRot60: 5 }
    } else
    {
        FaceOrientIJK { face: 12, translate: CoordIJK { i: 0, j: 2, k: 2 }, ccwRot60: 3 }
    }
    } else if face == 18 {
    if dir == 0 {
        FaceOrientIJK { face: 18, translate: CoordIJK { i: 0, j: 0, k: 0 }, ccwRot60: 0 }
    } else if dir == 1 {
        FaceOrientIJK { face: 19, translate: CoordIJK { i: 2, j: 0, k: 2 }, ccwRot60: 1 }
    } else if dir == 2 {
        FaceOrientIJK { face: 17, translate: CoordIJK { i: 2, j: 2, k: 0 }, ccwRot60: 5 }
    } else
    {
        FaceOrientIJK { face: 13, translate: CoordIJK { i: 0, j: 2, k: 2 }, ccwRot60: 3 }
    }
    } else
    {
    if dir == 0 {
        FaceOrientIJK { face: 19, translate: CoordIJK { i: 0, j: 0, k: 0 }, ccwRot60: 0 }
    } else if dir == 1 {
        FaceOrientIJK { face: 15, translate: CoordIJK { i: 2, j: 0, k: 2 }, ccwRot60: 1 }
    } else if dir == 2 {
        FaceOrientIJK { face: 18, translate: CoordIJK { i: 2, j: 2, k: 0 }, ccwRot60: 5 }
    } else
    {
        FaceOrientIJK { face: 14, translate: CoordIJK { i: 0, j: 2, k: 2 }, ccwRot60: 3 }
    }
    }
}

/// Overage distance table: the maximum IJK dimension of a Class II face at each resolution (-1 in odd slots).
pub open spec fn maxDimByCIIres_s(res: int) -> int {
    if res == 0 {
        2
    } else if res == 1 {
        -1
    } else if res == 2 {
        14
    } else if res == 3 {
        -1
    } else if res == 4 {
        98
    } else if res == 5 {
        -1
    } else if res == 6 {
        686
    } else if res == 7 {
        -1
    } else if res == 8 {
        4802
    } else if res == 9 {
        -1
    } else if res == 10 {
        33614
    } else if res == 11 {
        -1
    } else if res == 12 {
        235298
    } else if res == 13 {
        -1
    } else if res == 14 {
        1647086
    } else if res == 15 {
        -1
    } else
    {
        11529602
    }
}

/// Overage distance table: the maximum IJK dimension of a Class II face at each resolution (-1 in odd slots).
pub fn maxDimByCIIres(res: i8) -> (r: i32)
    requires
        0 <= res <= 16,
    ensures
        r as int == maxDimByCIIres_s(res as int),
{
    if res == 0 {
        2
    } else if res == 1 {
        -1
    } else if res == 2 {
        14
    } else if res == 3 {
        -1
    } else if res == 4 {
        98
    } else if res == 5 {
        -1
    } else if res == 6 {
        686
    } else if res == 7 {
        -1
    } else if res == 8 {
        4802
    } else if res == 9 {
        -1
    } else if res == 10 {
        33614
    } else if res == 11 {
        -1
    } else if res == 12 {
        235298
    } else if res == 13 {
        -1
    } else if res == 14 {
        1647086
    } else if res == 15 {
        -1
    } else
    {
        11529602
    }
}

/// Unit-scale distance table: resolution-0 unit length of each Class II resolution (-1 in odd slots).
pub open spec fn unitScaleByCIIres_s(res: int) -> int {
    if res == 0 {
        1
    } else if res == 1 {
        -1
    } else if res == 2 {
        7
    } else if res == 3 {
        -1
    } else if res == 4 {
        49
    } else if res == 5 {
        -1
    } else if res == 6 {
        343
    } else if res == 7 {
        -1
    } else if res == 8 {
        2401
    } else if res == 9 {
        -1
    } else if res == 10 {
        16807
    } else if res == 11 {
        -1
    } else if res == 12 {
        117649
    } else if res == 13 {
        -1
    } else if res == 14 {
        823543
    } else if res == 15 {
        -1
    } else
    {
        5764801
    }
}

/// Unit-scale distance table: resolution-0 unit length of each Class II resolution (-1 in odd slots).
pub fn unitScaleByCIIres(res: i8) -> (r: i32)
    requires
        0 <= res <= 16,
    ensures
        r as int == unitScaleByCIIres_s(res as int),
{
    if res == 0 {
        1
    } else if res == 1 {
        -1
    } else if res == 2 {
        7
    } else if res == 3 {
        -1
    } else if res == 4 {
        49
    } else if res == 5 {
        -1
    } else if res == 6 {
        343
    } else if res == 7 {
        -1
    } else if res == 8 {
        2401
    } else if res == 9 {
        -1
    } else if res == 10 {
        16807
    } else if res == 11 {
        -1
    } else if res == 12 {
        117649
    } else if res == 13 {
        -1
    } else if res == 14 {
        823543
    } else if res == 15 {
        -1
    } else
    {
        5764801
    }
}


/// The dimension tables at an even (Class II) resolution.
proof fn lemma_dim_tables(res: int)
    requires
        0 <= res <= 16,
        res % 2 == 0,
    ensures
        2 <= maxDimByCIIres_s(res) <= 11529602,
        1 <= unitScaleByCIIres_s(res) <= 5764801,
{
}

/// What [`_adjustOverageClassII`] does to a face number, coordinate triple
/// and overage classification: no change when the coordinate sum is within
/// the face's maximum dimension; otherwise re-home into the neighboring face
/// of the overflowed quadrant by rotating and translating into its frame
/// (undoing the pentagonal 60-degree offset first when asked to).
pub open spec fn adjust_overage_s(
    face: int,
    t: (int, int, int),
    res: int,
    pentLeading4: bool,
    substrate: bool,
) -> (int, (int, int, int), Overage) {
    let maxDim0 = maxDimByCIIres_s(res);
    let maxDim = if substrate {
        3 * maxDim0
    } else {
        maxDim0
    };
    let sum = t.0 + t.1 + t.2;
    if substrate && sum == maxDim {
        (face, t, Overage::FACE_EDGE)
    } else if sum > maxDim {
        let quadrant: int = if t.2 > 0 {
            if t.1 > 0 {
                3
            } else {
                2
            }
        } else {
            1
        };
        let t1 = if quadrant == 2 && pentLeading4 {
            crate::coordijk::add3(
                crate::coordijk::rot60cw_s(crate::coordijk::sub3(t, (maxDim, 0, 0))),
                (maxDim, 0, 0),
            )
        } else {
            t
        };
        let nb = face_neighbors_s(face, quadrant);
        let rotated = crate::coordijk::rotn_ccw(t1, nb.2);
        let scale = if substrate {
            3 * unitScaleByCIIres_s(res)
        } else {
            unitScaleByCIIres_s(res)
        };
        let t2 = crate::coordijk::norm3(
            crate::coordijk::add3(rotated, crate::coordijk::scale3(nb.1, scale)),
        );
        let sum2 = t2.0 + t2.1 + t2.2;
        if substrate && sum2 == maxDim {
            (nb.0, t2, Overage::FACE_EDGE)
        } else {
            (nb.0, t2, Overage::NEW_FACE)
        }
    } else {
        (face, t, Overage::NO_OVERAGE)
    }
}

/// Rotates a coordinate ccw the given number of times, then translates it by
/// the scaled translation vector and normalizes, as crossing into an
/// adjacent face's frame requires.
fn rotate_translate_for_neighbor(ijk: &mut CoordIJK, rot: i8, translate: CoordIJK, unitScale: i32)
    requires
        0 <= rot < 6,
        crate::coordijk::bounded3(crate::coordijk::view3(*old(ijk)), 0x1800_0000),
        -0x0a00_0000 <= crate::coordijk::axial3(crate::coordijk::view3(*old(ijk))).0
            <= 0x0a00_0000,
        -0x0a00_0000 <= crate::coordijk::axial3(crate::coordijk::view3(*old(ijk))).1
            <= 0x0a00_0000,
        -0x0a00_0000 <= crate::coordijk::axial3(crate::coordijk::view3(*old(ijk))).0
            - crate::coordijk::axial3(crate::coordijk::view3(*old(ijk))).1 <= 0x0a00_0000,
        crate::coordijk::bounded3(crate::coordijk::view3(translate), 2),
        crate::coordijk::nonneg3(crate::coordijk::view3(translate)),
        -0x0108_0000 <= unitScale as int <= 0x0108_0000,
    ensures
        crate::coordijk::view3(*final(ijk)) == crate::coordijk::norm3(
            crate::coordijk::add3(
                crate::coordijk::rotn_ccw(crate::coordijk::view3(*old(ijk)), rot as int),
                crate::coordijk::scale3(crate::coordijk::view3(translate), unitScale as int),
            ),
        ),
        crate::coordijk::bounded3(crate::coordijk::view3(*final(ijk)), 0x1c40_0000),
        crate::coordijk::nonneg3(crate::coordijk::view3(*final(ijk))),
{
    let ghost t1 = crate::coordijk::view3(*ijk);
    let ghost s: int = 0x0a00_0000;
    let mut i: i8 = 0;
    while i < rot
        invariant
            0 <= i <= rot < 6,
            crate::coordijk::view3(*ijk) == crate::coordijk::rotn_ccw(t1, i as int),
            crate::coordijk::bounded3(t1, 0x1800_0000),
            -s <= crate::coordijk::axial3(t1).0 <= s,
            -s <= crate::coordijk::axial3(t1).1 <= s,
            -s <= crate::coordijk::axial3(t1).0 - crate::coordijk::axial3(t1).1 <= s,
            s == 0x0a00_0000,
        decreases rot - i,
    {
        proof {
            crate::coordijk::lemma_rotn_ccw_axial_bound(t1, i as int, s);
        }
        crate::coordijk::_ijkRotate60ccw(ijk);
        i = i + 1;
    }
    proof {
        crate::coordijk::lemma_rotn_ccw_axial_bound(t1, rot as int, s);
    }
    let mut transVec = translate;
    crate::coordijk::_ijkScale(&mut transVec, unitScale);
    proof {
        let w0 = translate.i as int;
        let w1 = translate.j as int;
        let w2 = translate.k as int;
        let u = unitScale as int;
        assert(-0x0210_0000 <= w0 * u <= 0x0210_0000 && -0x0210_0000 <= w1 * u <= 0x0210_0000
            && -0x0210_0000 <= w2 * u <= 0x0210_0000 && -0x0210_0000 <= w0 * u - w2 * u
            <= 0x0210_0000 && -0x0210_0000 <= w1 * u - w2 * u <= 0x0210_0000) by (nonlinear_arith)
            requires
                0 <= w0 <= 2,
                0 <= w1 <= 2,
                0 <= w2 <= 2,
                -2 <= w0 - w2 <= 2,
                -2 <= w1 - w2 <= 2,
                -0x0108_0000 <= u <= 0x0108_0000,
        ;
    }
    let mut translated = CoordIJK { i: 0, j: 0, k: 0 };
    crate::coordijk::_ijkAdd(*ijk, transVec, &mut translated);
    *ijk = translated;
    proof {
        crate::coordijk::lemma_norm3_from_axial(crate::coordijk::view3(*ijk), 0x0c20_0000);
    }
    crate::coordijk::_ijkNormalize(ijk);
}

/// Adjusts a FaceIJK address in place so that the resulting cell address is
/// relative to the correct icosahedral face, crossing an icosahedron edge
/// when the coordinates overflow their face.
#[verifier::rlimit(100)]
#[verifier::spinoff_prover]
pub fn _adjustOverageClassII(fijk: &mut FaceIJK, res: i8, pentLeading4: bool, substrate: bool) -> (
    r: Overage)
    requires
        0 <= res <= 16,
        res as int % 2 == 0,
        0 <= old(fijk).face < 20,
        crate::coordijk::bounded3(crate::coordijk::view3(old(fijk).coord), 0x0400_0000),
        pentLeading4 ==> !substrate,
    ensures
        (final(fijk).face as int, crate::coordijk::view3(final(fijk).coord), r)
            == adjust_overage_s(
            old(fijk).face as int,
            crate::coordijk::view3(old(fijk).coord),
            res as int,
            pentLeading4,
            substrate,
        ),
        0 <= final(fijk).face < 20,
        crate::coordijk::bounded3(crate::coordijk::view3(final(fijk).coord), 0x1c40_0000),
{
    proof {
        lemma_dim_tables(res as int);
    }
    let mut overage = Overage::NO_OVERAGE;

    let mut ijk = fijk.coord;
    let ghost t0 = crate::coordijk::view3(ijk);

    // get the maximum dimension value; scale if a substrate grid
    let mut maxDim = maxDimByCIIres(res);
    if substrate {
        maxDim = maxDim * 3;
    }

    // check for overage
    let sum: i64 = ijk.i as i64 + ijk.j as i64 + ijk.k as i64;
    if substrate && sum == maxDim as i64 {
        // on edge
        overage = Overage::FACE_EDGE;
    } else if sum > maxDim as i64 {
        // overage
        overage = Overage::NEW_FACE;

        let fijkOrient: FaceOrientIJK;
        if ijk.k > 0 {
            if ijk.j > 0 {
                // jk "quadrant"
                fijkOrient = faceNeighbors(fijk.face, JK);
            } else {
                // ik "quadrant"
                fijkOrient = faceNeighbors(fijk.face, KI);

                // adjust for the pentagonal missing sequence
                if pentLeading4 {
                    // translate origin to center of pentagon
                    let origin = CoordIJK { i: maxDim, j: 0, k: 0 };
                    let mut tmp = CoordIJK { i: 0, j: 0, k: 0 };
                    crate::coordijk::_ijkSub(ijk, origin, &mut tmp);
                    // rotate to adjust for the missing sequence
                    crate::coordijk::_ijkRotate60cw(&mut tmp);
                    // translate the origin back to the center of the triangle
                    let mut adjusted = CoordIJK { i: 0, j: 0, k: 0 };
                    crate::coordijk::_ijkAdd(tmp, origin, &mut adjusted);
                    ijk = adjusted;
                }
            }
        } else {
            // ij "quadrant"
            fijkOrient = faceNeighbors(fijk.face, IJ);
        }
        let ghost t1 = crate::coordijk::view3(ijk);
        let ghost s: int = 0x0a00_0000;
        proof {
            lemma_dim_tables(res as int);
            if pentLeading4 && t0.2 > 0 && !(t0.1 > 0) {
                let md = maxDim as int;
                let sb = crate::coordijk::sub3(t0, (md, 0, 0));
                crate::coordijk::lemma_rot60_axial(sb);
                crate::coordijk::lemma_norm3_from_axial(
                    (sb.0 + sb.1, sb.1 + sb.2, sb.0 + sb.2),
                    0x0900_0000,
                );
            }
            assert(-s <= crate::coordijk::axial3(t1).0 <= s);
            assert(-s <= crate::coordijk::axial3(t1).1 <= s);
            assert(-s <= crate::coordijk::axial3(t1).0 - crate::coordijk::axial3(t1).1 <= s);
            assert(crate::coordijk::bounded3(t1, 0x1800_0000));
        }

        fijk.face = fijkOrient.face;

        // rotate and translate for adjacent face
        let mut unitScale = unitScaleByCIIres(res);
        if substrate {
            unitScale = unitScale * 3;
        }
        rotate_translate_for_neighbor(&mut ijk, fijkOrient.ccwRot60, fijkOrient.translate,
            unitScale);

        // overage points on pentagon boundaries can end up on edges
        let sum2: i64 = ijk.i as i64 + ijk.j as i64 + ijk.k as i64;
        if substrate && sum2 == maxDim as i64 {
            // on edge
            overage = Overage::FACE_EDGE;
        }
    }

    fijk.coord = ijk;
    overage
}



/// What the pentagon vertex overage loop computes: repeat the substrate
/// overage adjustment until the result is no longer on a new face.  The
/// icosahedral closure stabilizes this in at most two steps for grid data;
/// the fuel and the coordinate-range test bound the loop for all inputs.
pub open spec fn pent_vert_overage_iter_s(
    face: int,
    t: (int, int, int),
    res: int,
    fuel: int,
) -> (int, (int, int, int), Overage)
    decreases fuel,
{
    let step = adjust_overage_s(face, t, res, false, true);
    if step.2 != Overage::NEW_FACE || fuel <= 1 || !crate::coordijk::bounded3(
        step.1,
        0x0400_0000,
    ) {
        step
    } else {
        pent_vert_overage_iter_s(step.0, step.1, res, fuel - 1)
    }
}

/// Adjusts a FaceIJK address for a pentagon vertex in a substrate grid so
/// that the result is relative to the correct icosahedral face, crossing as
/// many faces as needed.
pub fn _adjustPentVertOverage(fijk: &mut FaceIJK, res: i8) -> (r: Overage)
    requires
        0 <= res <= 16,
        res as int % 2 == 0,
        0 <= old(fijk).face < 20,
        crate::coordijk::bounded3(crate::coordijk::view3(old(fijk).coord), 0x0400_0000),
    ensures
        (final(fijk).face as int, crate::coordijk::view3(final(fijk).coord), r)
            == pent_vert_overage_iter_s(
            old(fijk).face as int,
            crate::coordijk::view3(old(fijk).coord),
            res as int,
            5,
        ),
        0 <= final(fijk).face < 20,
{
    let ghost f0 = old(fijk).face as int;
    let ghost t0 = crate::coordijk::view3(old(fijk).coord);
    let ghost resv = res as int;
    let mut overage = _adjustOverageClassII(fijk, res, false, true);
    let mut fuel: i8 = 4;
    while overage == Overage::NEW_FACE && fuel >= 1 && fijk.coord.i <= 0x0400_0000
        && fijk.coord.i >= -0x0400_0000 && fijk.coord.j <= 0x0400_0000 && fijk.coord.j
        >= -0x0400_0000 && fijk.coord.k <= 0x0400_0000 && fijk.coord.k >= -0x0400_0000
        invariant
            0 <= fuel <= 4,
            0 <= fijk.face < 20,
            0 <= res <= 16,
            res as int % 2 == 0,
            resv == res as int,
            if overage == Overage::NEW_FACE && fuel >= 1 && crate::coordijk::bounded3(
                crate::coordijk::view3(fijk.coord),
                0x0400_0000,
            ) {
                pent_vert_overage_iter_s(f0, t0, resv, 5) == pent_vert_overage_iter_s(
                    fijk.face as int,
                    crate::coordijk::view3(fijk.coord),
                    resv,
                    fuel as int,
                )
            } else {
                pent_vert_overage_iter_s(f0, t0, resv, 5) == (
                    fijk.face as int,
                    crate::coordijk::view3(fijk.coord),
                    overage,
                )
            },
        decreases fuel,
    {
        overage = _adjustOverageClassII(fijk, res, false, true);
        fuel = fuel - 1;
    }
    overage
}

/// The substrate vertex offsets of an origin-centered cell: in a Class II
/// resolution the aperture sequence is 33r, in a Class III resolution 33r7r;
/// vertices are listed ccw from the i-axes.  A pentagon uses the first five.
pub open spec fn hex_vert_offset_s(class3: bool, v: int) -> (int, int, int) {
    if class3 {
        if v == 0 {
            (5, 4, 0)
        } else if v == 1 {
            (1, 5, 0)
        } else if v == 2 {
            (0, 5, 4)
        } else if v == 3 {
            (0, 1, 5)
        } else if v == 4 {
            (4, 0, 5)
        } else {
            (5, 0, 1)
        }
    } else {
        if v == 0 {
            (2, 1, 0)
        } else if v == 1 {
            (1, 2, 0)
        } else if v == 2 {
            (0, 2, 1)
        } else if v == 3 {
            (0, 1, 2)
        } else if v == 4 {
            (1, 0, 2)
        } else {
            (2, 0, 1)
        }
    }
}

/// A cell center moved into its substrate grid: two aperture-3 steps, and a
/// clockwise aperture-7 step when the resolution is Class III.
pub open spec fn substrate_center_s(t: (int, int, int), class3: bool) -> (int, int, int) {
    let a = crate::coordijk::down_ap3_s(t);
    let b = crate::coordijk::down_ap3r_s(a);
    if class3 {
        crate::coordijk::down_ap7r_s(b)
    } else {
        b
    }
}

/// The substrate-grid coordinate of vertex v of the cell centered at t.
pub open spec fn cell_vert_s(t: (int, int, int), class3: bool, v: int) -> (int, int, int) {
    crate::coordijk::norm3(
        crate::coordijk::add3(substrate_center_s(t, class3), hex_vert_offset_s(class3, v)),
    )
}

/// One vertex: the substrate center plus an offset, normalized.
fn vertex_at(center: &FaceIJK, off_i: i32, off_j: i32, off_k: i32) -> (r: FaceIJK)
    requires
        crate::coordijk::bounded3(crate::coordijk::view3(center.coord), 0x1fff_fff0),
        0 <= off_i <= 5,
        0 <= off_j <= 5,
        0 <= off_k <= 5,
    ensures
        r.face == center.face,
        crate::coordijk::view3(r.coord) == crate::coordijk::norm3(
            crate::coordijk::add3(
                crate::coordijk::view3(center.coord),
                (off_i as int, off_j as int, off_k as int),
            ),
        ),
{
    let off = CoordIJK { i: off_i, j: off_j, k: off_k };
    let mut c = CoordIJK { i: 0, j: 0, k: 0 };
    crate::coordijk::_ijkAdd(center.coord, off, &mut c);
    crate::coordijk::_ijkNormalize(&mut c);
    FaceIJK { face: center.face, coord: c }
}

/// Moves a cell center into the substrate grid used for vertex generation,
/// bumping the resolution when a Class III adjustment is applied.
fn to_substrate_center(fijk: &mut FaceIJK, res: &mut i8)
    requires
        0 <= *old(res) <= 15,
        crate::coordijk::nonneg3(crate::coordijk::view3(old(fijk).coord)),
        crate::coordijk::bounded3(crate::coordijk::view3(old(fijk).coord), 0x00c0_0000),
    ensures
        final(fijk).face == old(fijk).face,
        crate::coordijk::view3(final(fijk).coord) == substrate_center_s(
            crate::coordijk::view3(old(fijk).coord),
            *old(res) as int % 2 == 1,
        ),
        *final(res) as int == *old(res) as int + (if *old(res) as int % 2 == 1 {
            1int
        } else {
            0int
        }),
        crate::coordijk::nonneg3(crate::coordijk::view3(final(fijk).coord)),
        crate::coordijk::bounded3(crate::coordijk::view3(final(fijk).coord), 0x1c00_0000),
        *final(res) as int % 2 == 0,
{
    // adjust the center point to be in an aperture 33r substrate grid
    crate::coordijk::_downAp3(&mut fijk.coord);
    crate::coordijk::_downAp3r(&mut fijk.coord);

    // if res is Class III we need to add a cw aperture 7 to get to
    // icosahedral Class II
    if crate::h3index::isResolutionClassIII(*res) {
        crate::coordijk::_downAp7r(&mut fijk.coord);
        *res = *res + 1;
    }
}

/// Gets the vertices of a hexagon cell as substrate FaceIJK addresses; the
/// cell center and resolution are moved to the substrate grid in place.
pub fn _faceIjkToVerts(fijk: &mut FaceIJK, res: &mut i8, fijkVerts: &mut [FaceIJK; 6])
    requires
        0 <= *old(res) <= 15,
        crate::coordijk::nonneg3(crate::coordijk::view3(old(fijk).coord)),
        crate::coordijk::bounded3(crate::coordijk::view3(old(fijk).coord), 0x00c0_0000),
    ensures
        final(fijk).face == old(fijk).face,
        crate::coordijk::view3(final(fijk).coord) == substrate_center_s(
            crate::coordijk::view3(old(fijk).coord),
            *old(res) as int % 2 == 1,
        ),
        *final(res) as int == *old(res) as int + (if *old(res) as int % 2 == 1 {
            1int
        } else {
            0int
        }),
        *final(res) as int % 2 == 0,
        forall|v: int|
            0 <= v < 6 ==> (#[trigger] final(fijkVerts)@[v]).face == old(fijk).face,
        forall|v: int|
            0 <= v < 6 ==> crate::coordijk::view3((#[trigger] final(fijkVerts)@[v]).coord)
                == cell_vert_s(
                crate::coordijk::view3(old(fijk).coord),
                *old(res) as int % 2 == 1,
                v,
            ),
{
    let ghost class3 = *old(res) as int % 2 == 1;
    let classIII = crate::h3index::isResolutionClassIII(*res);
    to_substrate_center(fijk, res);

    let center = *fijk;
    let v0 = if classIII {
        vertex_at(&center, 5, 4, 0)
    } else {
        vertex_at(&center, 2, 1, 0)
    };
    let v1 = if classIII {
        vertex_at(&center, 1, 5, 0)
    } else {
        vertex_at(&center, 1, 2, 0)
    };
    let v2 = if classIII {
        vertex_at(&center, 0, 5, 4)
    } else {
        vertex_at(&center, 0, 2, 1)
    };
    let v3 = if classIII {
        vertex_at(&center, 0, 1, 5)
    } else {
        vertex_at(&center, 0, 1, 2)
    };
    let v4 = if classIII {
        vertex_at(&center, 4, 0, 5)
    } else {
        vertex_at(&center, 1, 0, 2)
    };
    let v5 = if classIII {
        vertex_at(&center, 5, 0, 1)
    } else {
        vertex_at(&center, 2, 0, 1)
    };
    *fijkVerts = [v0, v1, v2, v3, v4, v5];
}

/// Gets the vertices of a pentagon cell as substrate FaceIJK addresses; the
/// cell center and resolution are moved to the substrate grid in place.
pub fn _faceIjkPentToVerts(fijk: &mut FaceIJK, res: &mut i8, fijkVerts: &mut [FaceIJK; 5])
    requires
        0 <= *old(res) <= 15,
        crate::coordijk::nonneg3(crate::coordijk::view3(old(fijk).coord)),
        crate::coordijk::bounded3(crate::coordijk::view3(old(fijk).coord), 0x00c0_0000),
    ensures
        final(fijk).face == old(fijk).face,
        crate::coordijk::view3(final(fijk).coord) == substrate_center_s(
            crate::coordijk::view3(old(fijk).coord),
            *old(res) as int % 2 == 1,
        ),
        *final(res) as int == *old(res) as int + (if *old(res) as int % 2 == 1 {
            1int
        } else {
            0int
        }),
        *final(res) as int % 2 == 0,
        forall|v: int|
            0 <= v < 5 ==> (#[trigger] final(fijkVerts)@[v]).face == old(fijk).face,
        forall|v: int|
            0 <= v < 5 ==> crate::coordijk::view3((#[trigger] final(fijkVerts)@[v]).coord)
                == cell_vert_s(
                crate::coordijk::view3(old(fijk).coord),
                *old(res) as int % 2 == 1,
                v,
            ),
{
    let classIII = crate::h3index::isResolutionClassIII(*res);
    to_substrate_center(fijk, res);

    let center = *fijk;
    let v0 = if classIII {
        vertex_at(&center, 5, 4, 0)
    } else {
        vertex_at(&center, 2, 1, 0)
    };
    let v1 = if classIII {
        vertex_at(&center, 1, 5, 0)
    } else {
        vertex_at(&center, 1, 2, 0)
    };
    let v2 = if classIII {
        vertex_at(&center, 0, 5, 4)
    } else {
        vertex_at(&center, 0, 2, 1)
    };
    let v3 = if classIII {
        vertex_at(&center, 0, 1, 5)
    } else {
        vertex_at(&center, 0, 1, 2)
    };
    let v4 = if classIII {
        vertex_at(&center, 4, 0, 5)
    } else {
        vertex_at(&center, 1, 0, 2)
    };
    *fijkVerts = [v0, v1, v2, v3, v4];
}




/// What the decoding overage loop computes for a pentagon cell: repeat the
/// non-substrate overage adjustment until the coordinate stays on its face.
/// Icosahedral closure stabilizes this quickly; the fuel and the
/// coordinate-range test bound the loop for all inputs.
pub open spec fn pent_decode_iter_s(
    face: int,
    t: (int, int, int),
    res: int,
    fuel: int,
) -> (int, (int, int, int), Overage)
    decreases fuel,
{
    let step = adjust_overage_s(face, t, res, false, false);
    if step.2 == Overage::NO_OVERAGE || fuel <= 1 || !crate::coordijk::bounded3(
        step.1,
        0x0400_0000,
    ) {
        step
    } else {
        pent_decode_iter_s(step.0, step.1, res, fuel - 1)
    }
}

/// Runs the decoding overage loop for a pentagon cell.
pub fn pent_decode_overage(fijk: &mut FaceIJK, res: i8) -> (r: Overage)
    requires
        0 <= res <= 16,
        res as int % 2 == 0,
        0 <= old(fijk).face < 20,
        crate::coordijk::bounded3(crate::coordijk::view3(old(fijk).coord), 0x0400_0000),
    ensures
        (final(fijk).face as int, crate::coordijk::view3(final(fijk).coord), r)
            == pent_decode_iter_s(
            old(fijk).face as int,
            crate::coordijk::view3(old(fijk).coord),
            res as int,
            5,
        ),
        0 <= final(fijk).face < 20,
{
    let ghost f0 = old(fijk).face as int;
    let ghost t0 = crate::coordijk::view3(old(fijk).coord);
    let ghost resv = res as int;
    let mut overage = _adjustOverageClassII(fijk, res, false, false);
    let mut fuel: i8 = 4;
    while overage != Overage::NO_OVERAGE && fuel >= 1 && fijk.coord.i <= 0x0400_0000
        && fijk.coord.i >= -0x0400_0000 && fijk.coord.j <= 0x0400_0000 && fijk.coord.j
        >= -0x0400_0000 && fijk.coord.k <= 0x0400_0000 && fijk.coord.k >= -0x0400_0000
        invariant
            0 <= fuel <= 4,
            0 <= fijk.face < 20,
            0 <= res <= 16,
            res as int % 2 == 0,
            resv == res as int,
            if overage != Overage::NO_OVERAGE && fuel >= 1 && crate::coordijk::bounded3(
                crate::coordijk::view3(fijk.coord),
                0x0400_0000,
            ) {
                pent_decode_iter_s(f0, t0, resv, 5) == pent_decode_iter_s(
                    fijk.face as int,
                    crate::coordijk::view3(fijk.coord),
                    resv,
                    fuel as int,
                )
            } else {
                pent_decode_iter_s(f0, t0, resv, 5) == (
                    fijk.face as int,
                    crate::coordijk::view3(fijk.coord),
                    overage,
                )
            },
        decreases fuel,
    {
        overage = _adjustOverageClassII(fijk, res, false, false);
        fuel = fuel - 1;
    }
    overage
}


} // verus!
