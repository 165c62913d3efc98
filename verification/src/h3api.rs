use vstd::prelude::*;

verus! {

/// Axial (two-component) hexagon coordinates, the "IJ" flattening of the
/// three-axis IJK system obtained by subtracting the k component.
#[derive(Copy, Clone, PartialEq, Eq, Structural, Debug)]
pub struct CoordIJ {
    /// i component
    pub i: i32,
    /// j component
    pub j: i32,
}

/// Result code of the fallible grid operations.  Errors are values, never
/// panics; `E_SUCCESS` means the output argument was written.
#[derive(Copy, Clone, PartialEq, Eq, Structural, Debug)]
pub enum H3Error {
    /// Success (no error)
    E_SUCCESS,
    /// The operation failed but a more specific error is not available
    E_FAILED,
    /// Argument was outside of acceptable range
    E_DOMAIN,
    /// Latitude or longitude arguments were outside of acceptable range
    E_LATLNG_DOMAIN,
    /// Resolution argument was outside of acceptable range
    E_RES_DOMAIN,
    /// Cell index argument was not valid
    E_CELL_INVALID,
    /// Directed edge argument was not valid
    E_DIR_EDGE_INVALID,
    /// Undirected edge argument was not valid
    E_UNDIR_EDGE_INVALID,
    /// Vertex argument was not valid
    E_VERTEX_INVALID,
    /// Pentagon distortion was encountered which the algorithm could not handle
    E_PENTAGON,
    /// Duplicate input was encountered in the arguments
    E_DUPLICATE_INPUT,
    /// Cell arguments were not neighbors
    E_NOT_NEIGHBORS,
    /// Cell arguments had incompatible resolutions
    E_RES_MISMATCH,
    /// Necessary memory allocation failed
    E_MEMORY,
    /// Bounds of provided memory were not large enough
    E_MEMORY_BOUNDS,
    /// Mode or flags argument was not valid
    E_OPTION_INVALID,
}

} // verus!
