//! A discrete global grid that tiles the sphere with hexagons (and twelve
//! pentagons) at sixteen nested resolutions.
//!
//! The grid is built on the twenty triangular faces of an icosahedron, each
//! face carrying its own three-axis hexagonal (IJK) coordinate frame.  A cell
//! is named by a 64-bit packed index holding its base cell and a string of
//! aperture-7 child digits.  This crate holds the integer core of that
//! system: the IJK coordinate algebra, the bit-packed index layer, the
//! 122-entry base-cell tables, and the face-coordinate engine (overage
//! handling and substrate-grid vertex generation).  The floating-point
//! projection between spherical coordinates and face coordinates lives
//! outside this crate and hands plain integer values in and out.
#![allow(non_snake_case)]
#![allow(non_camel_case_types)]
#![allow(non_upper_case_globals)]

pub mod basecells;
pub mod coordijk;
pub mod faceijk;
pub mod h3api;
pub mod h3index;
