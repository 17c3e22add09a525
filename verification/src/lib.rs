//! A small software renderer: matrices of fixed shape over any number type,
//! the geometry of points, triangles and meshes built on them, and a ray
//! caster that shades each pixel by the nearest triangle that its ray meets
//! and by what the reflected ray brings back.
//!
//! The number type is a parameter (`scalar::Scalar`). Every contract says
//! which of its operations are applied to which entries and in which order,
//! so it holds of floating point, with its rounding, infinities and
//! not-a-numbers, as it does of the exact whole numbers of `whole::Whole`.
//!
//! The laws of matrix algebra are proved in `laws` for every number type
//! that keeps the law of numbers that each one rests on, and in
//! `whole_laws` and `unimodular` outright for matrices of whole numbers.

pub mod adjugate;
pub mod bitmap;
pub mod laws;
pub mod matrix;
pub mod matrix_3d;
pub mod raster;
pub mod raycast;
pub mod scalar;
pub mod scene;
pub mod square;
pub mod unimodular;
pub mod vector;
pub mod whole;
pub mod whole_laws;
