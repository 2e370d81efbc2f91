//! Procedural globe built on a fixed icosahedron.
//!
//! The surface of the sphere is split into five rhombus-shaped "root quads",
//! each assembled from four icosahedron faces. A 2D parameter coordinate
//! inside a root quad is mapped to a direction in space by barycentric
//! interpolation of the faces' corner vertices; normalizing that direction
//! (left to the unverified rendering layer, since it needs floating point)
//! bends the flat interpolation onto the unit sphere.
//!
//! All geometry in this crate is exact: parameter coordinates are rationals
//! over a shared denominator, and spatial coordinates are integer elements
//! `a + b·φ` of the golden-ratio field, which is closed under every
//! operation the interpolation needs. The rendering layer only evaluates
//! `φ`, divides by the denominator and normalizes.

use vstd::prelude::*;

pub mod chunk;
pub mod icosahedron;
pub mod mesh;
pub mod project;
pub mod random;
pub mod globe;

verus! {

/// The two ways construction can be refused; see `globe::Spec` and
/// `chunk::Root`.
#[derive(Clone, Copy, Debug, PartialEq, Eq, Structural)]
pub enum GlobeError {
    /// The chunk grid does not divide the root quad grid evenly.
    InvalidSpec,
    /// A root quad index at or above `chunk::ROOT_QUADS`.
    InvalidRootIndex,
}

} // verus!
