//! Coordinate system markers. These are zero-sized tags distinguishing
//! coordinate conventions; they carry no runtime data.

use vstd::prelude::*;

verus! {

/// Marker trait for coordinate systems.
pub trait CoordinateSystem: Copy + Clone {}

/// Standard cartesian coordinates.
#[derive(Debug, Copy, Clone, PartialEq, Eq, Structural)]
pub struct CartesianCoordinates;

impl CoordinateSystem for CartesianCoordinates {}

} // verus!
