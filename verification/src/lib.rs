//! Generic field algebra and finite-difference differentiation on sampled
//! grids.
//!
//! The crate has two layers. `prelude` holds the abstract-algebra scaffolding
//! (scalar fields, finite vector spaces, an exact rational backend, and the
//! numerical differentiation engine); `fields` holds the field abstractions
//! (scalar and vector fields over a domain, discrete grid-sampled fields, and
//! the always-zero identity fields).

pub mod fields;
pub mod prelude;
