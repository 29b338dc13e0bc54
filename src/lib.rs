//! The geometric kernel of a 3D modeller: the index arithmetic and tables behind B-spline
//! basis functions, N-dimensional array indexing, the decisions of the bounding-box engine,
//! and the boundary representation of solids built by Euler operators.
use vstd::prelude::*;

pub mod boxing;
pub mod common;
pub mod dcel;
pub mod euler;
pub mod ndarray;
pub mod schema;
pub mod splines;
pub mod utilities;
pub mod viewer;

verus! {

} // verus!
