//! Options shared by the views of geometric entities.
use vstd::prelude::*;

verus! {

/// Options for generating points on a curve
#[derive(Clone, Copy, Debug, PartialEq, Eq, Structural)]
pub enum CurveViewMethod {
    /// Points uniformly spaced in parameter space
    Uniform,
    /// Points clustered in areas of high curvature
    Curvature,
}

impl Default for CurveViewMethod {
    fn default() -> (r: Self)
        ensures
            r == CurveViewMethod::Uniform,
    {
        CurveViewMethod::Uniform
    }
}

/// A type that can be shown in a viewer.
///
/// An implementation turns the value into one or more meshes and sends them to a viewer that
/// listens on the given port.
pub trait Viewable {
    /// The visualisation options of the type.
    type Options;

    fn view(&mut self, port: usize, opts: &Self::Options);
}

} // verus!
