//! Validation of the descriptors from which curves and surfaces are built.
use vstd::prelude::*;
use crate::splines::PMAX;

verus! {

/// Why a descriptor was rejected.
#[derive(Clone, Copy, Debug, PartialEq, Eq, Structural)]
pub enum DescriptorError {
    /// The knots do not form a non-decreasing sequence.
    InvalidKnotVector,
    /// A weight is negative.
    InvalidWeight,
    /// The numbers of knots, control points and weights do not agree.
    LengthMismatch,
    /// The degree exceeds the largest one supported.
    DegreeTooLarge,
    /// A direction that must have unit length does not.
    NonUnitaryVector,
    /// Two axes that must be orthogonal are not.
    NonOrthogonalAxes,
}

impl DescriptorError {
    /// A description of the error.
    pub fn message(&self) -> (r: &'static str) {
        match self {
            DescriptorError::InvalidKnotVector => "knot vector is not sorted",
            DescriptorError::InvalidWeight => "weights must not be negative",
            DescriptorError::LengthMismatch => "numbers of knots, control points and weights do not agree",
            DescriptorError::DegreeTooLarge => "degree exceeds the largest supported",
            DescriptorError::NonUnitaryVector => "direction vector not unitary",
            DescriptorError::NonOrthogonalAxes => "axes are not orthogonal",
        }
    }
}

/// A description of a geometric entity that can be checked before the entity is built.
pub trait Descriptor {
    fn is_valid(&self) -> Result<(), DescriptorError>;
}

/// The first shape rule that a curve descriptor breaks, if any: a degree `p` of at most
/// [`PMAX`], as many weights as control points, and as many knots as control points plus
/// `p + 1`.
pub open spec fn bcurve_shape_error(p: int, num_knots: int, num_points: int, num_weights: int) -> Option<
    DescriptorError,
> {
    if p > PMAX {
        Some(DescriptorError::DegreeTooLarge)
    } else if num_weights != num_points {
        Some(DescriptorError::LengthMismatch)
    } else if num_knots != num_points + p + 1 {
        Some(DescriptorError::LengthMismatch)
    } else {
        None
    }
}

/// Checks the sizes of a curve descriptor of degree `p` with the given numbers of knots,
/// control points and weights.
pub fn check_bcurve_shape(p: usize, num_knots: usize, num_points: usize, num_weights: usize) -> (r:
    Result<(), DescriptorError>)
    ensures
        r is Ok <==> bcurve_shape_error(
            p as int,
            num_knots as int,
            num_points as int,
            num_weights as int,
        ) is None,
        r matches Err(e) ==> bcurve_shape_error(
            p as int,
            num_knots as int,
            num_points as int,
            num_weights as int,
        ) == Some(e),
{
    if p > PMAX {
        Err(DescriptorError::DegreeTooLarge)
    } else if num_weights != num_points {
        Err(DescriptorError::LengthMismatch)
    } else if num_knots < p + 1 || num_knots - p - 1 != num_points {
        Err(DescriptorError::LengthMismatch)
    } else {
        Ok(())
    }
}

/// The first shape rule that a surface descriptor breaks, if any: degrees `p` and `q` of at
/// most [`PMAX`], as many weights as control points, and a grid of control points whose sides
/// are the numbers of knots in `u` and `v` less the degree plus one.
pub open spec fn bsurface_shape_error(
    p: int,
    q: int,
    num_knots_u: int,
    num_knots_v: int,
    num_points: int,
    num_weights: int,
) -> Option<DescriptorError> {
    if p > PMAX || q > PMAX {
        Some(DescriptorError::DegreeTooLarge)
    } else if num_weights != num_points {
        Some(DescriptorError::LengthMismatch)
    } else if num_knots_u < p + 1 || num_knots_v < q + 1 {
        Some(DescriptorError::LengthMismatch)
    } else if (num_knots_u - p - 1) * (num_knots_v - q - 1) != num_points {
        Some(DescriptorError::LengthMismatch)
    } else {
        None
    }
}

/// Checks the sizes of a surface descriptor of degrees `p` and `q` with the given numbers of
/// knots in each direction, control points and weights.
pub fn check_bsurface_shape(
    p: usize,
    q: usize,
    num_knots_u: usize,
    num_knots_v: usize,
    num_points: usize,
    num_weights: usize,
) -> (r: Result<(), DescriptorError>)
    ensures
        r is Ok <==> bsurface_shape_error(
            p as int,
            q as int,
            num_knots_u as int,
            num_knots_v as int,
            num_points as int,
            num_weights as int,
        ) is None,
        r matches Err(e) ==> bsurface_shape_error(
            p as int,
            q as int,
            num_knots_u as int,
            num_knots_v as int,
            num_points as int,
            num_weights as int,
        ) == Some(e),
{
    if p > PMAX || q > PMAX {
        return Err(DescriptorError::DegreeTooLarge);
    }
    if num_weights != num_points {
        return Err(DescriptorError::LengthMismatch);
    }
    if num_knots_u < p + 1 || num_knots_v < q + 1 {
        return Err(DescriptorError::LengthMismatch);
    }
    let r = num_knots_u - p - 1;
    let s = num_knots_v - q - 1;
    match r.checked_mul(s) {
        Some(n) => {
            if n != num_points {
                Err(DescriptorError::LengthMismatch)
            } else {
                Ok(())
            }
        },
        None => Err(DescriptorError::LengthMismatch),
    }
}

} // verus!
