use topohedral_modeller::common::{check_bcurve_shape, check_bsurface_shape, DescriptorError};
use topohedral_modeller::utilities::lower_bound;
use topohedral_modeller::viewer::CurveViewMethod;

#[test]
fn bcurve_shape_accepts_consistent_sizes() {
    assert_eq!(check_bcurve_shape(3, 10, 6, 6), Ok(()));
}

#[test]
fn bcurve_shape_errors() {
    assert_eq!(check_bcurve_shape(9, 16, 6, 6), Err(DescriptorError::DegreeTooLarge));
    assert_eq!(check_bcurve_shape(3, 10, 6, 5), Err(DescriptorError::LengthMismatch));
    assert_eq!(check_bcurve_shape(3, 9, 6, 6), Err(DescriptorError::LengthMismatch));
    assert_eq!(check_bcurve_shape(3, 2, 0, 0), Err(DescriptorError::LengthMismatch));
    assert_eq!(check_bcurve_shape(8, 9, 0, 0), Ok(()));
}

#[test]
fn bsurface_shape_checks() {
    assert_eq!(check_bsurface_shape(2, 1, 7, 5, 12, 12), Ok(()));
    assert_eq!(check_bsurface_shape(2, 9, 7, 5, 12, 12), Err(DescriptorError::DegreeTooLarge));
    assert_eq!(check_bsurface_shape(2, 1, 7, 5, 12, 11), Err(DescriptorError::LengthMismatch));
    assert_eq!(check_bsurface_shape(2, 1, 7, 5, 13, 13), Err(DescriptorError::LengthMismatch));
    assert_eq!(check_bsurface_shape(2, 1, 2, 5, 0, 0), Err(DescriptorError::LengthMismatch));
    assert_eq!(
        check_bsurface_shape(0, 0, usize::MAX, usize::MAX, 1, 1),
        Err(DescriptorError::LengthMismatch)
    );
}

#[test]
fn descriptor_error_messages() {
    assert_eq!(DescriptorError::NonUnitaryVector.message(), "direction vector not unitary");
    assert_eq!(DescriptorError::NonOrthogonalAxes.message(), "axes are not orthogonal");
}

#[test]
fn lower_bound_finds_the_first_not_less() {
    let v = [1.0, 2.0, 2.0, 5.0];
    assert_eq!(lower_bound(&v, 2.0), 1);
    assert_eq!(lower_bound(&v, 0.0), 0);
    assert_eq!(lower_bound(&v, 6.0), 4);
    assert_eq!(lower_bound(&v, f64::NAN), 0);
    let empty: [u32; 0] = [];
    assert_eq!(lower_bound(&empty, 3), 0);
}

#[test]
fn curve_view_method_defaults_to_uniform() {
    assert_eq!(CurveViewMethod::default(), CurveViewMethod::Uniform);
}
