use approx::UlpsEq;
use topohedral_modeller::splines::{
    binom_coeff, find_span, multiplicites, multiplicity, non_zero_basis_range, upper_bound, PMAX,
};

const KNOT_ULPS: u32 = 32;

fn knot_eq(u1: f64, u2: f64) -> bool {
    u1.ulps_eq(&u2, f64::EPSILON, KNOT_ULPS)
}

fn knot_le(u1: f64, u2: f64) -> bool {
    u1 < u2 || knot_eq(u1, u2)
}

fn next_up(x: f64) -> f64 {
    // x is positive in every use below
    f64::from_bits(x.to_bits() + 1)
}

#[test]
fn binomcoeff() {
    let binom = binom_coeff(5);
    assert_eq!(binom[5][0] as f64, 1.0);
    assert_eq!(binom[5][1] as f64, 5.0);
    assert_eq!(binom[5][2] as f64, 10.0);
    assert_eq!(binom[5][3] as f64, 10.0);
    assert_eq!(binom[5][4] as f64, 5.0);
    assert_eq!(binom[5][5] as f64, 1.0);
}

#[test]
fn binomial_table_is_zero_above_the_diagonal() {
    let binom = binom_coeff(3);
    assert_eq!(binom.len(), 4);
    assert_eq!(binom[1], vec![1, 1, 0, 0]);
    assert_eq!(binom[3], vec![1, 3, 3, 1]);
    assert_eq!(binom[0], vec![1, 0, 0, 0]);
}

#[test]
fn binomial_table_largest_size() {
    let binom = binom_coeff(63);
    assert_eq!(binom[63][31], 916312070471295267);
    assert_eq!(binom[63][63], 1);
}

#[test]
fn multiplicites_test() {
    let u0 = 0.0f64;
    let u1 = 0.2f64;
    let u2_1 = 0.4f64;
    let u2_2 = next_up(u2_1);
    let u2_3 = next_up(u2_2);
    let u3 = 1.0f64;
    let mut u4 = u3;
    for _ in 0..KNOT_ULPS + 1 {
        u4 = next_up(u4);
    }
    let knots = vec![u0, u0, u0, u0, u1, u1, u2_1, u2_2, u2_3, u3, u3, u3, u3, u4];

    let mults1 = vec![(u0, 4), (u1, 2), (u2_1, 3), (u3, 4), (u4, 1)];
    let mults2 = multiplicites(&knots, knot_eq);

    for i in 0..mults1.len() {
        assert_eq!(mults1[i].0, mults2[i].0);
        assert_eq!(mults1[i].1, mults2[i].1);
    }
}

#[test]
fn multiplicities_expand_back_to_the_knots() {
    let knots = vec![0.0, 0.0, 0.0, 0.5, 0.75, 0.75, 1.0, 1.0, 1.0];
    let runs = multiplicites(&knots, knot_eq);
    assert_eq!(runs, vec![(0.0, 3), (0.5, 1), (0.75, 2), (1.0, 3)]);
    let mut expanded = Vec::new();
    for (value, count) in runs {
        for _ in 0..count {
            expanded.push(value);
        }
    }
    assert_eq!(expanded, knots);
}

#[test]
fn multiplicities_of_a_single_knot() {
    assert_eq!(multiplicites(&[2u8], |a: u8, b: u8| a == b), vec![(2u8, 1)]);
}

#[test]
fn multiplicities_compare_with_the_first_knot_of_a_run() {
    // 1 ~ 2 and 2 ~ 3 but not 1 ~ 3: the third knot starts a new run
    let near = |a: i32, b: i32| (a - b).abs() <= 1;
    assert_eq!(multiplicites(&[1, 2, 3], near), vec![(1, 2), (3, 1)]);
}

#[test]
fn basis_range_interior_span() {
    // cubic, knots [0,0,0,0,0.5,0.75,1,1,1,1]: span 4 touches control points 1..5
    assert_eq!(non_zero_basis_range(4, 3, 10), (1, 5, 4));
}

#[test]
fn basis_range_clipped_at_both_ends() {
    assert_eq!(non_zero_basis_range(3, 3, 10), (0, 4, 4));
    assert_eq!(non_zero_basis_range(6, 3, 10), (3, 6, 3));
    assert_eq!(non_zero_basis_range(0, 0, 2), (0, 1, 1));
    assert!(PMAX >= 4);
}

#[test]
fn find_span_of_a_cubic() {
    let knots = [0.0, 0.0, 0.0, 0.0, 0.5, 0.75, 1.0, 1.0, 1.0, 1.0];
    assert_eq!(find_span(&knots, 0.0, 3, knot_eq, knot_le), 3);
    assert_eq!(find_span(&knots, 0.25, 3, knot_eq, knot_le), 3);
    assert_eq!(find_span(&knots, 0.5, 3, knot_eq, knot_le), 4);
    assert_eq!(find_span(&knots, 0.6, 3, knot_eq, knot_le), 4);
    assert_eq!(find_span(&knots, 0.8, 3, knot_eq, knot_le), 5);
    // the end of the range falls in the last non-empty span
    assert_eq!(find_span(&knots, 1.0, 3, knot_eq, knot_le), 5);
}

#[test]
fn find_span_tolerates_knots_a_few_ulps_apart() {
    let knots = [0.0, 0.0, 0.5, 1.0, 1.0];
    let u = f64::from_bits(0.5f64.to_bits() - 3);
    assert_eq!(find_span(&knots, u, 1, knot_eq, knot_le), 2);
}

#[test]
fn upper_bound_counts_elements_at_or_below() {
    let arr = [1, 2, 2, 3, 7];
    let le = |a: i32, b: i32| a <= b;
    assert_eq!(upper_bound(&arr, 2, &le), 3);
    assert_eq!(upper_bound(&arr, 0, &le), 0);
    assert_eq!(upper_bound(&arr, 9, &le), 5);
}

#[test]
fn multiplicity_lookup_in_the_table() {
    let knots = vec![0.0, 0.0, 0.0, 0.5, 0.75, 0.75, 1.0, 1.0, 1.0];
    let runs = multiplicites(&knots, knot_eq);
    assert_eq!(multiplicity(&runs, 0.75, knot_eq), 2);
    assert_eq!(multiplicity(&runs, 1.0, knot_eq), 3);
    assert_eq!(multiplicity(&runs, f64::from_bits(0.5f64.to_bits() + 2), knot_eq), 1);
    assert_eq!(multiplicity(&runs, 0.6, knot_eq), 0);
}
