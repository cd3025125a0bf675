use anoto_dots::integer::{extended_euclid, NumberBasis, CRT};

#[test]
fn test_extended_euclid() {
    let (gcd, r, s) = extended_euclid(30, 20);
    assert_eq!(gcd, 10);
    assert_eq!(r * 30 + s * 20, gcd);
}

#[test]
fn extended_euclid_gives_bezout_coefficients() {
    let (gcd, r, s) = extended_euclid(240, 46);
    assert_eq!(gcd, 2);
    assert_eq!(r * 240 + s * 46, 2);
    let (gcd, r, s) = extended_euclid(0, 7);
    assert_eq!((gcd, r, s), (7, 0, 1));
    let (gcd, r, s) = extended_euclid(236, 233 * 31 * 241);
    assert_eq!(gcd, 1);
    assert_eq!(r * 236 + s * (233 * 31 * 241), 1);
}

#[test]
fn test_number_basis() {
    let nb = NumberBasis::new(&[3, 3, 2, 3]);
    assert_eq!(nb.upper, 54);

    let n = vec![0, 1, 53];
    let coeffs = nb.project(&n);
    assert_eq!(coeffs.len(), 3);
    assert_eq!(coeffs[0].len(), 4);

    let reconstructed = nb.reconstruct(&coeffs);
    assert_eq!(reconstructed, n);
}

#[test]
fn number_basis_bases_and_digits() {
    let nb = NumberBasis::new(&[3, 3, 2, 3]);
    assert_eq!(nb.bases, vec![1, 3, 9, 18]);
    assert_eq!(nb.rbases, vec![18, 9, 3, 1]);
    assert_eq!(nb.lower, 0);
    let coeffs = nb.project(&[0, 53, 14]);
    assert_eq!(coeffs[0], vec![0, 0, 0, 0]);
    assert_eq!(coeffs[1], vec![2, 2, 1, 2]);
    assert_eq!(coeffs[2], vec![2, 1, 1, 0]);
    assert_eq!(nb.reconstruct_one(&[2, 2, 1, 2]), 53);
}

#[test]
fn number_basis_round_trip_over_whole_range() {
    let nb = NumberBasis::new(&[3, 3, 2, 3]);
    let all: Vec<i64> = (0..54).collect();
    let coeffs = nb.project(&all);
    for row in coeffs.iter() {
        assert!(row[0] < 3 && row[1] < 3 && row[2] < 2 && row[3] < 3);
    }
    assert_eq!(nb.reconstruct(&coeffs), all);
}

#[test]
fn test_crt() {
    let crt = CRT::new(&[236, 233, 31, 241]).unwrap();
    let result = crt.solve(&[97, 0, 3, 211]);
    // This should produce a consistent result
    assert!(result >= 0);
}

#[test]
fn crt_solution_leaves_each_remainder() {
    let lengths = [236i64, 233, 31, 241];
    let crt = CRT::new(&lengths).unwrap();
    assert_eq!(crt.l, 236 * 233 * 31 * 241);
    let remainders = [97i64, 0, 3, 211];
    let x = crt.solve(&remainders);
    assert!(x >= 0 && x < crt.l);
    for (l, r) in lengths.iter().zip(remainders.iter()) {
        assert_eq!(x % l, *r);
    }
    assert_eq!(crt.solve(&[0, 0, 0, 0]), 0);
    assert_eq!(crt.solve(&[5, 5, 5, 5]), 5);
}

#[test]
fn crt_refuses_lengths_that_share_a_factor() {
    assert!(CRT::new(&[4, 6]).is_err());
    assert!(CRT::new(&[3, 5, 9]).is_err());
    assert!(CRT::new(&[3, 5, 7]).is_ok());
}
