use anoto_dots::helpers::{bits_to_num, num_to_bits, rot90, rotate_array};
use anoto_dots::BitMatrix;

#[test]
fn test_bits_to_num_and_back() {
    let mut bits = BitMatrix::zeros(2, 2, 2);
    bits.set(0, 0, 0, 0);
    bits.set(0, 0, 1, 0);
    bits.set(0, 1, 0, 1);
    bits.set(0, 1, 1, 0);
    bits.set(1, 0, 0, 0);
    bits.set(1, 0, 1, 1);
    bits.set(1, 1, 0, 1);
    bits.set(1, 1, 1, 1);

    let nums = bits_to_num(&bits);
    let reconstructed = num_to_bits(&nums, 2);

    assert_eq!(bits, reconstructed);
}

#[test]
fn codes_to_bits_and_back() {
    let codes: Vec<Vec<u8>> = vec![vec![0, 1], vec![2, 3], vec![3, 0]];
    let bits = num_to_bits(&codes, 2);
    assert_eq!(bits.dim(), (3, 2, 2));
    assert_eq!(bits.get(1, 0, 0), 0);
    assert_eq!(bits.get(1, 0, 1), 1);
    assert_eq!(bits.get(0, 1, 0), 1);
    assert_eq!(bits.get(0, 1, 1), 0);
    assert_eq!(bits_to_num(&bits), codes);
}

#[test]
fn test_rotate_array() {
    let arr: Vec<Vec<u8>> = vec![vec![1, 2], vec![3, 4]];
    // Input:
    // 1 2
    // 3 4

    // 90 CCW rotation:
    // 2 4
    // 1 3
    let rot1 = rotate_array(&arr, 2, 1);
    assert_eq!(rot1[0][0], 2);
    assert_eq!(rot1[0][1], 4);
    assert_eq!(rot1[1][0], 1);
    assert_eq!(rot1[1][1], 3);

    // 180 rotation:
    // 4 3
    // 2 1
    let rot2 = rotate_array(&arr, 2, 2);
    assert_eq!(rot2[0][0], 4);
    assert_eq!(rot2[0][1], 3);
    assert_eq!(rot2[1][0], 2);
    assert_eq!(rot2[1][1], 1);

    let rot4 = rotate_array(&arr, 2, 4);
    assert_eq!(rot4, arr);
}

#[test]
fn rotate_array_non_square_and_negative() {
    let arr: Vec<Vec<u8>> = vec![vec![1, 2, 3], vec![4, 5, 6]];
    assert_eq!(rotate_array(&arr, 3, 1), vec![vec![3, 6], vec![2, 5], vec![1, 4]]);
    assert_eq!(rotate_array(&arr, 3, 3), vec![vec![4, 1], vec![5, 2], vec![6, 3]]);
    assert_eq!(rotate_array(&arr, 3, -1), rotate_array(&arr, 3, 3));
}

#[test]
fn rot90_remaps_directions() {
    // A single dot with code 1 (x bit set): under one turn its direction
    // index 3 becomes 2, whose code is 3.
    let mut bits = BitMatrix::zeros(1, 1, 2);
    bits.set(0, 0, 0, 1);
    let r1 = rot90(&bits, 1);
    assert_eq!((r1.get(0, 0, 0), r1.get(0, 0, 1)), (1, 1));
    let r2 = rot90(&bits, 2);
    assert_eq!((r2.get(0, 0, 0), r2.get(0, 0, 1)), (0, 1));
    let r4 = rot90(&bits, 4);
    assert_eq!(r4, bits);
}

#[test]
fn rot90_four_times_is_identity() {
    let mut bits = BitMatrix::zeros(2, 3, 2);
    bits.set(0, 1, 0, 1);
    bits.set(1, 2, 1, 1);
    bits.set(1, 0, 0, 1);
    bits.set(1, 0, 1, 1);
    let mut r = bits.clone();
    for _ in 0..4 {
        r = rot90(&r, 1);
    }
    assert_eq!(r, bits);
    assert_eq!(rot90(&bits, 1).dim(), (3, 2, 2));
    assert_eq!(rot90(&rot90(&bits, 1), -1), bits);
}

#[test]
fn bits_round_trip_without_rows_keeps_width() {
    let bits = BitMatrix::zeros(0, 3, 2);
    let nums = bits_to_num(&bits);
    assert!(nums.is_empty());
    assert_eq!(num_to_bits(&nums, 3), bits);
}
