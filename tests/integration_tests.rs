//! Comprehensive integration tests for the Anoto codec.

use anoto_dots::anoto_sequences::mns;
use anoto_dots::defaults;
use anoto_dots::helpers::rot90;
use anoto_dots::{BitMatrix, CodecError, DecodeFailure, DecodingError};

fn column(m: &BitMatrix, rows: usize, col: usize, ch: usize) -> Vec<i8> {
    (0..rows).map(|r| m.get(r, col, ch)).collect()
}

fn row(m: &BitMatrix, r: usize, cols: usize, ch: usize) -> Vec<i8> {
    (0..cols).map(|c| m.get(r, c, ch)).collect()
}

#[test]
fn test_bitmatrix_encode_different_sections() {
    let anoto = defaults::anoto_6x6_a4_fixed();

    let m = anoto.encode_bitmatrix((60, 60), (0, 0));
    assert_eq!(m.dim(), (60, 60, 2));
    assert_eq!(column(&m, 8, 0, 0), vec![0, 0, 0, 0, 0, 0, 1, 0]);
    assert_eq!(row(&m, 0, 8, 1), vec![0, 0, 0, 0, 0, 0, 1, 0]);

    let m = anoto.encode_bitmatrix((60, 60), (1, 1));
    assert_eq!(m.dim(), (60, 60, 2));
    assert_eq!(column(&m, 8, 0, 0), vec![0, 0, 0, 0, 0, 1, 0, 0]);
    assert_eq!(row(&m, 0, 8, 1), vec![0, 0, 0, 0, 0, 1, 0, 0]);
}

#[test]
fn test_bitmatrix_decode_position() {
    let anoto = defaults::anoto_6x6_a4_fixed();

    let test_cases = vec![(256, (0, 0)), (256, (10, 5)), (256, (5, 10))];

    for (size, section) in test_cases {
        let m = anoto.encode_bitmatrix((size, size), section);
        assert_eq!(m.dim(), (size, size, 2));

        // Test every 10th position to balance thoroughness with performance
        for y in (0..size - 6).step_by(10) {
            for x in (0..size - 6).step_by(10) {
                let sub = m.window(y, x, 6, 6);
                let xy = anoto.decode_position(&sub).unwrap();
                assert_eq!(xy, (x, y), "Failed at position ({}, {})", x, y);

                let sec = anoto.decode_section(&sub, xy).unwrap();
                assert_eq!(sec, section, "Failed section at position ({}, {})", x, y);
            }
        }
    }
}

#[test]
fn test_bitmatrix_decode_rotation() {
    let anoto = defaults::anoto_6x6_a4_fixed();
    let m = anoto.encode_bitmatrix((256, 256), (5, 10));

    // Test rotations at various positions
    for i in (0..128 - 8).step_by(20) {
        for j in (0..128 - 8).step_by(20) {
            let s = m.window(i, j, 8, 8);

            assert_eq!(anoto.decode_rotation(&s).unwrap(), 0, "Failed at position ({}, {})", i, j);

            let r1 = rot90(&s, 1);
            assert_eq!(
                anoto.decode_rotation(&r1).unwrap(),
                1,
                "Failed rotation 1 at position ({}, {})",
                i,
                j
            );

            let r2 = rot90(&s, 2);
            assert_eq!(
                anoto.decode_rotation(&r2).unwrap(),
                2,
                "Failed rotation 2 at position ({}, {})",
                i,
                j
            );

            let r3 = rot90(&s, 3);
            assert_eq!(
                anoto.decode_rotation(&r3).unwrap(),
                3,
                "Failed rotation 3 at position ({}, {})",
                i,
                j
            );
        }
    }
}

#[test]
fn test_decode_errors() {
    let anoto = defaults::anoto_6x6_a4_fixed();

    // Test with wrong sized matrix
    let small_matrix = BitMatrix::zeros(3, 3, 2);
    assert!(anoto.decode_position(&small_matrix).is_err());

    // Test with wrong number of channels
    let wrong_channels = BitMatrix::zeros(6, 6, 3);
    assert!(anoto.decode_position(&wrong_channels).is_err());
}

#[test]
fn test_encode_decode_round_trip() {
    let anoto = defaults::anoto_6x6_a4_fixed();

    // Test multiple section coordinates
    let sections = vec![(0, 0), (1, 1), (10, 5), (20, 30)];

    for section in sections {
        let m = anoto.encode_bitmatrix((50, 50), section);

        // Pick a few positions to test
        for y in [5, 15, 25].iter() {
            for x in [5, 15, 25].iter() {
                let sub = m.window(*y, *x, 6, 6);
                let decoded_pos = anoto.decode_position(&sub).unwrap();
                let decoded_sec = anoto.decode_section(&sub, decoded_pos).unwrap();

                assert_eq!(decoded_pos, (*x, *y));
                assert_eq!(decoded_sec, section);
            }
        }
    }
}

#[test]
fn example_window_of_a_small_page() {
    let anoto = defaults::anoto_6x6_a4_fixed();
    let g = anoto.encode_bitmatrix((9, 16), (10, 2));
    let sub = g.window(3, 7, 6, 6);
    let pos = anoto.decode_position(&sub).unwrap();
    assert_eq!(pos, (7, 3));
    assert_eq!(anoto.decode_section(&sub, pos).unwrap(), (10, 2));
}

#[test]
fn top_left_window_decodes_to_origin() {
    let anoto = defaults::anoto_6x6_a4_fixed();
    for (h, w, section) in [(6, 6, (0, 0)), (7, 12, (3, 60)), (20, 9, (62, 1)), (6, 40, (100, 7))] {
        let m = anoto.encode_bitmatrix((h, w), section);
        let sub = m.window(0, 0, 6, 6);
        assert_eq!(anoto.decode_position(&sub).unwrap(), (0, 0));
        let expected = (section.0 % 63, section.1 % 63);
        assert_eq!(anoto.decode_section(&m, (0, 0)).unwrap(), expected);
    }
}

#[test]
fn rotations_of_the_top_left_window() {
    let anoto = defaults::anoto_6x6_a4_fixed();
    let m = anoto.encode_bitmatrix((256, 256), (5, 10));
    let sub = m.window(0, 0, 8, 8);
    for k in 0..4 {
        assert_eq!(anoto.decode_rotation(&rot90(&sub, k)).unwrap(), k as usize);
    }
    // In a 6 by 6 window nearly every run of six bits occurs in the main
    // sequence, so the unrotated reading already passes the threshold.
    let small = m.window(0, 0, 6, 6);
    assert_eq!(anoto.decode_rotation(&small).unwrap(), 0);
}

#[test]
fn default_codecs_are_built() {
    let fixed = defaults::anoto_6x6_a4_fixed();
    assert_eq!(fixed.mns_order, 6);
    assert_eq!(fixed.delta_range, (5, 58));
    assert_eq!(fixed.num_basis.pfactors, vec![3, 3, 2, 3]);
    let published = defaults::anoto_6x6();
    assert_eq!(published.sns_lengths, vec![236, 233, 31, 241]);
}

#[test]
fn shape_errors_are_reported() {
    let anoto = defaults::anoto_6x6_a4_fixed();
    let e = anoto.decode_position(&BitMatrix::zeros(5, 6, 2)).unwrap_err();
    assert_eq!(e.kind, DecodeFailure::Shape);
    let e = anoto.decode_position(&BitMatrix::zeros(6, 5, 2)).unwrap_err();
    assert_eq!(e.kind, DecodeFailure::Shape);
    let e = anoto.decode_position(&BitMatrix::zeros(6, 6, 3)).unwrap_err();
    assert_eq!(e.kind, DecodeFailure::Shape);
    let e = anoto.decode_position(&BitMatrix::zeros(6, 6, 1)).unwrap_err();
    assert_eq!(e.kind, DecodeFailure::Shape);
    let e = anoto.decode_section(&BitMatrix::zeros(3, 3, 2), (0, 0)).unwrap_err();
    assert_eq!(e.kind, DecodeFailure::Shape);
    let e = anoto.decode_rotation(&BitMatrix::zeros(8, 8, 3)).unwrap_err();
    assert_eq!(e.kind, DecodeFailure::Shape);
    let e = anoto.decode_rotation(&BitMatrix::zeros(8, 5, 2)).unwrap_err();
    assert_eq!(e.kind, DecodeFailure::Shape);
}

#[test]
fn equal_columns_give_out_of_range_delta() {
    let anoto = defaults::anoto_6x6_a4_fixed();
    // Every column is the zero run at offset 0, so each delta is 0 < 5.
    let e = anoto.decode_position(&BitMatrix::zeros(6, 6, 2)).unwrap_err();
    assert_eq!(e.kind, DecodeFailure::OutOfRangeDelta);
}

#[test]
fn delta_above_range_is_refused() {
    let anoto = defaults::anoto_6x6_a4_fixed();
    let seq = mns();
    // Columns at offsets 0 and 60: the first delta is 60 > 58.
    let mut bits = BitMatrix::zeros(6, 6, 2);
    for c in 0..6 {
        for i in 0..6 {
            bits.set(i, c, 0, seq[(60 * c + i) % 63]);
        }
    }
    let e = anoto.decode_position(&bits).unwrap_err();
    assert_eq!(e.kind, DecodeFailure::OutOfRangeDelta);
}

#[test]
fn unknown_run_gives_mns_lookup_miss() {
    let anoto = defaults::anoto_6x6_a4_fixed();
    let mut bits = BitMatrix::zeros(6, 6, 2);
    for i in 0..6 {
        for j in 0..6 {
            bits.set(i, j, 0, 1);
        }
    }
    let e = anoto.decode_position(&bits).unwrap_err();
    assert_eq!(e.kind, DecodeFailure::MnsLookupMiss);
    let e = anoto.decode_section(&bits, (0, 0)).unwrap_err();
    assert_eq!(e.kind, DecodeFailure::MnsLookupMiss);
}

#[test]
fn missing_digit_column_gives_sns_lookup_miss() {
    let anoto = defaults::anoto_6x6_a4_fixed();
    let seq = mns();
    // Every delta is 14: its digits are (0, 0, 1, 0), and the run 1,1,1,1,1
    // does not occur in the third secondary sequence.
    let mut bits = BitMatrix::zeros(6, 6, 2);
    for c in 0..6 {
        for i in 0..6 {
            bits.set(i, c, 0, seq[(14 * c + i) % 63]);
        }
    }
    let e = anoto.decode_position(&bits).unwrap_err();
    assert_eq!(e.kind, DecodeFailure::SnsLookupMiss);
}

#[test]
fn unreadable_window_gives_rotation_undetermined() {
    let anoto = defaults::anoto_6x6_a4_fixed();
    let mut bits = BitMatrix::zeros(8, 8, 2);
    for i in 0..8 {
        for j in 0..8 {
            bits.set(i, j, 0, 1);
            bits.set(i, j, 1, 1);
        }
    }
    let e = anoto.decode_rotation(&bits).unwrap_err();
    assert_eq!(e.kind, DecodeFailure::RotationUndetermined);
}

#[test]
fn errors_carry_kind_and_message() {
    let e = DecodingError::new(DecodeFailure::SnsLookupMiss, "no match");
    assert_eq!(e.kind, DecodeFailure::SnsLookupMiss);
    assert_eq!(e.to_string(), "no match");
    let c = CodecError::from(e.clone());
    assert_eq!(c.to_string(), "no match");
    match c {
        CodecError::Decoding(inner) => assert_eq!(inner.message, e.message),
    }
}
