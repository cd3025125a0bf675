use anoto_dots::anoto_sequences::{a1, a2, a3, a4_alt, mns};
use anoto_dots::AnotoCodec;

fn create_test_codec() -> AnotoCodec {
    AnotoCodec::new(&mns(), 6, &[a1(), a2(), a3(), a4_alt()], &[3, 3, 2, 3], (5, 58)).unwrap()
}

#[test]
fn test_encode_bitmatrix() {
    let codec = create_test_codec();
    let m = codec.encode_bitmatrix((60, 60), (0, 0));
    assert_eq!(m.dim(), (60, 60, 2));
}

#[test]
fn test_encode_decode_position() {
    let codec = create_test_codec();
    let m = codec.encode_bitmatrix((100, 100), (5, 10));

    for y in 0..90 {
        for x in 0..90 {
            let sub = m.window(y, x, 6, 6);
            let (decoded_x, decoded_y) = codec.decode_position(&sub).unwrap();
            assert_eq!((decoded_x, decoded_y), (x, y));
        }
    }
}

#[test]
fn construction_checks_the_configuration() {
    let sns = [a1(), a2(), a3(), a4_alt()];
    assert!(AnotoCodec::new(&mns(), 6, &sns, &[3, 3, 2, 3], (5, 58)).is_ok());
    // Order below 2.
    assert!(AnotoCodec::new(&mns(), 1, &sns, &[3, 3, 2, 3], (5, 58)).is_err());
    // Main sequence shorter than its order.
    assert!(AnotoCodec::new(&[0, 1, 0], 6, &sns, &[3, 3, 2, 3], (5, 58)).is_err());
    // One prime factor too few.
    assert!(AnotoCodec::new(&mns(), 6, &sns, &[3, 3, 2], (5, 58)).is_err());
    // Product of the factors differs from the size of the delta range.
    assert!(AnotoCodec::new(&mns(), 6, &sns, &[3, 3, 2, 3], (5, 57)).is_err());
    // Secondary sequence shorter than order - 1.
    let short = [a1(), a2(), vec![0, 1, 0], a4_alt()];
    assert!(AnotoCodec::new(&mns(), 6, &short, &[3, 3, 2, 3], (5, 58)).is_err());
    // Lengths that are not pairwise coprime.
    let shared = [a1(), a1(), a3(), a4_alt()];
    assert!(AnotoCodec::new(&mns(), 6, &shared, &[3, 3, 2, 3], (5, 58)).is_err());
    // A secondary entry that is no digit of its radix.
    let bad_digit = [a1(), a2(), vec![2; 31], a4_alt()];
    assert!(AnotoCodec::new(&mns(), 6, &bad_digit, &[3, 3, 2, 3], (5, 58)).is_err());
}

#[test]
fn codec_tables_follow_the_sequences() {
    let codec = create_test_codec();
    assert_eq!(codec.mns_length, 63);
    assert_eq!(codec.mns_cyclic.len(), 68);
    assert_eq!(codec.sns_order, 5);
    assert_eq!(codec.sns_lengths, vec![236, 233, 31, 241]);
    assert_eq!(codec.sns_cyclic[2].len(), 35);
    assert_eq!(codec.crt.l, 236 * 233 * 31 * 241);
    assert_eq!(codec.delta(0), 5);
    assert_eq!(codec.delta(236 * 233 * 31 * 241), 5);
}

#[test]
fn negative_lower_delta_is_accepted() {
    let sns = [a1(), a2(), a3(), a4_alt()];
    let codec = AnotoCodec::new(&mns(), 6, &sns, &[3, 3, 2, 3], (-5, 48)).unwrap();
    assert_eq!(codec.delta(0), -5);
    let m = codec.encode_bitmatrix((8, 8), (0, 0));
    // Column 1 is the main sequence rolled by -5, that is by 58.
    assert_eq!(m.get(0, 1, 0), mns()[58]);
    assert_eq!(m.get(5, 1, 0), mns()[0]);
}
