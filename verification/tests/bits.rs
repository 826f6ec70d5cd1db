use cpaldevice::SingleBits;

#[test]
fn positive_means_greater_than_zero() {
    let values: Vec<f32> = vec![
        0.0,
        -0.0,
        1.0,
        -1.0,
        0.1,
        f32::MIN_POSITIVE,
        f32::MAX,
        f32::MIN,
        f32::INFINITY,
        f32::NEG_INFINITY,
        f32::NAN,
        -f32::NAN,
        f32::from_bits(1),
        f32::from_bits(0x8000_0001),
        f32::from_bits(0x7f80_0001),
    ];
    for value in values {
        let number = SingleBits { bits: value.to_bits() };
        assert_eq!(number.is_positive(), value > 0.0);
    }
}
