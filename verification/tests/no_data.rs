use shapefile::record::{is_no_data, NO_DATA, NO_DATA_MAGNITUDE};

// The library states the no-data rule on bit patterns; these tests hold that
// statement against the floating-point comparison it stands for: a measure
// is absent exactly when its value compares at or below -1.0e38.

#[test]
fn no_data_constant_is_minus_1e38() {
    assert_eq!(f64::from_bits(NO_DATA), -1.0e38);
    assert_eq!(f64::from_bits(NO_DATA_MAGNITUDE), 1.0e38);
}

#[test]
fn no_data_agrees_with_float_comparison() {
    let threshold: f64 = -1.0e38;
    let values: [f64; 16] = [
        0.0,
        -0.0,
        5.5,
        -5.5,
        1.0e38,
        -1.0e38,
        -9.9e37,
        -1.1e38,
        -1.0e40,
        1.0e40,
        f64::MIN,
        f64::MAX,
        f64::NEG_INFINITY,
        f64::INFINITY,
        f64::MIN_POSITIVE,
        f64::EPSILON,
    ];
    for v in values {
        assert_eq!(is_no_data(v.to_bits()), v <= threshold);
    }
}

#[test]
fn no_data_rejects_nan_patterns() {
    let nan: f64 = f64::NAN;
    assert!(!is_no_data(nan.to_bits()));
    assert!(!is_no_data((-nan).to_bits()));
    // A negative NaN pattern with every mantissa bit set: still not a value,
    // so still not a no-data measure.
    assert!(!is_no_data(0xFFFF_FFFF_FFFF_FFFFu64));
}

#[test]
fn no_data_boundary_patterns() {
    // One step more negative than the threshold is absent ...
    let below: f64 = f64::from_bits(NO_DATA + 1u64);
    assert!(below < -1.0e38);
    assert!(is_no_data(below.to_bits()));
    // ... one step less negative is present.
    let above: f64 = f64::from_bits(NO_DATA - 1u64);
    assert!(above > -1.0e38);
    assert!(!is_no_data(above.to_bits()));
    // Negative infinity is at or below every threshold.
    assert!(is_no_data(f64::NEG_INFINITY.to_bits()));
}
