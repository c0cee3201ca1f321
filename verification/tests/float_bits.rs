use stock_simulation_engine::float_bits::{le_zero, lt_zero};

#[test]
fn comparisons_with_zero_match_the_hardware() {
    let values = [
        0.0f64,
        -0.0,
        1.0,
        -1.0,
        f64::MIN_POSITIVE,
        -f64::MIN_POSITIVE,
        5e-324,
        -5e-324,
        f64::MAX,
        f64::MIN,
        f64::INFINITY,
        f64::NEG_INFINITY,
        f64::NAN,
        -f64::NAN,
        100.0,
        -100.0,
    ];
    for x in values {
        assert_eq!(le_zero(x.to_bits()), x <= 0.0, "x <= 0 for {x}");
        assert_eq!(lt_zero(x.to_bits()), x < 0.0, "x < 0 for {x}");
    }
}
