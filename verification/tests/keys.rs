use hegp_anim::errors::EngineError;
use hegp_anim::keys::generate;

#[test]
fn dimension_below_two_is_invalid() {
    for dim in [0, 1] {
        match generate(dim, 3) {
            Err(e) => assert_eq!(e, EngineError::InvalidDimension),
            Ok(_) => panic!("dimension {} must be rejected", dim),
        }
    }
}

#[test]
fn generated_series_has_requested_shape() {
    let series = generate(4, 10).unwrap();
    assert_eq!(series.dim, 4);
    assert_eq!(series.plans.len(), 10);
    for plan in &series.plans {
        assert!(plan.a < 4);
        assert!(plan.b < 4);
        assert_ne!(plan.a, plan.b);
    }
}

#[test]
fn two_dimensional_keys_use_both_axes() {
    // with only two axes every plan must pair them, one way or the other
    let series = generate(2, 20).unwrap();
    assert_eq!(series.plans.len(), 20);
    for plan in &series.plans {
        assert!((plan.a == 0 && plan.b == 1) || (plan.a == 1 && plan.b == 0));
    }
}

#[test]
fn zero_keys_is_a_valid_series() {
    let series = generate(3, 0).unwrap();
    assert_eq!(series.plans.len(), 0);
    assert_eq!(series.dim, 3);
}
