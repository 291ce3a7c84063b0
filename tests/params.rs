use options_pricing::params::{ConfigError, OutOfDomain, Params, Step};

fn step(num: u32, den: u32) -> Step {
    Step { num, den }
}

#[test]
fn test_spot_to_array_loc() {
    assert_eq!(Params::reasonable_defaults().spot_to_array_loc(0), Ok(1000))
}

#[test]
fn test_reasonable_alpha() {
    let (num, den) = Params::reasonable_defaults().alpha();
    assert!((num as f64) / (den as f64) < 0.5)
}

#[test]
fn defaults_hold_the_documented_values() {
    let p = Params::reasonable_defaults();
    assert_eq!(p.dx, step(1, 100));
    assert_eq!(p.dt, step(3, 100000));
    assert_eq!((p.minus, p.plus), (-1000, 1000));
    assert_eq!(p.numx(), 2001);
    assert!(p.is_stable());
}

#[test]
fn alpha_is_dt_over_dx_squared() {
    // dt = 3/100000, dx = 1/100: alpha = 3 * 10000 / 100000 = 0.3
    let (num, den) = Params::reasonable_defaults().alpha();
    assert_eq!((num, den), (30000, 100000));
    let p = Params::new(step(1, 10), step(1, 50), -5, 5).unwrap();
    // 0.02 / 0.01 = 2
    assert_eq!(p.alpha(), (100, 50));
    assert!(!p.is_stable());
}

#[test]
fn stability_bound_is_inclusive() {
    // dx = 1/10, dt = 1/200: alpha = 100 / 200 = 1/2
    let p = Params::new(step(1, 10), step(1, 200), -3, 3).unwrap();
    assert!(p.is_stable());
    let q = Params::new(step(1, 10), step(1, 199), -3, 3).unwrap();
    assert!(!q.is_stable());
}

#[test]
fn new_rejects_each_bad_configuration() {
    assert_eq!(Params::new(step(0, 100), step(3, 100000), -1, 1), Err(ConfigError::NonPositiveDx));
    assert_eq!(Params::new(step(1, 0), step(3, 100000), -1, 1), Err(ConfigError::NonPositiveDx));
    assert_eq!(Params::new(step(1, 100), step(0, 7), -1, 1), Err(ConfigError::NonPositiveDt));
    assert_eq!(Params::new(step(1, 100), step(3, 100000), 2, 1), Err(ConfigError::InvertedBounds));
    // the first failing condition decides
    assert_eq!(Params::new(step(0, 1), step(0, 1), 2, 1), Err(ConfigError::NonPositiveDx));
}

#[test]
fn new_accepts_a_single_node_grid() {
    let p = Params::new(step(1, 100), step(1, 100000), 0, 0).unwrap();
    assert_eq!(p.numx(), 1);
    assert_eq!(p.spot_to_array_loc(0), Ok(0));
}

#[test]
fn spot_to_array_loc_covers_exactly_the_grid() {
    let p = Params::new(step(1, 100), step(3, 100000), -4, 6).unwrap();
    assert_eq!(p.numx(), 11);
    assert_eq!(p.spot_to_array_loc(-4), Ok(0));
    assert_eq!(p.spot_to_array_loc(6), Ok(10));
    assert_eq!(p.spot_to_array_loc(2), Ok(6));
    assert_eq!(p.spot_to_array_loc(7), Err(OutOfDomain { node: 7 }));
    assert_eq!(p.spot_to_array_loc(-5), Err(OutOfDomain { node: -5 }));
    assert_eq!(p.spot_to_array_loc(i64::MIN), Err(OutOfDomain { node: i64::MIN }));
}

#[test]
fn node_of_is_offset_by_minus() {
    let p = Params::reasonable_defaults();
    assert_eq!(p.node_of(0), -1000);
    assert_eq!(p.node_of(1000), 0);
    assert_eq!(p.node_of(2000), 1000);
}
