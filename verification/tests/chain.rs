use hegp_anim::chain::{StepAction, TransformChain};
use hegp_anim::keys::{KeyPlan, KeySeries};

use nalgebra::DMatrix;

/// Realizes one key plan as a concrete rotation matrix of the given angle:
/// the identity with the four entries at the plan's two axes overwritten.
fn rotation_matrix(dim: usize, angle: f32, a: usize, b: usize) -> DMatrix<f32> {
    assert!(dim > 0 && a < dim && b < dim && a != b);
    let mut mat = DMatrix::identity(dim, dim);
    mat[(a, a)] = angle.cos();
    mat[(a, b)] = -angle.sin();
    mat[(b, a)] = angle.sin();
    mat[(b, b)] = angle.cos();
    mat
}

fn series_of(dim: usize, plans: &[(usize, usize)]) -> KeySeries {
    KeySeries {
        dim,
        plans: plans.iter().map(|&(a, b)| KeyPlan { a, b }).collect(),
    }
}

fn realize_keys(series: &KeySeries, angles: &[f32]) -> Vec<DMatrix<f32>> {
    assert_eq!(series.plans.len(), angles.len());
    series
        .plans
        .iter()
        .zip(angles.iter())
        .map(|(p, &angle)| rotation_matrix(series.dim, angle, p.a, p.b))
        .collect()
}

/// Applies what one step action asks for to the current matrix.
fn perform(action: StepAction, keys: &[DMatrix<f32>], current: &mut DMatrix<f32>) {
    match action {
        StepAction::Stay => {}
        StepAction::Apply { key } => {
            *current = &keys[key] * &*current;
        }
        StepAction::ApplyInverse { key } => {
            let inv = keys[key].clone().try_inverse().expect("key must invert");
            *current = inv * &*current;
        }
    }
}

fn assert_close(a: &DMatrix<f32>, b: &DMatrix<f32>, tol: f32) {
    assert_eq!(a.shape(), b.shape());
    for (x, y) in a.iter().zip(b.iter()) {
        assert!((x - y).abs() < tol, "matrices differ: {} vs {}", x, y);
    }
}

#[test]
fn forward_boundary_is_noop() {
    let series = series_of(2, &[(0, 1), (1, 0)]);
    let mut chain = TransformChain::new(2, 3, series).unwrap();
    assert_eq!(chain.index, 0);
    assert!(matches!(chain.step_forward(), StepAction::Apply { key: 0 }));
    assert!(matches!(chain.step_forward(), StepAction::Apply { key: 1 }));
    assert_eq!(chain.index, 2);
    // at the end boundary nothing changes
    assert!(matches!(chain.step_forward(), StepAction::Stay));
    assert_eq!(chain.index, 2);
}

#[test]
fn backward_boundary_is_noop() {
    let series = series_of(2, &[(0, 1)]);
    let mut chain = TransformChain::new(2, 2, series).unwrap();
    assert!(matches!(chain.step_backward(), StepAction::Stay));
    assert_eq!(chain.index, 0);
    chain.step_forward();
    assert!(matches!(
        chain.step_backward(),
        StepAction::ApplyInverse { key: 0 }
    ));
    assert_eq!(chain.index, 0);
    assert!(matches!(chain.step_backward(), StepAction::Stay));
    assert_eq!(chain.index, 0);
}

#[test]
fn shape_mismatch_is_rejected() {
    let series = series_of(3, &[(0, 2)]);
    let r = TransformChain::new(2, 5, series);
    match r {
        Err(e) => assert_eq!(e, hegp_anim::errors::EngineError::ShapeMismatch),
        Ok(_) => panic!("a mismatched series must be rejected"),
    }
}

#[test]
fn full_forward_run_reaches_ciphertext() {
    // stepping forward once per key reproduces the eagerly computed
    // left fold keys[n-1] * ... * keys[0] * plaintext within tolerance
    let series = series_of(4, &[(0, 1), (2, 3), (1, 3), (0, 2), (1, 2)]);
    let angles = [0.3f32, 0.7, 0.1, 0.9, 0.5];
    let keys = realize_keys(&series, &angles);
    let plaintext = DMatrix::from_fn(4, 3, |r, c| (r * 3 + c) as f32 * 0.25 - 1.0);

    let total_key = keys
        .iter()
        .fold(DMatrix::identity(4, 4), |acc, k| k * acc);
    let ciphertext = &total_key * &plaintext;

    let mut chain = TransformChain::new(4, 3, series).unwrap();
    let mut current = plaintext.clone();
    for _ in 0..5 {
        let action = chain.step_forward();
        perform(action, &keys, &mut current);
    }
    assert_eq!(chain.index, 5);
    assert_close(&current, &ciphertext, 1e-4);
}

#[test]
fn round_trip_restores_current() {
    // an interleaving that returns the index to a prior value returns the
    // current matrix to the value observed there, within tolerance
    let series = series_of(3, &[(0, 1), (1, 2), (0, 2), (2, 1)]);
    let angles = [0.8f32, 0.2, 0.6, 0.4];
    let keys = realize_keys(&series, &angles);
    let plaintext = DMatrix::from_fn(3, 4, |r, c| ((r + 1) * (c + 2)) as f32 * 0.125);

    let mut chain = TransformChain::new(3, 4, series).unwrap();
    let mut current = plaintext.clone();

    // walk to index 2 and remember the value observed there
    for _ in 0..2 {
        let action = chain.step_forward();
        perform(action, &keys, &mut current);
    }
    let observed_at_2 = current.clone();

    // wander: forward twice, backward three times, forward once
    for _ in 0..2 {
        let action = chain.step_forward();
        perform(action, &keys, &mut current);
    }
    for _ in 0..3 {
        let action = chain.step_backward();
        perform(action, &keys, &mut current);
    }
    let action = chain.step_forward();
    perform(action, &keys, &mut current);

    assert_eq!(chain.index, 2);
    assert_close(&current, &observed_at_2, 1e-4);

    // all the way back to the start restores the plaintext
    for _ in 0..2 {
        let action = chain.step_backward();
        perform(action, &keys, &mut current);
    }
    assert_eq!(chain.index, 0);
    assert_close(&current, &plaintext, 1e-4);
}

#[test]
fn stub_generator_scenario() {
    // rows=4, cols=3, five keys: three identities (angle 0) and two
    // quarter-turn rotations at known slots; after five forward steps the
    // current matrix equals the explicit fold key4*key3*key2*key1*key0*P
    let quarter = std::f32::consts::FRAC_PI_2;
    let series = series_of(4, &[(0, 1), (1, 2), (0, 3), (2, 3), (1, 3)]);
    let angles = [0.0f32, quarter, 0.0, quarter, 0.0];
    let keys = realize_keys(&series, &angles);
    let plaintext = DMatrix::from_fn(4, 3, |r, c| (2 * r + c) as f32 * 0.5 - 1.5);

    let expected =
        &keys[4] * (&keys[3] * (&keys[2] * (&keys[1] * (&keys[0] * &plaintext))));

    let mut chain = TransformChain::new(4, 3, series).unwrap();
    let mut current = plaintext.clone();
    for step in 0..5 {
        let action = chain.step_forward();
        assert!(matches!(action, StepAction::Apply { key } if key == step));
        perform(action, &keys, &mut current);
    }
    assert_close(&current, &expected, 1e-4);
}

#[test]
fn reset_and_goto_end_move_the_index() {
    let series = series_of(2, &[(0, 1), (1, 0), (0, 1)]);
    let mut chain = TransformChain::new(2, 2, series).unwrap();
    chain.goto_end();
    assert_eq!(chain.index, 3);
    chain.reset();
    assert_eq!(chain.index, 0);
}
