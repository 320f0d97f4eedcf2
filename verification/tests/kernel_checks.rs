use fina::errors::ErrorKind;
use fina::fp;
use fina::kernel;

fn bits(xs: &[f64]) -> Vec<u64> {
    xs.iter().map(|x| x.to_bits()).collect()
}

#[test]
fn nonempty_guard() {
    assert_eq!(kernel::check_nonempty(0), Err(ErrorKind::EmptyInput));
    assert_eq!(kernel::check_nonempty(1), Ok(()));
    assert_eq!(kernel::check_nonempty(1000), Ok(()));
}

#[test]
fn same_length_guard() {
    assert_eq!(kernel::check_same_length(3, 3), Ok(()));
    assert_eq!(kernel::check_same_length(0, 0), Ok(()));
    assert_eq!(kernel::check_same_length(2, 3), Err(ErrorKind::LengthMismatch));
}

#[test]
fn pair_guard_reports_mismatch_before_emptiness() {
    assert_eq!(kernel::check_pair(0, 1), Err(ErrorKind::LengthMismatch));
    assert_eq!(kernel::check_pair(0, 0), Err(ErrorKind::EmptyInput));
    assert_eq!(kernel::check_pair(2, 2), Ok(()));
}

#[test]
fn clamp_bounds_the_value() {
    let c = |x: f64, lo: f64, hi: f64| {
        kernel::clamp(x.to_bits(), lo.to_bits(), hi.to_bits()).map(f64::from_bits)
    };
    assert_eq!(c(5.0, 0.0, 3.0), Ok(3.0));
    assert_eq!(c(-1.0, 0.0, 3.0), Ok(0.0));
    assert_eq!(c(2.0, 0.0, 3.0), Ok(2.0));
    assert_eq!(c(2.0, 2.0, 2.0), Ok(2.0));
    assert_eq!(c(f64::NEG_INFINITY, -1.0, 1.0), Ok(-1.0));
    assert_eq!(c(f64::INFINITY, -1.0, 1.0), Ok(1.0));
}

#[test]
fn clamp_rejects_inverted_range() {
    assert_eq!(
        kernel::clamp(1.0f64.to_bits(), 3.0f64.to_bits(), 0.0f64.to_bits()),
        Err(ErrorKind::InvalidRange)
    );
}

#[test]
fn clamp_keeps_nan_input() {
    let r = kernel::clamp(f64::NAN.to_bits(), 0.0f64.to_bits(), 1.0f64.to_bits());
    assert!(f64::from_bits(r.unwrap()).is_nan());
}

#[test]
fn clamp_is_idempotent_on_samples() {
    for &x in &[-10.0, -1.0, 0.0, 0.5, 1.0, 10.0, f64::INFINITY, f64::NEG_INFINITY, f64::NAN] {
        let once = kernel::clamp(x.to_bits(), (-1.0f64).to_bits(), 1.0f64.to_bits()).unwrap();
        let twice = kernel::clamp(once, (-1.0f64).to_bits(), 1.0f64.to_bits()).unwrap();
        assert_eq!(once, twice, "clamp({x}) twice");
    }
}

#[test]
fn relu_matches_definition() {
    let r = |x: f64| f64::from_bits(kernel::relu(x.to_bits()));
    assert_eq!(r(2.0), 2.0);
    assert_eq!(r(0.0), 0.0);
    assert_eq!(r(-3.5), 0.0);
    assert_eq!(r(-0.0), 0.0);
    assert_eq!(r(f64::NAN), 0.0);
    assert_eq!(r(f64::INFINITY), f64::INFINITY);
    assert_eq!(r(f64::NEG_INFINITY), 0.0);
}

#[test]
fn leaky_relu_branch() {
    assert!(kernel::leaky_relu_keeps_input(0.0f64.to_bits()));
    assert!(kernel::leaky_relu_keeps_input((-0.0f64).to_bits()));
    assert!(kernel::leaky_relu_keeps_input(2.0f64.to_bits()));
    assert!(!kernel::leaky_relu_keeps_input((-1.0f64).to_bits()));
    assert!(!kernel::leaky_relu_keeps_input(f64::NAN.to_bits()));
}

#[test]
fn sigmoid_saturates_only_past_the_cutoffs() {
    assert_eq!(kernel::SIGMOID_CUTOFF_BITS, 500.0f64.to_bits());
    assert_eq!(kernel::SIGMOID_NEG_CUTOFF_BITS, (-500.0f64).to_bits());
    let case = |x: f64| kernel::sigmoid_case(x.to_bits());
    assert_eq!(case(1000.0), kernel::SigmoidCase::SaturateHigh);
    assert_eq!(case(-1000.0), kernel::SigmoidCase::SaturateLow);
    assert_eq!(case(0.0), kernel::SigmoidCase::Formula);
    assert_eq!(case(500.0), kernel::SigmoidCase::Formula);
    assert_eq!(case(-500.0), kernel::SigmoidCase::Formula);
    assert_eq!(case(500.0000001), kernel::SigmoidCase::SaturateHigh);
    assert_eq!(case(f64::INFINITY), kernel::SigmoidCase::SaturateHigh);
    assert_eq!(case(f64::NAN), kernel::SigmoidCase::Formula);
}

#[test]
fn sequence_extremes() {
    let xs = bits(&[3.0, 1.0, 4.0, 1.0, 5.0, -9.0]);
    assert_eq!(f64::from_bits(kernel::seq_max(&xs)), 5.0);
    assert_eq!(f64::from_bits(kernel::seq_min(&xs)), -9.0);
}

#[test]
fn sequence_extremes_ignore_nan() {
    let xs = bits(&[f64::NAN, 2.0, f64::NAN, -7.0]);
    assert_eq!(f64::from_bits(kernel::seq_max(&xs)), 2.0);
    assert_eq!(f64::from_bits(kernel::seq_min(&xs)), -7.0);
}

#[test]
fn sequence_extremes_of_nothing_are_the_fold_starts() {
    let xs: Vec<u64> = Vec::new();
    assert_eq!(kernel::seq_max(&xs), fp::NEG_INF_BITS);
    assert_eq!(kernel::seq_min(&xs), fp::POS_INF_BITS);
}

#[test]
fn softmax_sum_guard_is_an_exact_zero_test() {
    assert_eq!(kernel::check_softmax_sum(0.0f64.to_bits()), Err(ErrorKind::SoftmaxUnderflow));
    assert_eq!(kernel::check_softmax_sum((-0.0f64).to_bits()), Err(ErrorKind::SoftmaxUnderflow));
    assert_eq!(kernel::check_softmax_sum(1e-300f64.to_bits()), Ok(()));
    assert_eq!(kernel::check_softmax_sum(3.0f64.to_bits()), Ok(()));
}

#[test]
fn ema_guard() {
    assert_eq!(kernel::check_ema(0, 0.5f64.to_bits()), Err(ErrorKind::EmptyInput));
    assert_eq!(kernel::check_ema(3, 0.5f64.to_bits()), Ok(()));
    assert_eq!(kernel::check_ema(3, 0.0f64.to_bits()), Ok(()));
    assert_eq!(kernel::check_ema(3, 1.0f64.to_bits()), Ok(()));
    assert_eq!(kernel::check_ema(3, (-0.0f64).to_bits()), Ok(()));
    assert_eq!(kernel::check_ema(3, 1.5f64.to_bits()), Err(ErrorKind::InvalidAlpha));
    assert_eq!(kernel::check_ema(3, (-0.1f64).to_bits()), Err(ErrorKind::InvalidAlpha));
    assert_eq!(kernel::check_ema(3, f64::NAN.to_bits()), Err(ErrorKind::InvalidAlpha));
    assert_eq!(kernel::check_ema(0, 9.0f64.to_bits()), Err(ErrorKind::EmptyInput));
}

#[test]
fn cross_entropy_rejects_nonpositive_prediction() {
    let pred = bits(&[0.0, 0.5]);
    assert_eq!(kernel::check_cross_entropy(&pred, 2), Err(ErrorKind::NonPositivePrediction));
}

#[test]
fn cross_entropy_guard_order_and_acceptance() {
    let pred = bits(&[0.5, 0.5]);
    assert_eq!(kernel::check_cross_entropy(&pred, 3), Err(ErrorKind::LengthMismatch));
    assert_eq!(kernel::check_cross_entropy(&Vec::new(), 0), Err(ErrorKind::EmptyInput));
    assert_eq!(kernel::check_cross_entropy(&pred, 2), Ok(()));
    let pred = bits(&[0.5, -0.25, 0.5]);
    assert_eq!(kernel::check_cross_entropy(&pred, 3), Err(ErrorKind::NonPositivePrediction));
    let pred = bits(&[0.5, f64::NAN]);
    assert_eq!(kernel::check_cross_entropy(&pred, 2), Ok(()));
}

#[test]
fn norm_guard() {
    let b = |x: f64| x.to_bits();
    assert_eq!(kernel::check_norms(b(0.0), b(1.0)), Err(ErrorKind::ZeroNormError));
    assert_eq!(kernel::check_norms(b(1.0), b(1e-20)), Err(ErrorKind::ZeroNormError));
    assert_eq!(kernel::check_norms(b(1.0), b(2.0)), Ok(()));
}

#[test]
fn z_score_guard() {
    assert_eq!(kernel::check_z_score_std(0.0f64.to_bits()), Err(ErrorKind::ZeroVariance));
    assert_eq!(kernel::check_z_score_std(1e-17f64.to_bits()), Err(ErrorKind::ZeroVariance));
    assert_eq!(kernel::check_z_score_std(0.5f64.to_bits()), Ok(()));
}

#[test]
fn equal_elements_are_a_degenerate_range() {
    let xs = bits(&[5.0, 5.0, 5.0]);
    let max = f64::from_bits(kernel::seq_max(&xs));
    let min = f64::from_bits(kernel::seq_min(&xs));
    let range = (max - min).abs();
    assert_eq!(kernel::check_min_max_range(range.to_bits()), Err(ErrorKind::DegenerateRange));
    let xs = bits(&[1.0, 2.0]);
    let range = f64::from_bits(kernel::seq_max(&xs)) - f64::from_bits(kernel::seq_min(&xs));
    assert_eq!(kernel::check_min_max_range(range.to_bits()), Ok(()));
}

#[test]
fn log_loss_clamp_bounds_predictions() {
    assert_eq!(kernel::ONE_MINUS_EPSILON_BITS, (1.0 - f64::EPSILON).to_bits());
    let c = |p: f64| f64::from_bits(kernel::log_loss_clamp(p.to_bits()));
    assert_eq!(c(0.5), 0.5);
    assert_eq!(c(0.0), f64::EPSILON);
    assert_eq!(c(-3.0), f64::EPSILON);
    assert_eq!(c(1.0), 1.0 - f64::EPSILON);
    assert_eq!(c(2.0), 1.0 - f64::EPSILON);
    assert_eq!(c(f64::NAN), f64::EPSILON);
}

#[test]
fn messages_name_each_failure() {
    assert_eq!(ErrorKind::EmptyInput.message(), "Data cannot be empty");
    assert_eq!(ErrorKind::LengthMismatch.message(), "Vectors must be same length");
    assert_eq!(
        ErrorKind::ZeroNormError.message(),
        "Cannot compute cosine similarity for zero vectors"
    );
    assert_eq!(ErrorKind::ZeroVariance.message(), "Standard deviation is zero, cannot normalize");
    assert_eq!(ErrorKind::DegenerateRange.message(), "All elements are equal, cannot normalize");
    assert_eq!(
        ErrorKind::NonPositivePrediction.message(),
        "Predictions must be positive for cross entropy"
    );
    assert_eq!(ErrorKind::SoftmaxUnderflow.message(), "Underflow in softmax computation");
    assert_eq!(ErrorKind::InvalidAlpha.message(), "Alpha must be between 0 and 1");
    assert_eq!(ErrorKind::InvalidRange.message(), "min_val cannot be greater than max_val");
}
