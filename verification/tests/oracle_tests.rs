use gpu_histogram::error::HarnessError;
use gpu_histogram::oracle::{
    are_equivalent, check_validation, compute_reference, diff_count, validate, Sample,
};

fn sample_from_f32(value: f32) -> Sample {
    Sample { word: value.to_bits(), bin: value.floor() as u32 }
}

fn samples_from_f32(values: &[f32]) -> Vec<Sample> {
    values.iter().map(|v| sample_from_f32(*v)).collect()
}

#[test]
fn reference_buckets_by_floor() {
    let input = samples_from_f32(&[0.0, 0.999, 1.0, 1.999]);
    let reference = compute_reference(&input, 2);
    assert_eq!(reference, vec![2, 2]);
}

#[test]
fn reference_on_empty_input_is_all_zero() {
    let input: Vec<Sample> = Vec::new();
    let reference = compute_reference(&input, 4);
    assert_eq!(reference, vec![0, 0, 0, 0]);
}

#[test]
fn reference_mixed_buckets_exact() {
    let input = samples_from_f32(&[3.5, 0.25, 3.0, 1.75, 3.99, 0.0, 2.5]);
    let reference = compute_reference(&input, 5);
    assert_eq!(reference, vec![2, 1, 1, 3, 0]);
}

#[test]
fn reference_counts_every_input_once() {
    let values: Vec<f32> = (0..97).map(|i| (i % 8) as f32 + 0.5).collect();
    let input = samples_from_f32(&values);
    let reference = compute_reference(&input, 8);
    assert_eq!(reference.len(), 8);
    let total: u32 = reference.iter().sum();
    assert_eq!(total as usize, input.len());
}

#[test]
fn equivalence_is_reflexive() {
    let x = vec![5u32, 0, 17, 3];
    assert!(are_equivalent(&x, &x));
    let empty: Vec<u32> = Vec::new();
    assert!(are_equivalent(&empty, &empty));
}

#[test]
fn equivalence_rejects_different_lengths() {
    let a = vec![1u32, 2, 3];
    let b = vec![1u32, 2];
    assert!(!are_equivalent(&a, &b));
    assert!(!are_equivalent(&b, &a));
}

#[test]
fn equivalence_rejects_pointwise_difference() {
    let a = vec![1u32, 2, 3];
    let b = vec![1u32, 9, 3];
    assert!(!are_equivalent(&a, &b));
}

#[test]
fn diff_count_counts_mismatched_positions() {
    let a = vec![1u32, 2, 3, 4];
    let b = vec![1u32, 9, 3, 0];
    assert_eq!(diff_count(&a, &b), 2);
    assert_eq!(diff_count(&a, &a), 0);
}

#[test]
fn diff_count_covers_shared_length_only() {
    let a = vec![1u32, 2, 3];
    let b = vec![1u32, 5];
    assert_eq!(diff_count(&a, &b), 1);
}

#[test]
fn miscounting_kernel_output_fails_validation() {
    let input = samples_from_f32(&[0.0, 0.999, 1.0, 1.999]);
    let expected = compute_reference(&input, 2);
    // An off-by-one-bucket result, as a miscounting kernel would produce.
    let observed = vec![1u32, 3];
    assert!(!are_equivalent(&expected, &observed));
    let outcome = validate(expected, observed);
    assert!(!outcome.success);
    assert_eq!(outcome.mismatch_count, 2);
    let decision = check_validation(&outcome);
    assert!(matches!(
        decision,
        Err(HarnessError::ValidationFailure { mismatch_count: 2 })
    ));
}

#[test]
fn matching_output_passes_validation() {
    let input = samples_from_f32(&[0.5, 1.5]);
    let expected = compute_reference(&input, 2);
    let observed = vec![1u32, 1];
    let outcome = validate(expected, observed);
    assert!(outcome.success);
    assert_eq!(outcome.mismatch_count, 0);
    assert!(check_validation(&outcome).is_ok());
}

#[test]
fn error_descriptions_name_each_kind() {
    assert_eq!(HarnessError::ConfigurationError.describe(), "configuration error");
    assert_eq!(
        HarnessError::KernelCompilationError { message: String::new() }.describe(),
        "kernel compilation error"
    );
    assert_eq!(
        HarnessError::BindingLayoutError { message: String::new() }.describe(),
        "binding layout error"
    );
    assert_eq!(
        HarnessError::ValidationFailure { mismatch_count: 1 }.describe(),
        "validation failure"
    );
}
