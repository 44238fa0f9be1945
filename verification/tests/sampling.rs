use superior_randomness::{generate_randomness, sample_with_entropy};

// 1. Check when lower_bound is greater than upper_bound. The range is
// inclusive at both ends regardless of argument order, so the larger bound
// itself is a legitimate draw.
#[test]
fn test_generate_randomness_with_flipped_bounds() {
    let min = 100;
    let max = 50;

    let result = generate_randomness(100, 50);
    assert!(result >= max && result <= min);
}

// 2. Check when lower_bound is equal to upper_bound
#[test]
fn test_generate_randomness_with_equal_bounds() {
    let bound = 100;
    assert_eq!(generate_randomness(bound, bound), bound);
}

// 3. Test within a range, inclusive at both ends.
#[test]
fn test_generate_randomness_within_bounds() {
    let min = 100;
    let max = 200;

    let result = generate_randomness(min, max);

    assert!(result >= min && result <= max);
}

// 4. Test randomness distribution (not truly deterministic, but a sanity check)
#[test]
fn test_generate_randomness_distribution() {
    let min = 0;
    let max = 9;

    let mut counts = vec![0; 10];
    for _ in 0..1000 {
        let result = generate_randomness(min, max);
        let index: usize = result as usize;
        counts[index] += 1;
    }

    // Ensure all counts are non-zero (probabilistically should be the case)
    for count in counts.iter() {
        assert!(*count > 0);
    }
}

// The reduction of fixed entropy is exact: raw value 1 lands on min + 1.
#[test]
fn test_sample_with_entropy_exact() {
    let one = [1u8, 0u8, 0u8, 0u8];
    assert_eq!(sample_with_entropy(0, 9, &one), 1);
    assert_eq!(sample_with_entropy(10, 19, &one), 11);
}

// Swapped bounds reduce the same entropy to the same value.
#[test]
fn test_sample_with_entropy_symmetric() {
    let e = [0xAAu8, 0xBBu8, 0xCCu8, 0xDDu8];
    assert_eq!(sample_with_entropy(3, 77, &e), sample_with_entropy(77, 3, &e));
}

// A degenerate range ignores the entropy entirely.
#[test]
fn test_sample_with_entropy_equal_bounds() {
    let e = [0xFFu8, 0xFFu8, 0xFFu8, 0xFFu8];
    assert_eq!(sample_with_entropy(5, 5, &e), 5);
}

// The modulo reduction is plainly biased when the window does not divide
// 2^32: the largest raw value 0xFFFFFFFF maps to 4294967295 % 10 = 5, so the
// top of the raw range folds onto small residues rather than spreading
// uniformly. The protocol accepts this; the test records it.
#[test]
fn test_sample_with_entropy_modulo_bias() {
    let top = [0xFFu8, 0xFFu8, 0xFFu8, 0xFFu8];
    assert_eq!(sample_with_entropy(0, 9, &top), 5);
}
