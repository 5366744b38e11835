use sma_tracker::errors::AppError;
use sma_tracker::sma::compute_sma200;

#[test]
fn fewer_than_200_present_values_fail_despite_gaps() {
    let mut closes: Vec<Option<u64>> = Vec::new();
    for i in 0..199u64 {
        closes.push(Some(1000 + i));
        closes.push(None);
        closes.push(None);
    }
    assert_eq!(closes.len(), 597);
    assert_eq!(compute_sma200(&closes), Err(AppError::InsufficientData));
}

#[test]
fn empty_series_fails() {
    assert_eq!(compute_sma200(&Vec::new()), Err(AppError::InsufficientData));
}

#[test]
fn two_hundred_identical_values_average_exactly() {
    let v: u64 = 44_000_000;
    assert_eq!(compute_sma200(&vec![Some(v); 200]), Ok(v));
    let big: u64 = u64::MAX;
    assert_eq!(compute_sma200(&vec![Some(big); 200]), Ok(big));
}

#[test]
fn absent_positions_do_not_matter() {
    let values: Vec<u64> = (0..200u64).map(|i| 10_000 + 37 * i).collect();
    let dense: Vec<Option<u64>> = values.iter().map(|v| Some(*v)).collect();
    let mut sparse: Vec<Option<u64>> = Vec::new();
    for (i, v) in values.iter().enumerate() {
        if i % 3 == 0 {
            sparse.push(None);
        }
        sparse.push(Some(*v));
    }
    sparse.push(None);
    let a = compute_sma200(&dense);
    assert_eq!(a, compute_sma200(&sparse));
    // sum = 200 * 10000 + 37 * 19900 = 2736300; mean = 13681.5, rounded down
    assert_eq!(a, Ok(13681));
}

#[test]
fn all_present_values_are_averaged_not_only_200() {
    let mut closes = vec![Some(100u64); 200];
    closes.extend(vec![Some(400u64); 100]);
    assert_eq!(compute_sma200(&closes), Ok(200));
}
