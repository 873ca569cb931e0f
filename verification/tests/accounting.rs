use add_performance::{counted_bytes, ELEMENT_BYTES};

#[test]
fn an_element_is_four_bytes_wide() {
    assert_eq!(ELEMENT_BYTES, 4);
    assert_eq!(ELEMENT_BYTES as usize, std::mem::size_of::<i32>());
}

#[test]
fn empty_sequence_counts_no_bytes() {
    assert_eq!(counted_bytes(0), 0);
}

#[test]
fn single_element_counts_four_bytes() {
    assert_eq!(counted_bytes(1), 4);
}

#[test]
fn a_billion_elements_count_four_billion_bytes() {
    assert_eq!(counted_bytes(1_000_000_000), 4_000_000_000);
}

#[test]
fn largest_length_does_not_overflow() {
    assert_eq!(counted_bytes(usize::MAX), 4 * (usize::MAX as u128));
}

#[test]
fn only_one_sequence_width_is_counted() {
    let n: usize = 12_345;
    assert_eq!(counted_bytes(n), (n * std::mem::size_of::<i32>()) as u128);
    assert_ne!(counted_bytes(n), (3 * n * std::mem::size_of::<i32>()) as u128);
}

#[test]
fn throughput_follows_from_the_counted_bytes() {
    let n: usize = 1_000_000_000;
    let seconds: f64 = 0.5;
    let throughput = counted_bytes(n) as f64 / 1e9 / seconds;
    let expected = (n as f64 * 4.0) / 1e9 / seconds;
    assert!(((throughput - expected) / expected).abs() < 1e-4);
    assert!((throughput - 8.0).abs() < 1e-9);
    assert_eq!(format!("{:.2} GB/s", throughput), "8.00 GB/s");
}

#[test]
fn single_precision_throughput_is_within_tolerance() {
    let n: usize = 1_000_000;
    let seconds: f32 = 0.00125;
    let throughput = counted_bytes(n) as f32 / 1e9 / seconds;
    let expected = (n as f32 * 4.0) / 1e9 / seconds;
    assert!(((throughput - expected) / expected).abs() < 1e-4);
    assert!(((throughput - 3.2) / 3.2).abs() < 1e-4);
    assert_eq!(format!("{:.2} GB/s", throughput), "3.20 GB/s");
}
