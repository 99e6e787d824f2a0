use compute_demo::aggregate::{aggregate, chunked_sum, even_square, sequential_sum, sum_range};
use compute_demo::draw::{generate_values, DRAW_BOUND};
use compute_demo::page::index_page;
use compute_demo::service::{compute, ComputeReport};
use compute_demo::size::{parse_size, resolve_size, DEFAULT_SIZE};
use compute_demo::text::{push_decimal, render_response};

fn naive(data: &[u32]) -> u64 {
    data.iter()
        .filter(|x| **x % 2 == 0)
        .map(|x| *x as u64 * *x as u64)
        .sum()
}

#[test]
fn even_square_of_even_and_odd() {
    assert_eq!(even_square(4), 16);
    assert_eq!(even_square(3), 0);
    assert_eq!(even_square(0), 0);
    assert_eq!(even_square(9998), 99_960_004);
    assert_eq!(even_square(u32::MAX - 1), (u32::MAX as u64 - 1) * (u32::MAX as u64 - 1));
}

#[test]
fn fixed_array_sums() {
    let data = vec![2u32, 3, 4, 7, 10];
    assert_eq!(sequential_sum(&data), 120);
    assert_eq!(aggregate(&data), 120);
    assert_eq!(sum_range(&data, 1, 3), 16);
    assert_eq!(naive(&data), 120);
}

#[test]
fn partition_does_not_change_the_sum() {
    let data: Vec<u32> = (0..1000u32).map(|i| (i * 7919) % 10_000).collect();
    let expected = naive(&data);
    for chunk_len in [1usize, 2, 3, 7, 64, 999, 1000, 5000] {
        assert_eq!(chunked_sum(&data, chunk_len), expected);
    }
    assert_eq!(aggregate(&data), expected);
    assert_eq!(sequential_sum(&data), expected);
}

#[test]
fn empty_and_all_odd_sum_to_zero() {
    let empty: Vec<u32> = Vec::new();
    assert_eq!(aggregate(&empty), 0);
    assert_eq!(sequential_sum(&empty), 0);
    assert_eq!(chunked_sum(&empty, 4), 0);
    let odd = vec![1u32, 3, 5, 9999, 7];
    assert_eq!(aggregate(&odd), 0);
    assert_eq!(sequential_sum(&odd), 0);
    assert_eq!(chunked_sum(&odd, 2), 0);
}

#[test]
fn large_array_matches_naive_sum() {
    let data: Vec<u32> = (0..200_000u32).map(|i| (i * 31 + 17) % 10_000).collect();
    assert_eq!(aggregate(&data), naive(&data));
    assert_eq!(chunked_sum(&data, 4096), naive(&data));
}

#[test]
fn generated_values_stay_in_range() {
    let values = generate_values(5000);
    assert_eq!(values.len(), 5000);
    assert!(values.iter().all(|v| *v < DRAW_BOUND));
    assert_eq!(DRAW_BOUND, 10_000);
    assert!(generate_values(0).is_empty());
}

#[test]
fn parse_size_accepts_unsigned_decimals() {
    assert_eq!(parse_size("100"), Some(100));
    assert_eq!(parse_size("0"), Some(0));
    assert_eq!(parse_size("+7"), Some(7));
    assert_eq!(parse_size("007"), Some(7));
    assert_eq!(parse_size("18446744073709551615"), Some(usize::MAX));
}

#[test]
fn parse_size_rejects_other_text() {
    assert_eq!(parse_size(""), None);
    assert_eq!(parse_size("+"), None);
    assert_eq!(parse_size("-1"), None);
    assert_eq!(parse_size("abc"), None);
    assert_eq!(parse_size("12a"), None);
    assert_eq!(parse_size(" 12"), None);
    assert_eq!(parse_size("++1"), None);
    assert_eq!(parse_size("18446744073709551616"), None);
    assert_eq!(parse_size("99999999999999999999999"), None);
}

#[test]
fn resolve_size_defaults_when_absent_or_invalid() {
    assert_eq!(DEFAULT_SIZE, 10_000_000);
    assert_eq!(resolve_size(None), 10_000_000);
    assert_eq!(resolve_size(Some("abc")), 10_000_000);
    assert_eq!(resolve_size(Some("")), 10_000_000);
    assert_eq!(resolve_size(Some("-5")), 10_000_000);
    assert_eq!(resolve_size(Some("100")), 100);
    assert_eq!(resolve_size(Some("0")), 0);
}

#[test]
fn decimal_text() {
    let mut s = String::from("n=");
    push_decimal(&mut s, 0);
    assert_eq!(s, "n=0");
    let mut t = String::new();
    push_decimal(&mut t, 1_234_567_890);
    assert_eq!(t, "1234567890");
    let mut u = String::new();
    push_decimal(&mut u, u64::MAX);
    assert_eq!(u, "18446744073709551615");
}

#[test]
fn response_has_three_lines() {
    assert_eq!(
        render_response(100, 20, "1.00ms"),
        "Processed 100 numbers\nResult: 20\nTime: 1.00ms"
    );
    assert_eq!(render_response(0, 0, "5.00ns"), "Processed 0 numbers\nResult: 0\nTime: 5.00ns");
}

#[test]
fn report_renders_its_duration() {
    let report = ComputeReport { size: 3, sum: 4, elapsed_secs: 1, elapsed_nanos: 500_000_000 };
    assert_eq!(report.render(), "Processed 3 numbers\nResult: 4\nTime: 1.50s");
    let report = ComputeReport { size: 10, sum: 0, elapsed_secs: 0, elapsed_nanos: 2_346_000 };
    assert_eq!(report.render(), "Processed 10 numbers\nResult: 0\nTime: 2.35ms");
}

#[test]
fn compute_of_zero_values() {
    let report = compute(0);
    assert_eq!(report.size, 0);
    assert_eq!(report.sum, 0);
    let text = report.render();
    let lines: Vec<&str> = text.lines().collect();
    assert_eq!(lines[0], "Processed 0 numbers");
    assert_eq!(lines[1], "Result: 0");
}

#[test]
fn compute_of_one_hundred_values() {
    let report = compute(100);
    assert_eq!(report.size, 100);
    assert!(report.sum <= 100 * 9998 * 9998);
    assert_eq!(report.sum % 4, 0);
    let text = report.render();
    let lines: Vec<&str> = text.split('\n').collect();
    assert_eq!(lines.len(), 3);
    assert_eq!(lines[0], "Processed 100 numbers");
    let sum: u64 = lines[1].strip_prefix("Result: ").unwrap().parse().unwrap();
    assert_eq!(sum, report.sum);
    assert!(sum <= 100 * 9998 * 9998);
    let time = lines[2].strip_prefix("Time: ").unwrap();
    assert!(time.ends_with('s'));
    assert!(time.len() > 2);
}

#[test]
fn compute_with_unparsable_size_uses_default_count() {
    assert_eq!(resolve_size(Some("abc")), DEFAULT_SIZE);
    assert_eq!(resolve_size(None), DEFAULT_SIZE);
}

#[test]
fn index_page_holds_the_three_buttons() {
    let page = index_page();
    assert!(page.contains("Compute 10M"));
    assert!(page.contains("Compute 50M"));
    assert!(page.contains("Compute 100M"));
    assert!(page.contains("/compute?size="));
    assert!(page.trim_start().starts_with("<!DOCTYPE html>"));
}
