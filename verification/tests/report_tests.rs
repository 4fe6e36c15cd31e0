use writebench::report::BenchmarkResult;

#[test]
fn throughput_exact() {
    let res = BenchmarkResult { bytes_written: 192, elapsed_nanos: 1_000_000_000 };
    assert_eq!(res.throughput_bytes_per_sec(), Some(192));

    let res = BenchmarkResult { bytes_written: 64, elapsed_nanos: 500_000_000 };
    assert_eq!(res.throughput_bytes_per_sec(), Some(128));

    let res = BenchmarkResult { bytes_written: 1, elapsed_nanos: 3 };
    assert_eq!(res.throughput_bytes_per_sec(), Some(333_333_333));
}

#[test]
fn throughput_guards_zero_elapsed() {
    let res = BenchmarkResult { bytes_written: 192, elapsed_nanos: 0 };
    assert_eq!(res.throughput_bytes_per_sec(), None);
}

#[test]
fn throughput_survives_extremes() {
    let res = BenchmarkResult { bytes_written: u64::MAX, elapsed_nanos: 1 };
    assert_eq!(
        res.throughput_bytes_per_sec(),
        Some(u64::MAX as u128 * 1_000_000_000)
    );
}
