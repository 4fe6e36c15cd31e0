use writebench::errors::ArgumentError;
use writebench::strategy::Strategy;

#[test]
fn parse_known_names() {
    assert_eq!(Strategy::parse("seq"), Ok(Strategy::Sequential));
    assert_eq!(Strategy::parse("async"), Ok(Strategy::Async));
    assert_eq!(Strategy::parse("async2"), Ok(Strategy::Async2));
    assert_eq!(Strategy::parse("io_uring"), Ok(Strategy::IOUring));
    assert_eq!(Strategy::parse("io_uring2"), Ok(Strategy::IOUring2));
    assert_eq!(Strategy::parse("io_uring8"), Ok(Strategy::IOUring8));
}

#[test]
fn parse_unknown_name() {
    assert_eq!(Strategy::parse(""), Err(ArgumentError::UnknownStrategy));
    assert_eq!(Strategy::parse("uring"), Err(ArgumentError::UnknownStrategy));
    assert_eq!(Strategy::parse("SEQ"), Err(ArgumentError::UnknownStrategy));
    assert_eq!(Strategy::parse("io_uring4"), Err(ArgumentError::UnknownStrategy));
}

#[test]
fn window_depths() {
    assert_eq!(Strategy::Sequential.window_depth(10), 1);
    assert_eq!(Strategy::IOUring.window_depth(10), 1);
    assert_eq!(Strategy::Async2.window_depth(10), 2);
    assert_eq!(Strategy::IOUring2.window_depth(10), 2);
    assert_eq!(Strategy::IOUring8.window_depth(10), 8);
    assert_eq!(Strategy::Async.window_depth(10), 10);
    assert_eq!(Strategy::Async.window_depth(0), 1);
}

#[test]
fn error_policy_divergence() {
    assert!(Strategy::Sequential.fatal_on_error());
    assert!(Strategy::Async.fatal_on_error());
    assert!(Strategy::Async2.fatal_on_error());
    assert!(Strategy::IOUring.fatal_on_error());
    assert!(Strategy::IOUring2.fatal_on_error());
    assert!(!Strategy::IOUring8.fatal_on_error());
}

#[test]
fn chaining_and_ring_use() {
    assert!(Strategy::IOUring8.chained());
    assert!(!Strategy::IOUring2.chained());
    assert!(!Strategy::Sequential.chained());
    assert!(Strategy::IOUring.uses_ring());
    assert!(Strategy::IOUring2.uses_ring());
    assert!(Strategy::IOUring8.uses_ring());
    assert!(!Strategy::Sequential.uses_ring());
    assert!(!Strategy::Async.uses_ring());
    assert!(!Strategy::Async2.uses_ring());
}
