use serwasm::workload::total_millis;

#[test]
fn small_durations_are_kept() {
    assert_eq!(total_millis(0), 0);
    assert_eq!(total_millis(1234), 1234);
    assert_eq!(total_millis(i64::MAX as u128), i64::MAX);
}

#[test]
fn large_durations_wrap_like_as() {
    let big: u128 = (1u128 << 64) + 5;
    assert_eq!(total_millis(big), 5);
    assert_eq!(total_millis(i64::MAX as u128 + 1), i64::MIN);
}
