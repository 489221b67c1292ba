use rusnet::game::clock::elapsed;

#[test]
fn elapsed_is_the_difference() {
    assert_eq!(elapsed(0, 0), 0);
    assert_eq!(elapsed(100, 250), 150);
    assert_eq!(elapsed(0, u64::MAX), u64::MAX);
}

#[test]
fn elapsed_is_zero_when_the_clock_went_back() {
    assert_eq!(elapsed(250, 100), 0);
    assert_eq!(elapsed(u64::MAX, 0), 0);
}
