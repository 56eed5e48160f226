use rvm::arch::cpu::{current_time_nanos, frequency, frequency_from, FrequencyCache};

#[test]
fn frequency_is_at_least_the_default() {
    assert_eq!(frequency_from(None), 4000);
    assert_eq!(frequency_from(Some(0)), 4000);
    assert_eq!(frequency_from(Some(3999)), 4000);
    assert_eq!(frequency_from(Some(4000)), 4000);
    assert_eq!(frequency_from(Some(4001)), 4001);
    assert_eq!(frequency_from(Some(u16::MAX)), u16::MAX);
}

#[test]
fn frequency_is_asked_for_once() {
    let mut cache = FrequencyCache::new();
    let first = frequency(&mut cache);
    assert!(first >= 4000);
    assert_eq!(frequency(&mut cache), first);
}

#[test]
fn cycles_become_nanoseconds() {
    assert_eq!(current_time_nanos(0, 4000), 0);
    assert_eq!(current_time_nanos(4000, 4000), 1000);
    assert_eq!(current_time_nanos(4001, 4000), 1000);
    assert_eq!(current_time_nanos(u64::MAX / 1000, 5000), u64::MAX / 1000 * 1000 / 5000);
}
