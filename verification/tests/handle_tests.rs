//! The exactly-once-release discipline for foreign string handles.

use words_ffi::handles::HandleRegistry;
use words_ffi::handles::ReleaseOutcome;

#[test]
fn release_of_no_handle_is_a_noop() {
    let mut registry = HandleRegistry::new();
    assert_eq!(registry.release(None), ReleaseOutcome::NullNoop);
    assert_eq!(registry.live_count(), 0);
}

#[test]
fn issue_then_release_round_trip_leaks_nothing() {
    let mut registry = HandleRegistry::new();
    let handle = registry.issue().expect("a fresh registry can issue");
    assert!(registry.is_live(handle));
    assert_eq!(registry.live_count(), 1);
    assert_eq!(registry.release(Some(handle)), ReleaseOutcome::Released);
    assert!(!registry.is_live(handle));
    assert_eq!(registry.live_count(), 0);
}

#[test]
fn second_release_of_the_same_handle_reclaims_nothing() {
    let mut registry = HandleRegistry::new();
    let handle = registry.issue().expect("a fresh registry can issue");
    assert_eq!(registry.release(Some(handle)), ReleaseOutcome::Released);
    assert_eq!(registry.release(Some(handle)), ReleaseOutcome::NotLive);
    assert_eq!(registry.live_count(), 0);
}

#[test]
fn a_handle_never_issued_is_refused() {
    let mut registry = HandleRegistry::new();
    assert_eq!(registry.release(Some(12345)), ReleaseOutcome::NotLive);
    assert_eq!(registry.live_count(), 0);
}

#[test]
fn issued_handles_are_distinct() {
    let mut registry = HandleRegistry::new();
    let first = registry.issue().expect("a fresh registry can issue");
    let second = registry.issue().expect("a fresh registry can issue");
    assert_ne!(first, second);
    assert_eq!(registry.live_count(), 2);
    assert_eq!(registry.release(Some(first)), ReleaseOutcome::Released);
    assert!(registry.is_live(second));
    assert_eq!(registry.live_count(), 1);
}

#[test]
fn released_handle_values_are_never_reissued() {
    let mut registry = HandleRegistry::new();
    let first = registry.issue().expect("a fresh registry can issue");
    assert_eq!(registry.release(Some(first)), ReleaseOutcome::Released);
    let second = registry.issue().expect("a fresh registry can issue");
    assert_ne!(first, second);
    assert!(!registry.is_live(first));
    assert!(registry.is_live(second));
}

#[test]
fn releasing_one_handle_does_not_touch_another() {
    let mut registry = HandleRegistry::new();
    let first = registry.issue().expect("a fresh registry can issue");
    let second = registry.issue().expect("a fresh registry can issue");
    let third = registry.issue().expect("a fresh registry can issue");
    assert_eq!(registry.release(Some(second)), ReleaseOutcome::Released);
    assert!(registry.is_live(first));
    assert!(!registry.is_live(second));
    assert!(registry.is_live(third));
    assert_eq!(registry.live_count(), 2);
}
