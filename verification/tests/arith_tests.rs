//! The wrapping addition operation on concrete values.

#[test]
fn add_exact_small_values() {
    assert_eq!(words_ffi::arith::add(2, 3), 5);
    assert_eq!(words_ffi::arith::add(1000, 234), 1234);
}

#[test]
fn add_zero_is_identity() {
    assert_eq!(words_ffi::arith::add(0, 7), 7);
    assert_eq!(words_ffi::arith::add(7, 0), 7);
    assert_eq!(words_ffi::arith::add(0, u32::MAX), u32::MAX);
}

#[test]
fn add_wraps_at_the_top() {
    assert_eq!(words_ffi::arith::add(u32::MAX, 1), 0);
    assert_eq!(words_ffi::arith::add(u32::MAX, u32::MAX), u32::MAX - 1);
    assert_eq!(words_ffi::arith::add(0x8000_0000, 0x8000_0000), 0);
}

#[test]
fn add_commutes_on_samples() {
    assert_eq!(
        words_ffi::arith::add(123_456, 654_321),
        words_ffi::arith::add(654_321, 123_456)
    );
    assert_eq!(
        words_ffi::arith::add(u32::MAX, 17),
        words_ffi::arith::add(17, u32::MAX)
    );
}

#[test]
fn add_associates_on_samples() {
    let a = 0xDEAD_BEEF;
    let b = 0x1234_5678;
    let c = 0xCAFE_F00D;
    assert_eq!(
        words_ffi::arith::add(words_ffi::arith::add(a, b), c),
        words_ffi::arith::add(a, words_ffi::arith::add(b, c))
    );
}
