use leansig_keypair::{is_valid_epoch_window, LIFETIME};

#[test]
fn lifetime_is_two_to_the_thirty_two() {
    assert_eq!(LIFETIME, 4294967296);
    assert_eq!(LIFETIME, 1u64 << 32);
}

#[test]
fn window_boundary_scenario() {
    assert!(!is_valid_epoch_window(0, 0));
    assert!(!is_valid_epoch_window(17, 0));
    assert!(!is_valid_epoch_window(usize::MAX, 0));
    assert!(is_valid_epoch_window(0, 1));
}

#[test]
fn windows_inside_the_lifetime_are_valid() {
    assert!(is_valid_epoch_window(0, 1));
    assert!(is_valid_epoch_window(0, 1024));
    assert!(is_valid_epoch_window(123456, 654321));
    assert!(is_valid_epoch_window(4294967295, 1));
    assert!(is_valid_epoch_window(4294967294, 2));
    assert!(is_valid_epoch_window(1, 4294967295));
    assert!(is_valid_epoch_window(0, 4294967295));
}

#[test]
fn the_whole_lifetime_is_a_valid_window() {
    let lifetime = usize::try_from(LIFETIME).unwrap();
    assert!(is_valid_epoch_window(0, lifetime));
    assert!(!is_valid_epoch_window(1, lifetime));
    assert!(!is_valid_epoch_window(0, lifetime + 1));
    assert!(!is_valid_epoch_window(lifetime, 1));
    assert!(!is_valid_epoch_window(lifetime - 1, 2));
}

#[test]
fn windows_that_overflow_are_invalid() {
    assert!(!is_valid_epoch_window(usize::MAX, 1));
    assert!(!is_valid_epoch_window(1, usize::MAX));
    assert!(!is_valid_epoch_window(usize::MAX, usize::MAX));
    assert!(!is_valid_epoch_window(usize::MAX / 2 + 1, usize::MAX / 2 + 1));
}
