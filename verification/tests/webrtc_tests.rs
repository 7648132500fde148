//! The size of buffers, and that all parts are there.

use harmion_connect::webrtc;
use harmion_connect::webrtc::{pool, signal, simple};
use harmion_connect::webrtc::BUFFER_SIZE;

#[test]
fn buffer_size_matches_expected_value() {
    assert_eq!(BUFFER_SIZE, 256, "BUFFER_SIZE changed; update dependent components and tests if intentional.");
}

#[test]
fn buffer_size_is_power_of_two() {
    assert!(BUFFER_SIZE.is_power_of_two(), "BUFFER_SIZE should be a power of two for efficient buffering/alignments.");
}

#[test]
fn buffer_size_is_non_zero_and_within_reasonable_bounds() {
    assert!(BUFFER_SIZE > 0, "BUFFER_SIZE must be > 0");
    assert!(BUFFER_SIZE <= (1 << 20), "BUFFER_SIZE unexpectedly large (> 1 MiB)");
}

#[test]
fn can_allocate_vec_with_buffer_capacity() {
    let v: Vec<u8> = Vec::with_capacity(BUFFER_SIZE);
    assert!(v.capacity() >= BUFFER_SIZE, "Vec capacity should be at least BUFFER_SIZE");
    assert_eq!(v.len(), 0, "Vec should be empty after with_capacity");
}

#[test]
fn private_submodules_are_resolvable() {
    let _ = simple::GOOGLE_STUN_LIST.len();
    let _ = signal::IceCandidate::default();
    let _ = pool::SignalTask::new();
}

#[test]
fn buffer_size_matches_contract() {
    assert_eq!(webrtc::BUFFER_SIZE, 256);
    assert!(webrtc::BUFFER_SIZE.is_power_of_two(), "Prefer power-of-two buffer sizes for alignment and performance");
    assert!(webrtc::BUFFER_SIZE >= 64, "Sanity bound: too small for practical RTC framing");
}

#[test]
fn buffer_size_nonzero() {
    assert_ne!(webrtc::BUFFER_SIZE, 0, "BUFFER_SIZE must never be zero");
}

#[test]
fn webrtc_buffer_size_is_expected() {
    const EXPECTED: usize = 256;
    assert_eq!(harmion_connect::webrtc::BUFFER_SIZE, EXPECTED, "webrtc::BUFFER_SIZE changed unexpectedly");
}

#[test]
fn webrtc_modules_compile_and_are_linked() {
    let _size = harmion_connect::webrtc::BUFFER_SIZE;
    assert!(_size > 0, "buffer size should be positive");
}

#[test]
fn buffer_size_is_positive_and_reasonable() {
    assert!(BUFFER_SIZE > 0, "BUFFER_SIZE should be > 0");
    assert!(BUFFER_SIZE <= 1 << 20, "BUFFER_SIZE should not exceed 1 MiB");
}

#[test]
fn aggregator_modules_link() {
    let _ = BUFFER_SIZE;
}

#[test]
fn buffer_size_constant_is_sane() {
    assert!(BUFFER_SIZE >= 64 && BUFFER_SIZE <= 64 * 1024, "buffer size out of expected bounds");
}
