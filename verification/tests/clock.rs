use std::time::Instant;
use wasm_coremark::clock::as_wasm_i32;
use wasm_coremark::clock::clock_ms;
use wasm_coremark::clock::clock_ms_i32;
use wasm_coremark::clock::millis_as_u32;
use wasm_coremark::clock::millis_from_parts;

#[test]
fn millis_below_two_to_the_32_are_kept() {
    assert_eq!(millis_as_u32(0), 0);
    assert_eq!(millis_as_u32(12_345), 12_345);
    assert_eq!(millis_as_u32(0xFFFF_FFFF), 0xFFFF_FFFF);
}

#[test]
fn millis_wrap_around_at_two_to_the_32() {
    assert_eq!(millis_as_u32(1u128 << 32), 0);
    assert_eq!(millis_as_u32((1u128 << 32) + 7), 7);
    assert_eq!(millis_as_u32((5u128 << 40) + 99), 99);
}

#[test]
fn wasm_i32_keeps_the_bits() {
    assert_eq!(as_wasm_i32(0), 0);
    assert_eq!(as_wasm_i32(41), 41);
    assert_eq!(as_wasm_i32(0x7FFF_FFFF), i32::MAX);
    assert_eq!(as_wasm_i32(0x8000_0000), i32::MIN);
    assert_eq!(as_wasm_i32(0xFFFF_FFFF), -1);
}

#[test]
fn clock_counts_from_its_start() {
    let started = Instant::now();
    let first = clock_ms(&started);
    assert!(first < 1_000);
    while started.elapsed() < std::time::Duration::from_millis(30 + first as u64) {}
    let second = clock_ms(&started);
    assert!(second >= first + 30);
    assert!(clock_ms_i32(&started) >= second as i32);
}

#[test]
fn whole_millis_match_std() {
    assert_eq!(millis_from_parts(0, 0), 0);
    assert_eq!(millis_from_parts(2, 999_999), 2_000);
    assert_eq!(millis_from_parts(2, 1_000_000), 2_001);
    assert_eq!(millis_from_parts(u64::MAX, 999_999_999), u64::MAX as u128 * 1000 + 999);
    let d = std::time::Duration::new(12_345, 678_901_234);
    assert_eq!(millis_from_parts(d.as_secs(), d.subsec_nanos()), d.as_millis());
}
