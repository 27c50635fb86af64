//! The millisecond clock that the benchmark imports as `env::clock_ms`.
use std::time::Duration;
use std::time::Instant;
use vstd::prelude::*;

verus! {

/// The moment from which the benchmark clock counts.
#[verifier::external_type_specification]
#[verifier::external_body]
pub struct ExInstant(Instant);

/// Calls `Instant::elapsed`: the time that has passed since `started`. What
/// comes back depends on the moment of the call, so nothing is stated of it.
#[verifier::external_body]
fn elapsed_since(started: &Instant) -> (d: Duration) {
    started.elapsed()
}

/// Calls `Duration::as_secs`: the whole seconds in `d`. A `Duration` is
/// opaque here, so no clause ties the count to it.
#[verifier::external_body]
fn whole_secs(d: &Duration) -> (s: u64) {
    d.as_secs()
}

/// Calls `Duration::subsec_nanos`: the nanoseconds in `d` beyond its whole
/// seconds, which std documents as always less than one billion.
#[verifier::external_body]
fn subsec_nanos(d: &Duration) -> (n: u32)
    ensures
        n < 1_000_000_000,
{
    d.subsec_nanos()
}

/// The whole milliseconds in a duration of `secs` seconds and `nanos`
/// nanoseconds, as `Duration::as_millis` counts them.
pub fn millis_from_parts(secs: u64, nanos: u32) -> (ms: u128)
    ensures
        ms == secs * 1000 + nanos / 1_000_000,
{
    let whole: u128 = secs as u128 * 1000;
    let part: u128 = (nanos / 1_000_000) as u128;
    whole + part
}

/// Keeps the low 32 bits of a millisecond count, as a `u32` clock reading does.
pub fn millis_as_u32(ms: u128) -> (r: u32)
    ensures
        r as int == ms as int % 0x1_0000_0000,
{
    let r = #[verifier::truncate] (ms as u32);
    assert(r as int == ms as int % 0x1_0000_0000) by (bit_vector)
        requires
            r == #[verifier::truncate] (ms as u32),
    ;
    r
}

/// Reads a `u32` clock value as the Wasm `i32` with the same bits, which is
/// how a host hands it to a module that imports `clock_ms: () -> i32`.
pub fn as_wasm_i32(v: u32) -> (r: i32)
    ensures
        r as int == if v < 0x8000_0000 { v as int } else { v as int - 0x1_0000_0000 },
{
    let r = #[verifier::truncate] (v as i32);
    assert(r as int == if v < 0x8000_0000 { v as int } else { v as int - 0x1_0000_0000 })
        by (bit_vector)
        requires
            r == #[verifier::truncate] (v as i32),
    ;
    r
}

/// Milliseconds since `started`, wrapped into 32 bits. The value depends on
/// the moment of the call; it is the whole milliseconds of the elapsed time,
/// which `millis_from_parts` counts, taken modulo 2^32, which
/// `millis_as_u32` states.
pub fn clock_ms(started: &Instant) -> (ms: u32) {
    let elapsed = elapsed_since(started);
    millis_as_u32(millis_from_parts(whole_secs(&elapsed), subsec_nanos(&elapsed)))
}

/// The same reading as `clock_ms`, as the Wasm `i32` with the same bits.
pub fn clock_ms_i32(started: &Instant) -> (ms: i32) {
    as_wasm_i32(clock_ms(started))
}

} // verus!
