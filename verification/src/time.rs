use vstd::prelude::*;
use std::time::Duration;

verus! {

/// The whole seconds of a `Duration`, as `Duration::as_secs` reports them.
pub uninterp spec fn whole_secs(d: Duration) -> u64;

/// The part of a `Duration` below one second, in nanoseconds, as
/// `Duration::subsec_nanos` reports it.
pub uninterp spec fn subsec_nanos(d: Duration) -> u32;

/// The length of a `Duration` in whole milliseconds.
pub open spec fn whole_millis(d: Duration) -> int {
    whole_secs(d) * 1000 + subsec_nanos(d) / 1_000_000
}

/// The length of a `Duration` in whole milliseconds, as far as 64 bits hold
/// it: anything above wraps around.
pub open spec fn millis_u64(d: Duration) -> u64 {
    (whole_millis(d) % 0x1_0000_0000_0000_0000) as u64
}

/// `Duration::from_secs` makes a duration of that many seconds and no
/// fraction of a second.
pub assume_specification[ Duration::from_secs ](secs: u64) -> (d: Duration)
    ensures
        whole_secs(d) == secs,
        subsec_nanos(d) == 0,
;

/// `Duration::as_millis` gives the seconds times a thousand plus the whole
/// milliseconds of the fraction.
pub assume_specification[ Duration::as_millis ](d: &Duration) -> (ms: u128)
    ensures
        ms == whole_millis(*d),
;

/// The duration in milliseconds, wrapped into 64 bits.
pub fn duration_millis(d: Duration) -> (ms: u64)
    ensures
        ms == millis_u64(d),
{
    let total: u128 = d.as_millis();
    (total % 0x1_0000_0000_0000_0000u128) as u64
}

} // verus!
