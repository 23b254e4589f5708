use vstd::prelude::*;

verus! {

/// Ticks of the 24 MHz system timer per millisecond.
pub const TICKS_PER_MS: u64 = 24_000;

/// Milliseconds since boot from a raw 24 MHz timer reading.
pub fn ticks_to_ms(raw: u64) -> (ms: u64)
    ensures
        ms == raw / TICKS_PER_MS,
{
    raw / TICKS_PER_MS
}

/// Time from `started` to `now` on a wrapping millisecond clock.
pub open spec fn spec_elapsed_ms(now: u64, started: u64) -> u64 {
    vstd::wrapping::u64_specs::wrapping_sub(now, started)
}

/// The elapsed time from `started` to `now` as reported in diagnostics:
/// computed on the wrapping clock and capped at `u32::MAX`.
pub fn elapsed_ms(now: u64, started: u64) -> (elapsed: u32)
    ensures
        elapsed == (if spec_elapsed_ms(now, started) > u32::MAX {
            u32::MAX
        } else {
            spec_elapsed_ms(now, started) as u32
        }),
{
    let elapsed = now.wrapping_sub(started);
    if elapsed > u32::MAX as u64 {
        u32::MAX
    } else {
        elapsed as u32
    }
}

/// A size or count as reported in diagnostics: capped at `u32::MAX`.
pub fn saturate_to_u32(value: usize) -> (reported: u32)
    ensures
        reported == (if value > u32::MAX {
            u32::MAX
        } else {
            value as u32
        }),
{
    if value > u32::MAX as usize {
        u32::MAX
    } else {
        value as u32
    }
}

/// Whether a periodic report is due: at least `period` milliseconds have
/// passed since `last` on the wrapping clock.
pub fn diagnostics_due(current: u64, last: u64, period: u64) -> (due: bool)
    ensures
        due == (spec_elapsed_ms(current, last) >= period),
{
    current.wrapping_sub(last) >= period
}

} // verus!
