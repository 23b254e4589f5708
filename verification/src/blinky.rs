use vstd::prelude::*;

verus! {

/// Busy-wait iterations per millisecond at the 240 MHz CPU clock.
pub const SPINS_PER_MS: u32 = 240_000;

/// GPIO pin of the board LED on WS63 evaluation boards.
pub const LED_PIN: u8 = 0;

/// Half period of the blink, in milliseconds.
pub const BLINK_HALF_PERIOD_MS: u32 = 500;

/// `core::hint::spin_loop`: a hint to the processor that it is busy-waiting.
/// It has no effect that the program can observe, so nothing is stated.
#[verifier::external_body]
fn spin_loop_hint() {
    core::hint::spin_loop()
}

/// Busy-wait for about `ms` milliseconds: `SPINS_PER_MS` spin hints per
/// millisecond (240 000 at the 240 MHz clock). Gives the number of spin hints
/// issued: exactly 240 000 per millisecond.
pub fn delay_ms(ms: u32) -> (hints: Ghost<int>)
    ensures
        hints@ == ms * 240_000,
{
    let ghost mut issued: int = 0;
    let mut elapsed: u32 = 0;
    while elapsed < ms
        invariant
            elapsed <= ms,
            issued == elapsed * SPINS_PER_MS,
        decreases ms - elapsed,
    {
        let mut spins: u32 = 0;
        while spins < SPINS_PER_MS
            invariant
                spins <= SPINS_PER_MS,
                issued == elapsed * SPINS_PER_MS + spins,
            decreases SPINS_PER_MS - spins,
        {
            spin_loop_hint();
            proof {
                issued = issued + 1;
            }
            spins += 1;
        }
        elapsed += 1;
    }
    Ghost(issued)
}

} // verus!
