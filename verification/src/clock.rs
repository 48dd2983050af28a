use rand::Rng;
use vstd::prelude::*;

verus! {

/// Milliseconds of safety margin that a wait may ask for on top of its base.
pub const EXTRA_BUFFER_TIME: u64 = 100;

/// Exclusive upper bound, in milliseconds, of the random jitter of a wait.
pub const JITTER_BOUND: u64 = 100;

/// One request to the clock: wait `base_seconds`, with or without the safety
/// margin. Jitter is added to every wait.
#[derive(Debug, Clone, Copy, PartialEq, Eq, Structural)]
pub struct BackoffRequest {
    pub base_seconds: u64,
    pub add_buffer: bool,
}

/// The safety margin of a wait, in milliseconds.
pub open spec fn buffer_millis(add_buffer: bool) -> int {
    if add_buffer {
        EXTRA_BUFFER_TIME as int
    } else {
        0
    }
}

/// Length of a wait in milliseconds: the base, the margin and the jitter.
pub open spec fn delay_millis(base_seconds: u64, add_buffer: bool, jitter_millis: u64) -> int {
    base_seconds * 1000 + buffer_millis(add_buffer) + jitter_millis
}

/// Computes the length of a wait for a jitter that has already been drawn.
///
/// The result is 128 bits wide so that every base fits.
pub fn delay_with_jitter(base_seconds: u64, add_buffer: bool, jitter_millis: u64) -> (delay: u128)
    ensures
        delay == delay_millis(base_seconds, add_buffer, jitter_millis),
{
    let buffer: u64 = if add_buffer {
        EXTRA_BUFFER_TIME
    } else {
        0
    };
    (base_seconds as u128) * 1000 + (buffer as u128) + (jitter_millis as u128)
}

/// Draws a number below `bound` with `rand::Rng::gen_range` on the
/// generator that `rand::thread_rng` returns.
///
/// Trusted: the draw lies in the half-open range from zero to `bound`.
/// `gen_range` panics on an empty range, which `bound > 0` rules out.
#[verifier::external_body]
fn random_below(bound: u64) -> (drawn: u64)
    requires
        bound > 0,
    ensures
        drawn < bound,
{
    rand::thread_rng().gen_range(0..bound)
}

/// Computes how long, in milliseconds, the caller has to sleep for a wait of
/// `base_seconds`: the base, the safety margin if asked for, and jitter that
/// is drawn anew on every call.
///
/// With the margin the result lies in the tenth of a second that starts 100
/// milliseconds after the base; without it, in the tenth of a second that
/// starts at the base.
pub fn sleep_millis(base_seconds: u64, add_buffer: bool) -> (delay: u128)
    ensures
        exists|jitter: u64|
            jitter < JITTER_BOUND && delay == #[trigger] delay_millis(
                base_seconds,
                add_buffer,
                jitter,
            ),
        add_buffer ==> base_seconds * 1000 + 100 <= delay < base_seconds * 1000 + 200,
        !add_buffer ==> base_seconds * 1000 <= delay < base_seconds * 1000 + 100,
{
    let jitter: u64 = random_below(JITTER_BOUND);
    delay_with_jitter(base_seconds, add_buffer, jitter)
}

} // verus!
