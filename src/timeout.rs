use vstd::prelude::*;

verus! {

/// The longest wait the multiplexer takes, in milliseconds.
pub const MAX_WAIT_MILLIS: i32 = 0x7fff_ffff;

/// Nanoseconds in a second.
pub const NANOS_PER_SEC: u32 = 1_000_000_000;

/// A timeout of `secs` seconds and `nanos` nanoseconds, in whole milliseconds
/// rounded up, so that a wait never ends before the timeout.
pub open spec fn millis_rounded_up(secs: u64, nanos: u32) -> int {
    secs * 1000 + (nanos + 999_999) / 1_000_000
}

/// What the multiplexer is told to wait for a timeout: `-1` for none (wait
/// until an event), else the timeout in milliseconds rounded up and capped.
pub open spec fn wait_millis_spec(timeout: Option<(u64, u32)>) -> int {
    match timeout {
        None => -1,
        Some((secs, nanos)) => if millis_rounded_up(secs, nanos) > MAX_WAIT_MILLIS {
            MAX_WAIT_MILLIS as int
        } else {
            millis_rounded_up(secs, nanos)
        },
    }
}

/// The wait left of `timeout_ms` once `elapsed_ms` have passed: none stays
/// none, and a finite wait shrinks to zero.
pub open spec fn remaining_spec(timeout_ms: i32, elapsed_ms: u64) -> int {
    if timeout_ms < 0 {
        timeout_ms as int
    } else if elapsed_ms >= timeout_ms {
        0
    } else {
        timeout_ms - elapsed_ms
    }
}

/// Converts a timeout, given as whole seconds and the nanoseconds below one
/// second, to the multiplexer's wait in milliseconds.
pub fn wait_millis(timeout: Option<(u64, u32)>) -> (r: i32)
    requires
        timeout.is_some() ==> timeout.unwrap().1 < NANOS_PER_SEC,
    ensures
        r == wait_millis_spec(timeout),
{
    match timeout {
        None => -1,
        Some((secs, nanos)) => {
            let sub: u64 = ((nanos as u64) + 999_999) / 1_000_000;
            if secs >= 2_147_484 {
                MAX_WAIT_MILLIS
            } else {
                let total: u64 = secs * 1000 + sub;
                if total > MAX_WAIT_MILLIS as u64 {
                    MAX_WAIT_MILLIS
                } else {
                    total as i32
                }
            }
        },
    }
}

/// The wait left once `elapsed_ms` of a wait of `timeout_ms` have passed, so
/// that retries after an interruption keep to the caller's deadline.
pub fn remaining_millis(timeout_ms: i32, elapsed_ms: u64) -> (r: i32)
    ensures
        r == remaining_spec(timeout_ms, elapsed_ms),
{
    if timeout_ms < 0 {
        timeout_ms
    } else if elapsed_ms >= timeout_ms as u64 {
        0
    } else {
        (timeout_ms as u64 - elapsed_ms) as i32
    }
}

/// The wait to ask of the port in one round of a poll: none at all while
/// completions of cancelled probes wait to be handed back, else the wait left.
pub fn port_wait(left_ms: i32, cancelled_waiting: bool) -> (r: i32)
    ensures
        r == if cancelled_waiting { 0 } else { left_ms },
{
    if cancelled_waiting {
        0
    } else {
        left_ms
    }
}

/// Whether a poll is over after a round: it produced events, or no wait is left.
pub fn poll_done(n_events: usize, left_ms: i32) -> (r: bool)
    ensures
        r == (n_events > 0 || left_ms == 0),
{
    n_events > 0 || left_ms == 0
}

/// Timeout bound: a zero timeout is a poll that does not wait; a finite
/// timeout is never cut short, and overshoots by less than a millisecond
/// unless capped; the wait left after retries never grows, never exceeds
/// the original wait, and is zero once the timeout has elapsed.
pub proof fn lemma_timeout_bound(secs: u64, nanos: u32, timeout_ms: i32, e1: u64, e2: u64)
    requires
        nanos < NANOS_PER_SEC,
    ensures
        wait_millis_spec(Some((0u64, 0u32))) == 0,
        wait_millis_spec(Some((secs, nanos))) >= 0,
        wait_millis_spec(Some((secs, nanos))) < MAX_WAIT_MILLIS ==> {
            &&& wait_millis_spec(Some((secs, nanos))) * 1_000_000 >= secs * 1_000_000_000 + nanos
            &&& wait_millis_spec(Some((secs, nanos))) * 1_000_000 < secs * 1_000_000_000 + nanos + 1_000_000
        },
        timeout_ms >= 0 ==> 0 <= remaining_spec(timeout_ms, e1) <= timeout_ms,
        timeout_ms >= 0 && e1 <= e2 ==> remaining_spec(timeout_ms, e2) <= remaining_spec(timeout_ms, e1),
        timeout_ms >= 0 && e1 >= timeout_ms ==> remaining_spec(timeout_ms, e1) == 0,
        timeout_ms < 0 ==> remaining_spec(timeout_ms, e1) == timeout_ms,
{
    let q = (nanos + 999_999) / 1_000_000;
    assert(q * 1_000_000 >= nanos && q * 1_000_000 < nanos + 1_000_000) by (nonlinear_arith)
        requires
            q == (nanos + 999_999) / 1_000_000,
            nanos >= 0,
    ;
}

} // verus!
