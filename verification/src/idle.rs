//! Idle tracking: how long until an inactive client is kicked.
//!
//! Time points are nanosecond offsets from a per-session origin, and spans
//! are nanosecond counts (what `Duration::as_nanos` gives).
use vstd::prelude::*;

verus! {

/// Nanoseconds in one second.
pub const NANOS_PER_SEC: u128 = 1_000_000_000;

/// `now.saturating_duration_since(earlier)`: the span from `earlier` to
/// `now`, or zero when `now` is not after `earlier`.
pub open spec fn spec_saturating_elapsed(earlier: u128, now: u128) -> u128 {
    if now >= earlier { (now - earlier) as u128 } else { 0 }
}

/// Span left before the kick, when the client has not been kicked yet.
pub open spec fn spec_remaining(last_input_at: u128, now: u128, kick_after: u128) -> u128 {
    (kick_after - spec_saturating_elapsed(last_input_at, now)) as u128
}

/// Whole seconds of `remaining` (truncated to 32 bits), plus one when a
/// fraction of a second is left over.
pub open spec fn spec_countdown_secs(remaining: u128) -> int {
    ((remaining / NANOS_PER_SEC) as u32) + if remaining % NANOS_PER_SEC > 0 { 1int } else { 0int }
}

/// Whether the kick countdown is shown: the deadline has not passed and
/// less than `warning_within` is left.
pub open spec fn spec_in_warning_window(
    last_input_at: u128,
    now: u128,
    kick_after: u128,
    warning_within: u128,
) -> bool {
    &&& spec_saturating_elapsed(last_input_at, now) < kick_after
    &&& spec_remaining(last_input_at, now, kick_after) < warning_within
}

/// Seconds until idle-kick, rounded up so the displayed countdown ticks
/// down to 1 (not 0) before disconnect; `None` outside the warning window
/// or after the deadline has passed.
pub open spec fn spec_kick_warning_secs(
    last_input_at: u128,
    now: u128,
    kick_after: u128,
    warning_within: u128,
) -> Option<u32> {
    if spec_in_warning_window(last_input_at, now, kick_after, warning_within) {
        Some(spec_countdown_secs(spec_remaining(last_input_at, now, kick_after)) as u32)
    } else {
        None
    }
}

/// The countdown does not fit in a `u32`: the truncated whole seconds are
/// already `u32::MAX` and a fraction is left over.
pub open spec fn spec_countdown_overflows(
    last_input_at: u128,
    now: u128,
    kick_after: u128,
    warning_within: u128,
) -> bool {
    &&& spec_in_warning_window(last_input_at, now, kick_after, warning_within)
    &&& spec_countdown_secs(spec_remaining(last_input_at, now, kick_after)) > u32::MAX
}

/// Whether the countdown at `now` would not fit in a `u32` (the whole
/// seconds, truncated to 32 bits, are `u32::MAX` and a fraction is left):
/// `kick_warning_secs` refuses such a call.
pub fn countdown_overflows(last_input_at: u128, now: u128, kick_after: u128, warning_within: u128) -> (r:
    bool)
    ensures
        r == spec_countdown_overflows(last_input_at, now, kick_after, warning_within),
{
    let elapsed: u128 = if now >= last_input_at { now - last_input_at } else { 0 };
    if elapsed >= kick_after {
        return false;
    }
    let remaining: u128 = kick_after - elapsed;
    if remaining >= warning_within {
        return false;
    }
    let whole: u32 = (remaining / NANOS_PER_SEC) as u32;
    whole == u32::MAX && remaining % NANOS_PER_SEC > 0
}

/// Seconds until idle-kick, rounded up so the displayed countdown ticks down
/// to 1 (not 0) before disconnect. Returns `None` outside the warning window
/// or after the deadline has already passed.
///
/// All four arguments are in nanoseconds: two time points on one clock and
/// two spans.
pub fn kick_warning_secs(
    last_input_at: u128,
    now: u128,
    kick_after: u128,
    warning_within: u128,
) -> (secs: Option<u32>)
    requires
        !spec_countdown_overflows(last_input_at, now, kick_after, warning_within),
    ensures
        secs == spec_kick_warning_secs(last_input_at, now, kick_after, warning_within),
{
    let elapsed: u128 = if now >= last_input_at { now - last_input_at } else { 0 };
    if elapsed >= kick_after {
        return None;
    }
    let remaining: u128 = kick_after - elapsed;
    if remaining >= warning_within {
        return None;
    }
    let whole: u32 = (remaining / NANOS_PER_SEC) as u32;
    let secs: u32 = if remaining % NANOS_PER_SEC > 0 { whole + 1 } else { whole };
    Some(secs)
}

/// The smallest element of a non-empty run.
pub open spec fn spec_min(secs: Seq<u64>) -> u64
    decreases secs.len(),
{
    if secs.len() <= 1 {
        secs[0]
    } else {
        let rest = spec_min(secs.drop_last());
        if rest <= secs.last() { rest } else { secs.last() }
    }
}

/// Idle threshold the hub applies in its own lobby, in seconds: the
/// smallest of the games' own thresholds (so the hub is at least as patient
/// as the strictest game), at least 30, and 60 when there are no games.
pub open spec fn spec_lobby_kick_secs(secs: Seq<u64>) -> u64 {
    let m = if secs.len() == 0 { 60u64 } else { spec_min(secs) };
    if m >= 30 { m } else { 30 }
}

/// Idle threshold the hub applies in its own lobby, in seconds, from the
/// games' own thresholds.
pub fn compute_lobby_kick(inactivity_secs: &[u64]) -> (secs: u64)
    ensures
        secs == spec_lobby_kick_secs(inactivity_secs@),
{
    let n = inactivity_secs.len();
    let mut min: u64 = 60;
    if n > 0 {
        min = inactivity_secs[0];
        let mut i: usize = 1;
        while i < n
            invariant
                n == inactivity_secs@.len(),
                1 <= i <= n,
                min == spec_min(inactivity_secs@.take(i as int)),
            decreases n - i,
        {
            proof {
                assert(inactivity_secs@.take(i + 1).drop_last() =~= inactivity_secs@.take(i as int));
            }
            if inactivity_secs[i] < min {
                min = inactivity_secs[i];
            }
            i += 1;
        }
        proof {
            assert(inactivity_secs@.take(n as int) =~= inactivity_secs@);
        }
    }
    if min >= 30 {
        min
    } else {
        30
    }
}

/// A span of whole seconds, in nanoseconds.
pub fn secs_to_nanos(secs: u64) -> (ns: u128)
    ensures
        ns == secs * NANOS_PER_SEC,
{
    (secs as u128) * NANOS_PER_SEC
}

// ---------------------------------------------------------------------------
// Laws
// ---------------------------------------------------------------------------

/// Whole seconds and leftover nanoseconds of a span.
proof fn lemma_split_secs(r: u128)
    ensures
        r == (r / NANOS_PER_SEC) * NANOS_PER_SEC + r % NANOS_PER_SEC,
        0 <= r % NANOS_PER_SEC < NANOS_PER_SEC,
{
}

/// The countdown rounds up: whenever it is shown (with a warning window
/// shorter than `u32::MAX` seconds, so nothing is truncated), it is at
/// least 1, and it is the number of started seconds left before the kick.
pub proof fn lemma_countdown_rounds_up(last_input_at: u128, now: u128, kick_after: u128, warning_within: u128)
    requires
        warning_within <= (u32::MAX as u128) * NANOS_PER_SEC,
    ensures
        match spec_kick_warning_secs(last_input_at, now, kick_after, warning_within) {
            Some(s) => {
                let r = spec_remaining(last_input_at, now, kick_after) as int;
                &&& s >= 1
                &&& (s - 1) * NANOS_PER_SEC < r
                &&& r <= s * NANOS_PER_SEC
            },
            None => !spec_in_warning_window(last_input_at, now, kick_after, warning_within),
        },
{
    if spec_in_warning_window(last_input_at, now, kick_after, warning_within) {
        let r = spec_remaining(last_input_at, now, kick_after);
        lemma_split_secs(r);
        assert(r / NANOS_PER_SEC < u32::MAX);
        assert(((r / NANOS_PER_SEC) as u32) as int == (r / NANOS_PER_SEC) as int);
    }
}

/// The countdown only ticks down: for the same last input, a later tick
/// never shows more seconds than an earlier one (with a warning window
/// shorter than `u32::MAX` seconds).
pub proof fn lemma_countdown_ticks_down(
    last_input_at: u128,
    now1: u128,
    now2: u128,
    kick_after: u128,
    warning_within: u128,
)
    requires
        now1 <= now2,
        warning_within <= (u32::MAX as u128) * NANOS_PER_SEC,
        spec_kick_warning_secs(last_input_at, now1, kick_after, warning_within) is Some,
        spec_kick_warning_secs(last_input_at, now2, kick_after, warning_within) is Some,
    ensures
        spec_kick_warning_secs(last_input_at, now2, kick_after, warning_within).unwrap()
            <= spec_kick_warning_secs(last_input_at, now1, kick_after, warning_within).unwrap(),
{
    lemma_countdown_rounds_up(last_input_at, now1, kick_after, warning_within);
    lemma_countdown_rounds_up(last_input_at, now2, kick_after, warning_within);
    let s1 = spec_kick_warning_secs(last_input_at, now1, kick_after, warning_within).unwrap() as int;
    let s2 = spec_kick_warning_secs(last_input_at, now2, kick_after, warning_within).unwrap() as int;
    let r1 = spec_remaining(last_input_at, now1, kick_after) as int;
    let r2 = spec_remaining(last_input_at, now2, kick_after) as int;
    assert(r2 <= r1);
    assert(s2 <= s1) by (nonlinear_arith)
        requires
            (s2 - 1) * 1_000_000_000 < r2,
            r2 <= r1,
            r1 <= s1 * 1_000_000_000,
    ;
}

/// The deadline and the countdown never overlap: once the idle span reaches
/// the kick threshold no countdown is shown, and the kick is due exactly
/// then.
pub proof fn lemma_no_countdown_after_deadline(last_input_at: u128, now: u128, kick_after: u128, warning_within: u128)
    requires
        spec_saturating_elapsed(last_input_at, now) >= kick_after,
    ensures
        spec_kick_warning_secs(last_input_at, now, kick_after, warning_within) is None,
{
}

proof fn lemma_min_is_least_member(secs: Seq<u64>)
    requires
        secs.len() > 0,
    ensures
        exists|i: int| 0 <= i < secs.len() && secs[i] == spec_min(secs),
        forall|i: int| 0 <= i < secs.len() ==> spec_min(secs) <= #[trigger] secs[i],
    decreases secs.len(),
{
    if secs.len() == 1 {
        assert(secs[0] == spec_min(secs));
    } else {
        let rest = secs.drop_last();
        lemma_min_is_least_member(rest);
        let j = choose|j: int| 0 <= j < rest.len() && rest[j] == spec_min(rest);
        if spec_min(rest) <= secs.last() {
            assert(secs[j] == spec_min(secs));
        } else {
            assert(secs[secs.len() - 1] == spec_min(secs));
        }
        assert forall|i: int| 0 <= i < secs.len() implies spec_min(secs) <= #[trigger] secs[i] by {
            if i < secs.len() - 1 {
                assert(secs[i] == rest[i]);
            }
        }
    }
}

/// The lobby's idle threshold is the strictest game's, raised to at least
/// 30 s (60 s without games): at least 30, no more than any game's raised
/// threshold, and equal to one of them.
pub proof fn lemma_lobby_kick_is_strictest_game(secs: Seq<u64>)
    ensures
        secs.len() == 0 ==> spec_lobby_kick_secs(secs) == 60,
        secs.len() > 0 ==> spec_lobby_kick_secs(secs) >= 30,
        forall|i: int|
            0 <= i < secs.len() ==> spec_lobby_kick_secs(secs) <= (if #[trigger] secs[i] >= 30 {
                secs[i]
            } else {
                30
            }),
        secs.len() > 0 ==> exists|i: int|
            0 <= i < secs.len() && spec_lobby_kick_secs(secs) == (if #[trigger] secs[i] >= 30 {
                secs[i]
            } else {
                30
            }),
{
    if secs.len() > 0 {
        lemma_min_is_least_member(secs);
        let j = choose|j: int| 0 <= j < secs.len() && secs[j] == spec_min(secs);
        assert(spec_lobby_kick_secs(secs) == (if secs[j] >= 30 { secs[j] } else { 30 }));
    }
}

} // verus!
