//! Time allocation: from the moves played and the remaining clock to the
//! budget of one search.

use std::time::Duration;
use vstd::prelude::*;

verus! {

/// The whole seconds that a duration holds: what `Duration::as_secs` returns.
pub uninterp spec fn whole_seconds(d: Duration) -> u64;

/// The part of a duration below one second, in nanoseconds: what
/// `Duration::subsec_nanos` returns.
pub uninterp spec fn subsecond_nanos(d: Duration) -> u32;

/// `Duration::as_secs`: the number of whole seconds of the duration.
pub assume_specification[ Duration::as_secs ](d: &Duration) -> (secs: u64)
    ensures
        secs == whole_seconds(*d),
;

/// `Duration::subsec_nanos`: the fractional part of the duration in
/// nanoseconds, which std documents to be below one billion.
pub assume_specification[ Duration::subsec_nanos ](d: &Duration) -> (nanos: u32)
    ensures
        nanos == subsecond_nanos(*d),
        nanos < NANOS_PER_SECOND,
;

/// `Duration::new`: the duration of the given whole seconds and additional
/// nanoseconds. With a billion nanoseconds or more std carries into the
/// seconds and may panic, so those inputs are left out.
pub assume_specification[ Duration::new ](secs: u64, nanos: u32) -> (d: Duration)
    requires
        nanos < NANOS_PER_SECOND,
    ensures
        whole_seconds(d) == secs,
        subsecond_nanos(d) == nanos,
;

/// `Duration::from_millis`: the duration of the given number of milliseconds.
pub assume_specification[ Duration::from_millis ](millis: u64) -> (d: Duration)
    ensures
        whole_seconds(d) == millis / 1000,
        subsecond_nanos(d) == (millis % 1000) * 1_000_000,
;

pub const NANOS_PER_SECOND: u32 = 1_000_000_000;

/// Number of moves a game is expected to last.
pub const GAME_MOVES_EXPECTED: u8 = 45;

/// Number of moves that are always assumed to be still ahead.
pub const MIN_MOVES_LEFT: u8 = 10;

/// The length of a duration in nanoseconds.
pub open spec fn total_nanos(d: Duration) -> nat {
    whole_seconds(d) as nat * 1_000_000_000 + subsecond_nanos(d) as nat
}

/// The moves assumed to be left after `moves_played` moves: the rest of a
/// game of 45 moves, and never fewer than 10.
pub open spec fn moves_left(moves_played: nat) -> nat {
    if moves_played <= 35 {
        (45 - moves_played) as nat
    } else {
        10
    }
}

/// The budget of one search in nanoseconds: an even share of the remaining
/// time over the moves left, and never less than one second.
pub open spec fn budget_nanos(moves_played: nat, remaining_nanos: nat) -> nat {
    let share = remaining_nanos / moves_left(moves_played);
    if share >= 1_000_000_000 {
        share
    } else {
        1_000_000_000
    }
}

/// Executable form of `moves_left`.
pub fn moves_left_of(moves_played: u8) -> (left: u8)
    ensures
        left == moves_left(moves_played as nat),
        10 <= left <= 45,
{
    if moves_played <= GAME_MOVES_EXPECTED - MIN_MOVES_LEFT {
        GAME_MOVES_EXPECTED - moves_played
    } else {
        MIN_MOVES_LEFT
    }
}

/// The time to spend on the next move, given the moves played so far and the
/// time left on the clock.
pub fn thinking_time(moves_played: u8, time_remaining: Duration) -> (budget: Duration)
    ensures
        total_nanos(budget) == budget_nanos(moves_played as nat, total_nanos(time_remaining)),
        subsecond_nanos(budget) < NANOS_PER_SECOND,
{
    let left: u128 = moves_left_of(moves_played) as u128;
    let secs: u64 = time_remaining.as_secs();
    let sub: u32 = time_remaining.subsec_nanos();
    let remaining: u128 = (secs as u128) * 1_000_000_000u128 + (sub as u128);
    let share: u128 = remaining / left;
    assert(share <= remaining / 10) by (nonlinear_arith)
        requires
            share == remaining / left,
            10 <= left,
    ;
    let nanos: u128 = if share >= 1_000_000_000u128 {
        share
    } else {
        1_000_000_000u128
    };
    let out_secs: u64 = (nanos / 1_000_000_000u128) as u64;
    let out_sub: u32 = (nanos % 1_000_000_000u128) as u32;
    Duration::new(out_secs, out_sub)
}

/// The budget is never below one second.
pub proof fn lemma_budget_at_least_one_second(moves_played: nat, remaining_nanos: nat)
    ensures
        budget_nanos(moves_played, remaining_nanos) >= 1_000_000_000,
{
}

/// With the same clock, a later move never gets a smaller budget than an
/// earlier one: fewer moves are left to share the time.
pub proof fn lemma_budget_grows_with_moves_played(earlier: nat, later: nat, remaining_nanos: nat)
    requires
        earlier <= later,
    ensures
        budget_nanos(earlier, remaining_nanos) <= budget_nanos(later, remaining_nanos),
{
    let a = moves_left(earlier);
    let b = moves_left(later);
    assert(remaining_nanos / a <= remaining_nanos / b) by (nonlinear_arith)
        requires
            0 < b <= a,
    ;
}

/// With the same clock, a later move gets no larger budget than an earlier
/// one wherever both are paced over the same number of moves (from move 35
/// on, the floor of 10), or the later share is within the one-second floor.
pub proof fn lemma_budget_does_not_grow_at_the_floors(
    earlier: nat,
    later: nat,
    remaining_nanos: nat,
)
    requires
        earlier <= later,
        moves_left(earlier) == moves_left(later) || remaining_nanos / moves_left(later)
            <= 1_000_000_000,
    ensures
        budget_nanos(later, remaining_nanos) <= budget_nanos(earlier, remaining_nanos),
{
}


/// Everywhere else the budget of the later move is strictly larger: the
/// pacing differs and the later share is above one second.
pub proof fn lemma_budget_grows_strictly_above_the_floors(
    earlier: nat,
    later: nat,
    remaining_nanos: nat,
)
    requires
        earlier <= later,
        moves_left(earlier) != moves_left(later),
        remaining_nanos / moves_left(later) > 1_000_000_000,
    ensures
        budget_nanos(earlier, remaining_nanos) < budget_nanos(later, remaining_nanos),
{
    let a = moves_left(earlier) as int;
    let b = moves_left(later) as int;
    let n = remaining_nanos as int;
    let q = n / b;
    assert(n / a < q) by (nonlinear_arith)
        requires
            10 <= b < a <= 45,
            q == n / b,
            q > 1_000_000_000,
            0 <= n,
    {
        assert(n < (q + 1) * b);
        assert(q * a >= q * b + q);
        assert(q * a > n);
        if n / a >= q {
            assert(n >= (n / a) * a);
            assert((n / a) * a >= q * a);
        }
    }
}

} // verus!
