use vstd::prelude::*;
use vstd::arithmetic::div_mod::lemma_div_is_ordered;
use vstd::arithmetic::mul::{lemma_mul_inequality, lemma_mul_strict_inequality};

verus! {

/// Minimum lead time, in seconds, between creating an escrow and the start
/// of its schedule.
pub const MIN_LEAD_SECONDS: i64 = 60;

/// A schedule is acceptable when it ends after it starts and starts at
/// least a minute after `now`.
pub open spec fn schedule_ok(start_ts: int, end_ts: int, now: int) -> bool {
    end_ts > start_ts && start_ts - now >= MIN_LEAD_SECONDS
}

/// The vested part of a deposit at time `now`: nothing before the start, the
/// whole deposit from the end on, and the linear share in between, rounded
/// down.
pub open spec fn vested(deposit: int, start_ts: int, end_ts: int, now: int) -> int {
    if now < start_ts {
        0
    } else if now >= end_ts {
        deposit
    } else {
        deposit * (now - start_ts) / (end_ts - start_ts)
    }
}

/// Checks a proposed schedule against the time of creation.
pub fn is_valid_schedule(start_ts: i64, end_ts: i64, current_time: i64) -> (r: bool)
    ensures
        r == schedule_ok(start_ts as int, end_ts as int, current_time as int),
{
    if end_ts <= start_ts {
        return false;
    }
    if (start_ts as i128) - (current_time as i128) < MIN_LEAD_SECONDS as i128 {
        return false;
    }
    true
}

proof fn lemma_share_bounds(deposit: int, elapsed: int, total: int)
    requires
        0 <= deposit,
        0 <= elapsed < total,
    ensures
        0 <= deposit * elapsed / total <= deposit,
        deposit * elapsed <= deposit * total,
{
    lemma_mul_inequality(elapsed, total, deposit);
    assert(elapsed * deposit == deposit * elapsed) by (nonlinear_arith);
    assert(total * deposit == deposit * total) by (nonlinear_arith);
    assert(0 <= deposit * elapsed) by (nonlinear_arith)
        requires
            0 <= deposit,
            0 <= elapsed,
    ;
    lemma_div_is_ordered(0, deposit * elapsed, total);
    lemma_div_is_ordered(deposit * elapsed, deposit * total, total);
    assert(deposit * total / total == deposit) by (nonlinear_arith)
        requires
            0 < total,
    ;
}

/// The vested part of `original_deposit_size` at `now`.
pub fn vested_amount(original_deposit_size: u64, start_ts: i64, end_ts: i64, now: i64) -> (r: u64)
    ensures
        r as int == vested(original_deposit_size as int, start_ts as int, end_ts as int, now as int),
{
    if now < start_ts {
        0
    } else if now >= end_ts {
        original_deposit_size
    } else {
        let elapsed: u128 = ((now as i128) - (start_ts as i128)) as u128;
        let total: u128 = ((end_ts as i128) - (start_ts as i128)) as u128;
        proof {
            lemma_share_bounds(original_deposit_size as int, elapsed as int, total as int);
            lemma_mul_inequality(original_deposit_size as int, u64::MAX as int, total as int);
            assert(total < 0x1_0000_0000_0000_0000);
            lemma_mul_strict_inequality(total as int, 0x1_0000_0000_0000_0000int, u64::MAX as int);
            assert(total * (u64::MAX as int) == (u64::MAX as int) * total) by (nonlinear_arith);
            assert(original_deposit_size as int * total == total * original_deposit_size as int) by (nonlinear_arith);
        }
        let share: u128 = (original_deposit_size as u128) * elapsed / total;
        share as u64
    }
}

/// Vesting never goes backwards: for a schedule that ends after it starts,
/// the vested amount does not decrease as time passes, is zero before the
/// start and is the whole deposit from the end on.
pub proof fn lemma_vested_monotonic(deposit: u64, start_ts: i64, end_ts: i64, t1: i64, t2: i64)
    requires
        start_ts < end_ts,
        t1 <= t2,
    ensures
        vested(deposit as int, start_ts as int, end_ts as int, t1 as int) <= vested(
            deposit as int,
            start_ts as int,
            end_ts as int,
            t2 as int,
        ),
        t1 < start_ts ==> vested(deposit as int, start_ts as int, end_ts as int, t1 as int) == 0,
        t2 >= end_ts ==> vested(deposit as int, start_ts as int, end_ts as int, t2 as int)
            == deposit,
        0 <= vested(deposit as int, start_ts as int, end_ts as int, t1 as int) <= deposit,
{
    let d = deposit as int;
    let s = start_ts as int;
    let e = end_ts as int;
    if s <= t1 < e {
        lemma_share_bounds(d, t1 - s, e - s);
        if t2 < e {
            lemma_share_bounds(d, t2 - s, e - s);
            lemma_mul_inequality(t1 - s, t2 - s, d);
            assert((t1 - s) * d == d * (t1 - s)) by (nonlinear_arith);
            assert((t2 - s) * d == d * (t2 - s)) by (nonlinear_arith);
            lemma_div_is_ordered(d * (t1 - s), d * (t2 - s), e - s);
        }
    } else if s <= t2 < e {
        lemma_share_bounds(d, t2 - s, e - s);
    }
}

} // verus!
