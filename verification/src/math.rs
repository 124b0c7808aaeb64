//! The vesting-emission arithmetic.
//!
//! Emission is computed in whole periods. The vesting term is split into
//! `total_periods = ceil(duration / period_seconds)` periods (at least one),
//! each emitting `amount / total_periods` tokens under integer division; once
//! every period has elapsed the full `amount` is emitted exactly, so no
//! truncation remainder is ever lost at full term. What is claimable now is
//! what has been emitted minus what was already claimed, floored at zero.
//!
//! Two frequency variants are special. `Once` is a single period spanning
//! the whole duration: nothing before `start + duration`, everything from
//! then on. `Slot` is not a time unit; its seconds-equivalent must be
//! resolved by the host environment, so the formula refuses it with an
//! arithmetic error rather than guess a mapping. A negative duration is
//! likewise refused.

use vstd::prelude::*;
use vstd::arithmetic::div_mod::{
    lemma_div_is_ordered, lemma_div_pos_is_pos, lemma_fundamental_div_mod,
    lemma_fundamental_div_mod_converse,
};
use vstd::arithmetic::mul::lemma_mul_inequality;
use crate::error::VestingError;
use crate::state::Frequency;

verus! {

/// Seconds in a minute.
pub const SECONDS_PER_MINUTE: u64 = 60;

/// Seconds in an hour.
pub const SECONDS_PER_HOUR: u64 = 3600;

/// Seconds in a day.
pub const SECONDS_PER_DAY: u64 = 86400;

/// Seconds in a week.
pub const SECONDS_PER_WEEK: u64 = 604800;

/// Seconds in a month, counted as thirty days.
pub const SECONDS_PER_MONTH: u64 = 2592000;

/// Seconds in a quarter, counted as ninety days.
pub const SECONDS_PER_QUARTER: u64 = 7776000;

/// Seconds in a year, counted as three hundred sixty-five days.
pub const SECONDS_PER_YEAR: u64 = 31536000;

/// The period length in seconds of each fixed emission frequency.
///
/// `Once` and `Slot` have no fixed period; they are mapped to zero and
/// handled separately by the formula.
pub open spec fn spec_period_seconds(f: Frequency) -> u64 {
    match f {
        Frequency::Once => 0,
        Frequency::Slot => 0,
        Frequency::Second => 1,
        Frequency::Minute => SECONDS_PER_MINUTE,
        Frequency::Hour => SECONDS_PER_HOUR,
        Frequency::Day => SECONDS_PER_DAY,
        Frequency::Week => SECONDS_PER_WEEK,
        Frequency::Month => SECONDS_PER_MONTH,
        Frequency::Quarter => SECONDS_PER_QUARTER,
        Frequency::Year => SECONDS_PER_YEAR,
    }
}

/// The period length in seconds of a fixed emission frequency.
pub fn period_seconds(f: Frequency) -> (r: u64)
    ensures
        r == spec_period_seconds(f),
{
    match f {
        Frequency::Once => 0,
        Frequency::Slot => 0,
        Frequency::Second => 1,
        Frequency::Minute => SECONDS_PER_MINUTE,
        Frequency::Hour => SECONDS_PER_HOUR,
        Frequency::Day => SECONDS_PER_DAY,
        Frequency::Week => SECONDS_PER_WEEK,
        Frequency::Month => SECONDS_PER_MONTH,
        Frequency::Quarter => SECONDS_PER_QUARTER,
        Frequency::Year => SECONDS_PER_YEAR,
    }
}

/// Whether the emission formula is defined for a schedule's parameters: the
/// frequency must have a seconds-equivalent and the duration must not be
/// negative.
pub open spec fn spec_math_defined(duration: i64, f: Frequency) -> bool {
    &&& f != Frequency::Slot
    &&& duration >= 0
}

/// The number of emission periods in a vesting term: the duration divided by
/// the period length, rounded up, and at least one.
pub open spec fn spec_total_periods(duration: i64, p: u64) -> int
    recommends
        duration >= 0,
        p >= 1,
{
    if duration == 0 {
        1
    } else {
        (duration - 1) / (p as int) + 1
    }
}

/// Tokens emitted up to `now` under the given schedule parameters.
pub open spec fn spec_emitted(now: i64, start: i64, duration: i64, f: Frequency, amount: u64) -> int
    recommends
        spec_math_defined(duration, f),
{
    if now < start {
        0
    } else if f == Frequency::Once {
        if now - start >= duration {
            amount as int
        } else {
            0
        }
    } else {
        let p = spec_period_seconds(f) as int;
        let total = spec_total_periods(duration, spec_period_seconds(f));
        let elapsed = if (now - start) / p >= total {
            total
        } else {
            (now - start) / p
        };
        if elapsed == total {
            amount as int
        } else {
            (amount as int / total) * elapsed
        }
    }
}

/// Tokens claimable at `now`: emitted minus already claimed, floored at
/// zero.
pub open spec fn spec_claimable(
    now: i64,
    start: i64,
    duration: i64,
    f: Frequency,
    amount: u64,
    claimed: u64,
) -> int
    recommends
        spec_math_defined(duration, f),
{
    let e = spec_emitted(now, start, duration, f, amount);
    if claimed as int >= e {
        0
    } else {
        e - claimed as int
    }
}

/// Whatever has been emitted is between zero and the full amount.
pub proof fn lemma_emitted_bounds(now: i64, start: i64, duration: i64, f: Frequency, amount: u64)
    requires
        spec_math_defined(duration, f),
    ensures
        0 <= spec_emitted(now, start, duration, f, amount) <= amount,
{
    if now >= start && f != Frequency::Once {
        let p = spec_period_seconds(f) as int;
        let a = amount as int;
        let total = spec_total_periods(duration, spec_period_seconds(f));
        if duration > 0 {
            lemma_div_pos_is_pos(duration - 1, p);
        }
        assert(total >= 1);
        let q = (now - start) / p;
        lemma_div_pos_is_pos(now - start, p);
        let elapsed = if q >= total {
            total
        } else {
            q
        };
        lemma_div_pos_is_pos(a, total);
        if elapsed != total {
            lemma_mul_inequality(elapsed, total, a / total);
            lemma_fundamental_div_mod(a, total);
            vstd::arithmetic::mul::lemma_mul_is_commutative(total, a / total);
            assert((a / total) * total <= a);
            lemma_mul_inequality(0, elapsed, a / total);
            vstd::arithmetic::mul::lemma_mul_is_commutative(elapsed, a / total);
        }
    }
}

/// With nothing yet claimed, the claimable amount never decreases as time
/// advances.
pub proof fn lemma_claimable_monotonic(
    t1: i64,
    t2: i64,
    start: i64,
    duration: i64,
    f: Frequency,
    amount: u64,
)
    requires
        t1 <= t2,
        spec_math_defined(duration, f),
    ensures
        spec_claimable(t1, start, duration, f, amount, 0) <= spec_claimable(
            t2,
            start,
            duration,
            f,
            amount,
            0,
        ),
{
    lemma_emitted_bounds(t1, start, duration, f, amount);
    lemma_emitted_bounds(t2, start, duration, f, amount);
    let e1 = spec_emitted(t1, start, duration, f, amount);
    let e2 = spec_emitted(t2, start, duration, f, amount);
    if t1 >= start && f != Frequency::Once {
        let p = spec_period_seconds(f) as int;
        let a = amount as int;
        let total = spec_total_periods(duration, spec_period_seconds(f));
        if duration > 0 {
            lemma_div_pos_is_pos(duration - 1, p);
        }
        let q1 = (t1 - start) / p;
        let q2 = (t2 - start) / p;
        lemma_div_is_ordered(t1 - start, t2 - start, p);
        lemma_div_pos_is_pos(t1 - start, p);
        let el1 = if q1 >= total {
            total
        } else {
            q1
        };
        let el2 = if q2 >= total {
            total
        } else {
            q2
        };
        assert(el1 <= el2);
        lemma_div_pos_is_pos(a, total);
        if el1 != total && el2 != total {
            lemma_mul_inequality(el1, el2, a / total);
            vstd::arithmetic::mul::lemma_mul_is_commutative(el1, a / total);
            vstd::arithmetic::mul::lemma_mul_is_commutative(el2, a / total);
        }
    }
}

/// Claiming can never push the cumulative claimed total past the allocated
/// amount.
pub proof fn lemma_claim_never_exceeds_amount(
    now: i64,
    start: i64,
    duration: i64,
    f: Frequency,
    amount: u64,
    claimed: u64,
)
    requires
        spec_math_defined(duration, f),
        claimed <= amount,
    ensures
        claimed + spec_claimable(now, start, duration, f, amount, claimed) <= amount,
{
    lemma_emitted_bounds(now, start, duration, f, amount);
}

/// At the moment vesting commences nothing is claimable yet.
pub proof fn lemma_claimable_at_start(start: i64, duration: i64, f: Frequency, amount: u64)
    requires
        spec_math_defined(duration, f),
        duration >= 1,
    ensures
        spec_claimable(start, start, duration, f, amount, 0) == 0,
{
    if f != Frequency::Once {
        let p = spec_period_seconds(f) as int;
        let total = spec_total_periods(duration, spec_period_seconds(f));
        lemma_div_pos_is_pos(duration - 1, p);
        assert(total >= 1);
        assert(0int / p == 0) by {
            lemma_fundamental_div_mod_converse(0, p, 0, 0);
        }
    }
}

/// At the end of the full term the entire amount has been emitted, with no
/// truncation loss, whenever the period length divides the duration (`Once`
/// always completes at full term).
///
/// When the period does not divide the duration, the final partial period
/// completes only at the next period boundary after `start + duration`, so
/// this does not hold there.
pub proof fn lemma_claimable_at_full_term(
    now: i64,
    start: i64,
    duration: i64,
    f: Frequency,
    amount: u64,
)
    requires
        spec_math_defined(duration, f),
        duration >= 1,
        now == start + duration,
        f == Frequency::Once || duration as int % (spec_period_seconds(f) as int) == 0,
    ensures
        spec_claimable(now, start, duration, f, amount, 0) == amount,
{
    lemma_emitted_bounds(now, start, duration, f, amount);
    if f != Frequency::Once {
        let p = spec_period_seconds(f) as int;
        let d = duration as int;
        let total = spec_total_periods(duration, spec_period_seconds(f));
        let k = d / p;
        lemma_fundamental_div_mod(d, p);
        assert(d == k * p) by {
            vstd::arithmetic::mul::lemma_mul_is_commutative(p, k);
        }
        lemma_div_pos_is_pos(d, p);
        assert(k >= 1) by (nonlinear_arith)
            requires
                d == k * p,
                d >= 1,
                p >= 1,
                k >= 0,
        ;
        assert(d - 1 == (k - 1) * p + (p - 1)) by (nonlinear_arith)
            requires
                d == k * p,
        ;
        assert((d - 1) / p == k - 1) by {
            lemma_fundamental_div_mod_converse(d - 1, p, k - 1, p - 1);
        }
        assert(total == k);
        assert((now - start) / p == k);
    }
}

/// Computes how many tokens are claimable at `now` for a position holding
/// `amount` total with `claimed` already disbursed, under a schedule that
/// commences at `start`, runs for `duration` seconds and emits with
/// frequency `f`.
///
/// Fails with an arithmetic error exactly when the formula is undefined for
/// the schedule: a `Slot` frequency or a negative duration.
pub fn claimable(
    now: i64,
    start: i64,
    duration: i64,
    f: Frequency,
    amount: u64,
    claimed: u64,
) -> (r: Result<u64, VestingError>)
    ensures
        r is Ok <==> spec_math_defined(duration, f),
        r matches Ok(x) ==> x == spec_claimable(now, start, duration, f, amount, claimed),
        r is Err ==> r == Err::<u64, VestingError>(VestingError::ArithmeticError),
{
    if f == Frequency::Slot {
        return Err(VestingError::ArithmeticError);
    }
    if duration < 0 {
        return Err(VestingError::ArithmeticError);
    }
    if now < start {
        return Ok(0);
    }
    let elapsed_secs: u64 = ((now as i128) - (start as i128)) as u64;
    assert(elapsed_secs == now - start);
    let emitted: u64;
    if f == Frequency::Once {
        emitted = if elapsed_secs >= (duration as u64) {
            amount
        } else {
            0
        };
    } else {
        let p: u64 = period_seconds(f);
        assert(p >= 1);
        let d: u64 = duration as u64;
        let total: u64 = if d == 0 {
            1
        } else {
            (d - 1) / p + 1
        };
        assert(total == spec_total_periods(duration, p));
        let q: u64 = elapsed_secs / p;
        let elapsed_periods: u64 = if q >= total {
            total
        } else {
            q
        };
        if elapsed_periods == total {
            emitted = amount;
        } else {
            let eps: u64 = amount / total;
            proof {
                let a = amount as int;
                let t = total as int;
                let e = elapsed_periods as int;
                lemma_div_pos_is_pos(a, t);
                lemma_mul_inequality(e, t, a / t);
                lemma_fundamental_div_mod(a, t);
                vstd::arithmetic::mul::lemma_mul_is_commutative(t, a / t);
                lemma_mul_inequality(0, e, a / t);
                vstd::arithmetic::mul::lemma_mul_is_commutative(e, a / t);
            }
            emitted = eps * elapsed_periods;
        }
    }
    if claimed >= emitted {
        Ok(0)
    } else {
        Ok(emitted - claimed)
    }
}

} // verus!
