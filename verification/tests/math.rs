use fsp_vesting::error::VestingError;
use fsp_vesting::math::claimable;
use fsp_vesting::state::Frequency;

const START: i64 = 1_600_000_000;

#[test]
fn per_second_emission_scenario() {
    // One million tokens over one million seconds, one token per second.
    let amount = 1_000_000u64;
    let duration = 1_000_000i64;
    let f = Frequency::Second;
    assert_eq!(claimable(START + 250_000, START, duration, f, amount, 0).unwrap(), 250_000);
    assert_eq!(claimable(START + 999_999, START, duration, f, amount, 0).unwrap(), 999_999);
    assert_eq!(claimable(START + 1_000_000, START, duration, f, amount, 0).unwrap(), 1_000_000);
    assert_eq!(claimable(START + 5_000_000, START, duration, f, amount, 0).unwrap(), 1_000_000);
}

#[test]
fn nothing_before_or_at_start() {
    let amount = 1_000_000u64;
    let duration = 1_000_000i64;
    assert_eq!(claimable(START - 1, START, duration, Frequency::Second, amount, 0).unwrap(), 0);
    assert_eq!(claimable(START, START, duration, Frequency::Second, amount, 0).unwrap(), 0);
    assert_eq!(claimable(i64::MIN, START, duration, Frequency::Day, amount, 0).unwrap(), 0);
}

#[test]
fn claimed_is_subtracted() {
    let amount = 1_000_000u64;
    let duration = 1_000_000i64;
    let f = Frequency::Second;
    assert_eq!(claimable(START + 300, START, duration, f, amount, 120).unwrap(), 180);
    // Already claimed more than emitted: floored at zero, never negative.
    assert_eq!(claimable(START + 300, START, duration, f, amount, 500).unwrap(), 0);
}

#[test]
fn whole_periods_only() {
    // Ten days of vesting, daily emission, 1000 tokens: 100 per day.
    let amount = 1_000u64;
    let duration = 10 * 86_400i64;
    let f = Frequency::Day;
    assert_eq!(claimable(START + 86_399, START, duration, f, amount, 0).unwrap(), 0);
    assert_eq!(claimable(START + 86_400, START, duration, f, amount, 0).unwrap(), 100);
    assert_eq!(claimable(START + 3 * 86_400 + 7, START, duration, f, amount, 0).unwrap(), 300);
}

#[test]
fn full_term_pays_out_exactly_despite_truncation() {
    // 1000 tokens over 3 days: 333 per day, remainder settles at full term.
    let amount = 1_000u64;
    let duration = 3 * 86_400i64;
    let f = Frequency::Day;
    assert_eq!(claimable(START + 86_400, START, duration, f, amount, 0).unwrap(), 333);
    assert_eq!(claimable(START + 2 * 86_400, START, duration, f, amount, 0).unwrap(), 666);
    assert_eq!(claimable(START + 3 * 86_400, START, duration, f, amount, 0).unwrap(), 1_000);
}

#[test]
fn once_is_a_single_cliff() {
    let amount = 777u64;
    let duration = 1_000i64;
    let f = Frequency::Once;
    assert_eq!(claimable(START + 999, START, duration, f, amount, 0).unwrap(), 0);
    assert_eq!(claimable(START + 1_000, START, duration, f, amount, 0).unwrap(), 777);
    // A zero-duration once-schedule emits everything at commencement.
    assert_eq!(claimable(START, START, 0, f, amount, 0).unwrap(), 777);
}

#[test]
fn slot_frequency_is_refused() {
    let r = claimable(START + 10, START, 1_000, Frequency::Slot, 100, 0);
    assert_eq!(r.unwrap_err(), VestingError::ArithmeticError);
}

#[test]
fn negative_duration_is_refused() {
    let r = claimable(START + 10, START, -1, Frequency::Day, 100, 0);
    assert_eq!(r.unwrap_err(), VestingError::ArithmeticError);
}

#[test]
fn monotonic_in_time() {
    let amount = 987_654u64;
    let duration = 1_000_000i64;
    let f = Frequency::Hour;
    let mut last = 0u64;
    let mut t = START - 10;
    while t < START + 2_000_000 {
        let c = claimable(t, START, duration, f, amount, 0).unwrap();
        assert!(c >= last);
        last = c;
        t += 50_000;
    }
}

#[test]
fn repeated_claims_never_exceed_amount() {
    // Claim everything claimable at a series of increasing timestamps and
    // check the cumulative total never passes the allocation.
    let amount = 1_000u64;
    let duration = 3 * 86_400i64;
    let f = Frequency::Day;
    let mut claimed = 0u64;
    for step in 0..40 {
        let now = START + step * 7_000;
        let c = claimable(now, START, duration, f, amount, claimed).unwrap();
        claimed += c;
        assert!(claimed <= amount);
    }
    assert_eq!(claimed, 1_000);
}

#[test]
fn huge_values_do_not_overflow() {
    let amount = u64::MAX;
    let f = Frequency::Year;
    let c = claimable(i64::MAX, i64::MIN, i64::MAX, f, amount, 0).unwrap();
    assert!(c <= amount);
    // A duration of exactly one hundred year-periods pays out in full.
    let duration = 31_536_000i64 * 100;
    let c2 = claimable(duration, 0, duration, f, amount, 0).unwrap();
    assert_eq!(c2, amount);
}
