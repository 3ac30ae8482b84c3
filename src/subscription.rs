//! Premium subscription tiers: their price and the expiry they grant.
use vstd::prelude::*;

verus! {

/// Seconds in one day.
pub const SECONDS_PER_DAY: u64 = 86400;

/// Price of three months of premium, in the smallest token unit.
pub const PREMIUM_COST_3_MONTHS: u64 = 300_000;

/// Price of seven months of premium, in the smallest token unit.
pub const PREMIUM_COST_7_MONTHS: u64 = 500_000;

/// Price of one year of premium, in the smallest token unit.
pub const PREMIUM_COST_1_YEAR: u64 = 1_000_000;

/// A recognised subscription period.
#[derive(Clone, Copy, Debug, PartialEq, Eq, Structural)]
pub enum PeriodCode {
    ThreeMonths,
    SevenMonths,
    OneYear,
}

/// The period that a wire code selects, if any.
pub open spec fn period_of(code: u8) -> Option<PeriodCode> {
    if code == 0 {
        Some(PeriodCode::ThreeMonths)
    } else if code == 1 {
        Some(PeriodCode::SevenMonths)
    } else if code == 2 {
        Some(PeriodCode::OneYear)
    } else {
        None
    }
}

/// Length of a period in days.
pub open spec fn days_of(period: PeriodCode) -> nat {
    match period {
        PeriodCode::ThreeMonths => 90,
        PeriodCode::SevenMonths => 210,
        PeriodCode::OneYear => 365,
    }
}

/// Price of a period in the smallest token unit.
pub open spec fn payment_of(period: PeriodCode) -> nat {
    match period {
        PeriodCode::ThreeMonths => 300_000,
        PeriodCode::SevenMonths => 500_000,
        PeriodCode::OneYear => 1_000_000,
    }
}

/// Length of a period in seconds.
pub open spec fn seconds_of(period: PeriodCode) -> nat {
    days_of(period) * 86400
}

/// The moment at which a subscription bought at `now` ends.
pub open spec fn expiry_at(period: PeriodCode, now: int) -> int {
    now + seconds_of(period)
}

impl PeriodCode {
    /// Reads a period from its wire code; codes other than 0, 1 and 2 are
    /// not periods.
    pub fn from_code(code: u8) -> (r: Option<PeriodCode>)
        ensures
            r == period_of(code),
    {
        match code {
            0 => Some(PeriodCode::ThreeMonths),
            1 => Some(PeriodCode::SevenMonths),
            2 => Some(PeriodCode::OneYear),
            _ => None,
        }
    }

    /// Length of the period in days.
    pub fn duration_days(&self) -> (r: u64)
        ensures
            r == days_of(*self),
    {
        match self {
            PeriodCode::ThreeMonths => 90,
            PeriodCode::SevenMonths => 210,
            PeriodCode::OneYear => 365,
        }
    }

    /// Price of the period in the smallest token unit.
    pub fn payment(&self) -> (r: u64)
        ensures
            r == payment_of(*self),
    {
        match self {
            PeriodCode::ThreeMonths => PREMIUM_COST_3_MONTHS,
            PeriodCode::SevenMonths => PREMIUM_COST_7_MONTHS,
            PeriodCode::OneYear => PREMIUM_COST_1_YEAR,
        }
    }
}

/// The expiry of a subscription of `period` bought at `now`: `now` plus the
/// period's length in seconds.
pub fn calculate_expiry_time(period: PeriodCode, now: u64) -> (r: u64)
    requires
        expiry_at(period, now as int) <= u64::MAX,
    ensures
        r == expiry_at(period, now as int),
{
    let days = period.duration_days();
    now + days * SECONDS_PER_DAY
}

/// Expiry moves with the moment of purchase: buying `delta` seconds later
/// ends the subscription `delta` seconds later.
pub proof fn lemma_expiry_linear(period: PeriodCode, now: int, delta: int)
    ensures
        expiry_at(period, now + delta) == expiry_at(period, now) + delta,
{
}

} // verus!
