//! Time-based figures of a lease: days remaining, payment standing and the
//! next due date. The current time is passed in, in nanoseconds since the epoch.
use vstd::prelude::*;
use crate::types::{LeaseContract, LeaseContractView, PaymentStatus};

verus! {

/// Nanoseconds in one day.
pub const NANOS_PER_DAY: u64 = 86_400_000_000_000;

/// Days after a payment before the next one is due.
pub const PAYMENT_DUE_DAYS: u64 = 30;

/// Days past the due date after which a lease without grace is in default.
pub const LATE_WINDOW_DAYS: u64 = 30;

/// Nanoseconds in the thirty-day payment interval.
pub const PAYMENT_INTERVAL_NANOS: u64 = 2_592_000_000_000_000;

/// Whole days left before `lease_end`, none once it has passed.
pub open spec fn days_remaining_at(lease_end: u64, now: u64) -> int {
    if now >= lease_end {
        0
    } else {
        (lease_end - now) / (NANOS_PER_DAY as int)
    }
}

/// Whole days between a payment at `last` and `now`.
pub open spec fn days_since(last: u64, now: u64) -> int {
    (now - last) / (NANOS_PER_DAY as int)
}

/// The standing of a lease whose last payment was at `last` and whose grace
/// period is `grace` days, at time `now`.
pub open spec fn payment_status_at(last: Option<u64>, grace: u64, now: u64) -> PaymentStatus {
    match last {
        None => PaymentStatus::Current,
        Some(l) => {
            let d = days_since(l, now);
            if d <= PAYMENT_DUE_DAYS {
                PaymentStatus::Current
            } else if d <= PAYMENT_DUE_DAYS + grace {
                PaymentStatus::GracePeriod((PAYMENT_DUE_DAYS + grace - d) as u64)
            } else if d <= PAYMENT_DUE_DAYS + LATE_WINDOW_DAYS {
                PaymentStatus::Late((d - PAYMENT_DUE_DAYS) as u64)
            } else {
                PaymentStatus::Defaulted
            }
        },
    }
}

/// The standing can be computed in `u64`: the last payment is not in the future,
/// and the end of the grace period fits when it is looked at.
pub open spec fn payment_status_computable(last: Option<u64>, grace: u64, now: u64) -> bool {
    match last {
        None => true,
        Some(l) => l <= now && (days_since(l, now) > PAYMENT_DUE_DAYS ==> PAYMENT_DUE_DAYS + grace
            <= u64::MAX),
    }
}

/// How serious a standing is, from current to defaulted.
pub open spec fn severity(s: PaymentStatus) -> int {
    match s {
        PaymentStatus::Current => 0,
        PaymentStatus::GracePeriod(_) => 1,
        PaymentStatus::Late(_) => 2,
        PaymentStatus::Defaulted => 3,
    }
}

/// When the next payment is due: thirty days after the last payment, or after
/// the start of the lease when none was made; none for a closed lease.
pub open spec fn next_payment_due(c: LeaseContractView) -> Option<int> {
    if c.is_completed || !c.is_active {
        None
    } else {
        match c.last_payment_date {
            Some(l) => Some(l + PAYMENT_INTERVAL_NANOS),
            None => Some(c.lease_start + PAYMENT_INTERVAL_NANOS),
        }
    }
}

/// The due date fits in a `u64`.
pub open spec fn next_payment_computable(c: LeaseContractView) -> bool {
    next_payment_due(c) matches Some(d) ==> d <= u64::MAX
}

/// A date known to fit, as a `u64`.
pub open spec fn as_date(d: Option<int>) -> Option<u64> {
    match d {
        Some(x) => Some(x as u64),
        None => None,
    }
}

/// Days left before the lease ends at `current_time`.
pub fn calculate_days_remaining(contract: &LeaseContract, current_time: u64) -> (days: u64)
    ensures
        days == days_remaining_at(contract.lease_end, current_time),
{
    if current_time >= contract.lease_end {
        0
    } else {
        (contract.lease_end - current_time) / NANOS_PER_DAY
    }
}

/// The payment standing of a lease at `current_time`.
pub fn check_payment_status(contract: &LeaseContract, current_time: u64) -> (status: PaymentStatus)
    requires
        payment_status_computable(
            contract.last_payment_date,
            contract.grace_period_days,
            current_time,
        ),
    ensures
        status == payment_status_at(
            contract.last_payment_date,
            contract.grace_period_days,
            current_time,
        ),
{
    match contract.last_payment_date {
        Some(last_payment) => {
            let days_since_payment = (current_time - last_payment) / NANOS_PER_DAY;
            let payment_due_days = PAYMENT_DUE_DAYS;
            if days_since_payment <= payment_due_days {
                PaymentStatus::Current
            } else if days_since_payment <= payment_due_days + contract.grace_period_days {
                PaymentStatus::GracePeriod(
                    payment_due_days + contract.grace_period_days - days_since_payment,
                )
            } else if days_since_payment <= payment_due_days + LATE_WINDOW_DAYS {
                PaymentStatus::Late(days_since_payment - payment_due_days)
            } else {
                PaymentStatus::Defaulted
            }
        },
        None => PaymentStatus::Current,
    }
}

/// The date at which the next payment falls due, if the lease still takes payments.
pub fn calculate_next_payment_date(contract: &LeaseContract) -> (date: Option<u64>)
    requires
        next_payment_computable(contract@),
    ensures
        date == as_date(next_payment_due(contract@)),
{
    if contract.is_completed || !contract.is_active {
        None
    } else {
        match contract.last_payment_date {
            Some(last_payment) => Some(last_payment + PAYMENT_INTERVAL_NANOS),
            None => Some(contract.lease_start + PAYMENT_INTERVAL_NANOS),
        }
    }
}

/// The days remaining on a lease never grow as time passes.
pub proof fn days_remaining_never_grow(lease_end: u64, earlier: u64, later: u64)
    requires
        earlier <= later,
    ensures
        days_remaining_at(lease_end, later) <= days_remaining_at(lease_end, earlier),
        0 <= days_remaining_at(lease_end, later),
{
    if later < lease_end {
        vstd::arithmetic::div_mod::lemma_div_is_ordered(
            lease_end - later,
            lease_end - earlier,
            NANOS_PER_DAY as int,
        );
        vstd::arithmetic::div_mod::lemma_div_is_ordered(
            0,
            lease_end - later,
            NANOS_PER_DAY as int,
        );
    }
}

/// The standing of a lease only gets worse as time passes without a payment:
/// current, then grace period, then late, then defaulted.
pub proof fn payment_standing_never_improves(last: u64, grace: u64, earlier: u64, later: u64)
    requires
        earlier <= later,
        payment_status_computable(Some(last), grace, earlier),
        payment_status_computable(Some(last), grace, later),
    ensures
        severity(payment_status_at(Some(last), grace, earlier)) <= severity(
            payment_status_at(Some(last), grace, later),
        ),
{
    vstd::arithmetic::div_mod::lemma_div_is_ordered(
        earlier - last,
        later - last,
        NANOS_PER_DAY as int,
    );
}

/// A lease paid at time `t` is current at time `t`.
pub proof fn paid_lease_is_current(t: u64, grace: u64)
    ensures
        payment_status_computable(Some(t), grace, t),
        payment_status_at(Some(t), grace, t) == PaymentStatus::Current,
{
    assert(days_since(t, t) == 0);
}

} // verus!
