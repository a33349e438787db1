//! What each operation of the platform does, stated directly in terms of its
//! inputs and its result: which requests are accepted, and what an accepted
//! request gives.
use vstd::prelude::*;
use crate::assets::{asset_lookup_outcome, maintenance_outcome, registration_outcome};
use crate::leases::{
    details_computable, details_outcome, lookup_outcome, open_outcome, payment_computable,
    payment_outcome, termination_outcome,
};
use crate::schedule::{
    NANOS_PER_DAY, as_date, days_remaining_at, next_payment_due, payment_status_at,
};
use crate::text::is_white_space_char;
use crate::types::{
    AddMaintenanceRecordPayload, AssetNFTView, AssetPayload, ContractErrorView, ContractStatus,
    CreateLeaseContractPayload, LeaseContractView, MaintenanceRecordView, MakePaymentPayload,
    PaymentRecordView, PaymentStatus, PaymentType,
};
use crate::validation::{asset_payload_error, lease_payload_error};

verus! {

// ---------------------------------------------------------------------------
// Payments
// ---------------------------------------------------------------------------

/// Which payments are accepted. A payment is refused when no lease is stored
/// or the lease is completed. On an open lease, a regular payment must cover
/// the monthly instalment, an early payoff must cover the remaining instalments
/// less the discount (a percentage of them, rounded down), and a late payment
/// or a security deposit is accepted whatever its amount.
pub proof fn payment_acceptance(l: LeaseContractView, p: MakePaymentPayload, now: u64)
    ensures
        payment_outcome(None, p, now) == Err::<LeaseContractView, Seq<char>>(
            "Lease contract not found"@,
        ),
        l.is_completed ==> payment_outcome(Some(l), p, now) == Err::<LeaseContractView, Seq<char>>(
            "Lease is already completed"@,
        ),
        ({
            let remaining = (l.total_payments - l.completed_payments) * l.monthly_payment;
            let discount = match l.early_payoff_discount {
                Some(d) => (remaining * d) / 100,
                None => 0,
            };
            payment_outcome(Some(l), p, now) is Ok <==> {
                &&& !l.is_completed
                &&& p.payment_type == PaymentType::Regular ==> p.amount >= l.monthly_payment
                &&& p.payment_type == PaymentType::EarlyPayoff ==> p.amount >= remaining - discount
            }
        }),
        (!l.is_completed && (p.payment_type == PaymentType::LatePayment || p.payment_type
            == PaymentType::SecurityDeposit)) ==> payment_outcome(Some(l), p, now) is Ok,
        (!l.is_completed && p.payment_type == PaymentType::Regular && p.amount
            < l.monthly_payment) ==> payment_outcome(Some(l), p, now) == Err::<
            LeaseContractView,
            Seq<char>,
        >("Payment amount is less than required"@),
{
}

/// What an accepted payment does to the lease: the payment is appended to the
/// history with the next id, the payer, the amount, the type, the transaction
/// hash and the date; it counts one more instalment and becomes the last
/// payment; the lease completes (and stops being active) exactly when it is an
/// early payoff or brings the count to the total; nothing else changes.
pub proof fn accepted_payment_effect(l: LeaseContractView, p: MakePaymentPayload, now: u64)
    requires
        payment_computable(l, p),
        l.payment_history.len() < u64::MAX,
    ensures
        payment_outcome(Some(l), p, now) matches Ok(after) ==> {
            let done = p.payment_type == PaymentType::EarlyPayoff || l.completed_payments + 1
                >= l.total_payments;
            &&& after.payment_history == l.payment_history.push(
                PaymentRecordView {
                    payment_id: l.payment_history.len() as u64,
                    contract_id: p.contract_id,
                    lessee_id: l.lessee_id,
                    amount: p.amount,
                    payment_date: now,
                    payment_type: p.payment_type,
                    transaction_hash: p.transaction_hash@,
                },
            )
            &&& after.completed_payments == l.completed_payments + 1
            &&& after.last_payment_date == Some(now)
            &&& after.is_completed == done
            &&& after.is_active == (!done && l.is_active)
            &&& after.contract_status == (if done {
                ContractStatus::Completed
            } else {
                l.contract_status
            })
            &&& after == LeaseContractView {
                payment_history: after.payment_history,
                completed_payments: after.completed_payments,
                last_payment_date: after.last_payment_date,
                is_completed: after.is_completed,
                is_active: after.is_active,
                contract_status: after.contract_status,
                ..l
            }
        },
{
}

// ---------------------------------------------------------------------------
// Termination
// ---------------------------------------------------------------------------

/// Terminating succeeds exactly on an active lease, whatever has been paid on
/// it: the lease becomes inactive and terminated and nothing else changes. An
/// inactive lease is refused, and so is a missing one.
pub proof fn termination_acceptance(c: LeaseContractView)
    ensures
        c.is_active ==> termination_outcome(Some(c)) == Ok::<LeaseContractView, Seq<char>>(
            LeaseContractView { is_active: false, contract_status: ContractStatus::Terminated, ..c },
        ),
        !c.is_active ==> termination_outcome(Some(c)) == Err::<LeaseContractView, Seq<char>>(
            "Contract is not active"@,
        ),
        termination_outcome(None) == Err::<LeaseContractView, Seq<char>>("Contract not found"@),
{
}

// ---------------------------------------------------------------------------
// Lookup and details
// ---------------------------------------------------------------------------

/// A lookup succeeds exactly when a lease is stored and the caller is its owner
/// or its lessee, and then gives the stored lease; otherwise it is a storage error.
pub proof fn lookup_acceptance(
    contract_id: u64,
    caller: Seq<char>,
    stored: Option<LeaseContractView>,
)
    ensures
        lookup_outcome(contract_id, caller, stored) is Ok <==> (stored matches Some(c) && (
        c.owner_id == caller || c.lessee_id == caller)),
        lookup_outcome(contract_id, caller, stored) matches Ok(c) ==> stored == Some(c),
        lookup_outcome(contract_id, caller, stored) matches Err(e) ==> e is SystemError,
{
}

/// The details of a lease are given exactly to its owner or lessee while it is
/// active. They hold the lease itself, and its days remaining, payment
/// standing (with the lease's own grace period) and next due date at that time.
pub proof fn details_content(
    contract_id: u64,
    caller: Seq<char>,
    c: LeaseContractView,
    now: u64,
)
    ensures
        details_outcome(contract_id, caller, Some(c), now) is Ok <==> ((c.owner_id == caller
            || c.lessee_id == caller) && c.is_active),
        (c.owner_id == caller || c.lessee_id == caller) && !c.is_active ==> (details_outcome(
            contract_id,
            caller,
            Some(c),
            now,
        ) matches Err(e) && e is InvalidState),
        details_outcome(contract_id, caller, Some(c), now) matches Ok(d) ==> {
            &&& d.contract == c
            &&& d.days_remaining == days_remaining_at(c.lease_end, now)
            &&& d.payment_status == payment_status_at(
                c.last_payment_date,
                c.grace_period_days,
                now,
            )
            &&& d.next_payment_date == as_date(next_payment_due(c))
        },
{
}

/// In the details, a lease whose last payment is more than thirty days but at
/// most thirty plus its grace days old is in its grace period, with the days
/// of grace left; it is current within thirty days.
pub proof fn details_respect_grace_period(
    contract_id: u64,
    caller: Seq<char>,
    c: LeaseContractView,
    now: u64,
    last: u64,
)
    requires
        c.last_payment_date == Some(last),
        last <= now,
        details_computable(c, now),
    ensures
        ({
            let days = (now - last) / (NANOS_PER_DAY as int);
            details_outcome(contract_id, caller, Some(c), now) matches Ok(d) ==> {
                &&& days <= 30 ==> d.payment_status == PaymentStatus::Current
                &&& 30 < days <= 30 + c.grace_period_days ==> d.payment_status
                    == PaymentStatus::GracePeriod((30 + c.grace_period_days - days) as u64)
            }
        }),
{
    payment_standing_classification(last, c.grace_period_days, now);
}

// ---------------------------------------------------------------------------
// Schedule
// ---------------------------------------------------------------------------

/// How the standing of a lease follows from the whole days since its last
/// payment: current up to thirty days, then in its grace period (with the
/// grace days left), then late (with the days past due) up to sixty days,
/// then in default. A lease never paid is current.
pub proof fn payment_standing_classification(last: u64, grace: u64, now: u64)
    requires
        last <= now,
    ensures
        payment_status_at(None, grace, now) == PaymentStatus::Current,
        ({
            let days = (now - last) / (NANOS_PER_DAY as int);
            let s = payment_status_at(Some(last), grace, now);
            &&& days <= 30 ==> s == PaymentStatus::Current
            &&& 30 < days <= 30 + grace ==> s == PaymentStatus::GracePeriod(
                (30 + grace - days) as u64,
            )
            &&& 30 + grace < days <= 60 ==> s == PaymentStatus::Late((days - 30) as u64)
            &&& days > 30 + grace && days > 60 ==> s == PaymentStatus::Defaulted
        }),
{
}

/// The days remaining are the whole days between now and the end of the lease,
/// none once it has ended; the next payment falls due thirty days (in
/// nanoseconds) after the last payment, or after the start when none was made,
/// and never on a completed or inactive lease.
pub proof fn schedule_figures(c: LeaseContractView, now: u64)
    ensures
        now >= c.lease_end ==> days_remaining_at(c.lease_end, now) == 0,
        now < c.lease_end ==> days_remaining_at(c.lease_end, now) == (c.lease_end - now) / (
        86_400_000_000_000int),
        (c.is_completed || !c.is_active) ==> next_payment_due(c) is None,
        (!c.is_completed && c.is_active) ==> next_payment_due(c) == Some(
            match c.last_payment_date {
                Some(l) => l + 2_592_000_000_000_000int,
                None => c.lease_start + 2_592_000_000_000_000int,
            },
        ),
{
}

// ---------------------------------------------------------------------------
// Opening a lease
// ---------------------------------------------------------------------------

/// The rules on a new lease, in order: it names an asset, a lessee that is not
/// blank, a positive duration and a start time.
pub proof fn lease_payload_rules(p: CreateLeaseContractPayload)
    ensures
        p.item_id == 0 ==> lease_payload_error(p) == Some("Asset ID must be greater than 0."@),
        p.item_id != 0 && (forall|i: int|
            0 <= i < p.lessee_id@.len() ==> is_white_space_char(#[trigger] p.lessee_id@[i]))
            ==> lease_payload_error(p) == Some("Lessee ID cannot be empty."@),
        lease_payload_error(p) is None <==> {
            &&& p.item_id != 0
            &&& exists|i: int|
                0 <= i < p.lessee_id@.len() && !is_white_space_char(#[trigger] p.lessee_id@[i])
            &&& p.lease_duration != 0
            &&& p.lease_start_time != 0
        },
        (p.item_id != 0 && (exists|i: int|
            0 <= i < p.lessee_id@.len() && !is_white_space_char(#[trigger] p.lessee_id@[i]))
            && p.lease_duration == 0) ==> lease_payload_error(p) == Some(
            "Lease duration must be greater than 0."@,
        ),
        (p.item_id != 0 && (exists|i: int|
            0 <= i < p.lessee_id@.len() && !is_white_space_char(#[trigger] p.lessee_id@[i]))
            && p.lease_duration != 0 && p.lease_start_time == 0) ==> lease_payload_error(p) == Some(
            "Lease start time must be provided."@,
        ),
{
}

/// A valid lease payload opens, under the given id and for the given owner, an
/// active lease with the payload's asset, lessee, terms, instalments, grace
/// period and discount, from its start time to start plus duration, with
/// nothing paid and nothing recorded. An invalid payload opens nothing.
pub proof fn opened_lease_content(
    p: CreateLeaseContractPayload,
    contract_id: u64,
    owner: Seq<char>,
)
    requires
        p.lease_start_time + p.lease_duration <= u64::MAX,
    ensures
        open_outcome(p, contract_id, owner) is Ok <==> lease_payload_error(p) is None,
        open_outcome(p, contract_id, owner) matches Ok(l) ==> {
            &&& l.contract_id == contract_id
            &&& l.item_id == p.item_id
            &&& l.owner_id == owner
            &&& l.lessee_id == p.lessee_id@
            &&& l.lease_terms == p.lease_terms@
            &&& l.total_payments == p.total_payments
            &&& l.monthly_payment == p.monthly_payment
            &&& l.grace_period_days == p.grace_period_days
            &&& l.early_payoff_discount == p.early_payoff_discount
            &&& l.lease_start == p.lease_start_time
            &&& l.lease_end == p.lease_start_time + p.lease_duration
            &&& l.completed_payments == 0
            &&& l.payment_history.len() == 0
            &&& l.maintenance_records.len() == 0
            &&& l.last_payment_date is None
            &&& l.is_active && !l.is_completed
            &&& l.contract_status == ContractStatus::Active
        },
{
}

// ---------------------------------------------------------------------------
// Assets
// ---------------------------------------------------------------------------

/// The rules on a new asset: its description is not blank, then its value is positive.
pub proof fn asset_payload_rules(p: AssetPayload)
    ensures
        (forall|i: int|
            0 <= i < p.description@.len() ==> is_white_space_char(#[trigger] p.description@[i]))
            ==> asset_payload_error(p) == Some("Description cannot be empty."@),
        ((exists|i: int|
            0 <= i < p.description@.len() && !is_white_space_char(#[trigger] p.description@[i]))
            && p.value == 0) ==> asset_payload_error(p) == Some(
            "Value must be greater than 0."@,
        ),
        asset_payload_error(p) is None <==> (exists|i: int|
            0 <= i < p.description@.len() && !is_white_space_char(#[trigger] p.description@[i]))
            && p.value != 0,
{
}

/// A valid asset payload registers, under the given id and for the given
/// owner, an asset that keeps everything the payload describes (description,
/// value, condition, type, metadata and warranty), is not leased and has no
/// maintenance yet. An invalid payload registers nothing.
pub proof fn registered_asset_content(p: AssetPayload, item_id: u64, owner: Seq<char>)
    ensures
        registration_outcome(p, item_id, owner) is Ok <==> asset_payload_error(p) is None,
        registration_outcome(p, item_id, owner) matches Ok(a) ==> {
            &&& a.item_id == item_id
            &&& a.owner_id == owner
            &&& a.description == p.description@
            &&& a.value == p.value
            &&& a.asset_condition == p.asset_condition
            &&& a.asset_type == p.asset_type
            &&& a.metadata == p.metadata@
            &&& match p.warranty_info {
                Some(w) => a.warranty_info == Some(w@),
                None => a.warranty_info is None,
            }
            &&& !a.is_leased
            &&& a.maintenance_history.len() == 0
        },
{
}

/// Looking up an asset gives the stored asset, and fails only when none is stored.
pub proof fn asset_lookup_content(item_id: u64, stored: Option<AssetNFTView>)
    ensures
        stored matches Some(a) ==> asset_lookup_outcome(item_id, stored) == Ok::<
            AssetNFTView,
            Seq<char>,
        >(a),
        stored is None ==> asset_lookup_outcome(item_id, stored) is Err,
{
}

/// Logging maintenance on a stored asset always succeeds: the new record
/// carries the request's asset id, description and cost, the service date and
/// the performer, and the next record id; it is appended to the asset's
/// history and nothing else of the asset changes. With no asset it fails.
pub proof fn maintenance_content(
    a: AssetNFTView,
    p: AddMaintenanceRecordPayload,
    service_date: u64,
    performed_by: Seq<char>,
)
    requires
        a.maintenance_history.len() <= u64::MAX,
    ensures
        maintenance_outcome(None, p, service_date, performed_by) == Err::<
            (AssetNFTView, MaintenanceRecordView),
            Seq<char>,
        >("Asset not found"@),
        maintenance_outcome(Some(a), p, service_date, performed_by) is Ok,
        maintenance_outcome(Some(a), p, service_date, performed_by) matches Ok((after, record))
            ==> {
            &&& record.cost == p.cost
            &&& record.description == p.description@
            &&& record.item_id == p.item_id
            &&& record.service_date == service_date
            &&& record.performed_by == performed_by
            &&& record.record_id == a.maintenance_history.len()
            &&& after.maintenance_history == a.maintenance_history.push(record)
            &&& after == (AssetNFTView { maintenance_history: after.maintenance_history, ..a })
        },
{
}

} // verus!
