//! Properties of the platform that span operations: what every operation keeps
//! of a lease or an asset, and how payments, termination and time interact.
use vstd::prelude::*;
use crate::assets::{maintenance_outcome, registration_outcome};
use crate::leases::{
    early_payoff_amount, lookup_outcome, may_access, open_outcome, payment_computable,
    payment_outcome, remaining_balance, termination_outcome,
};
use crate::text::decimal_text;
use crate::schedule::{
    PAYMENT_INTERVAL_NANOS, next_payment_due, payment_status_at, paid_lease_is_current,
};
use crate::types::{
    AddMaintenanceRecordPayload, AssetNFTView, AssetPayload, ContractStatus,
    CreateLeaseContractPayload, LeaseContractView, MakePaymentPayload, PaymentStatus,
    PaymentType,
};

verus! {

/// The bookkeeping of a lease is consistent: one history record per counted
/// instalment, numbered from zero; the active and completed flags agree with
/// the status; and an open lease has not counted more instalments than its total.
pub open spec fn lease_well_formed(l: LeaseContractView) -> bool {
    &&& l.payment_history.len() == l.completed_payments
    &&& forall|i: int|
        0 <= i < l.payment_history.len() ==> (#[trigger] l.payment_history[i]).payment_id == i
    &&& l.is_active <==> l.contract_status == ContractStatus::Active
    &&& l.is_completed <==> l.contract_status == ContractStatus::Completed
    &&& !l.is_completed ==> l.completed_payments <= l.total_payments
}

/// The maintenance records of an asset are numbered from zero in the order logged.
pub open spec fn asset_well_formed(a: AssetNFTView) -> bool {
    forall|i: int|
        0 <= i < a.maintenance_history.len() ==> (#[trigger] a.maintenance_history[i]).record_id
            == i
}

/// A newly opened lease is well formed, active, has nothing paid, is current,
/// and its first payment falls due thirty days after its start.
pub proof fn opened_lease_is_well_formed(
    p: CreateLeaseContractPayload,
    contract_id: u64,
    owner: Seq<char>,
)
    ensures
        open_outcome(p, contract_id, owner) matches Ok(l) ==> {
            &&& lease_well_formed(l)
            &&& l.is_active
            &&& l.contract_status == ContractStatus::Active
            &&& l.completed_payments == 0
            &&& l.last_payment_date is None
            &&& l.lease_end == p.lease_start_time + p.lease_duration || p.lease_start_time
                + p.lease_duration > u64::MAX
            &&& payment_status_at(l.last_payment_date, l.grace_period_days, p.lease_start_time)
                == PaymentStatus::Current
            &&& next_payment_due(l) == Some(p.lease_start_time + PAYMENT_INTERVAL_NANOS)
        },
{
}

/// Every accepted payment keeps a lease well formed.
pub proof fn payment_keeps_lease_well_formed(l: LeaseContractView, p: MakePaymentPayload, now: u64)
    requires
        lease_well_formed(l),
        payment_computable(l, p),
    ensures
        payment_outcome(Some(l), p, now) matches Ok(after) ==> lease_well_formed(after),
{
    if let Ok(after) = payment_outcome(Some(l), p, now) {
        assert forall|i: int| 0 <= i < after.payment_history.len() implies (
        #[trigger] after.payment_history[i]).payment_id == i by {
            if i < l.payment_history.len() {
                assert(after.payment_history[i] == l.payment_history[i]);
            }
        }
    }
}

/// Terminating a lease keeps it well formed.
pub proof fn termination_keeps_lease_well_formed(l: LeaseContractView)
    requires
        lease_well_formed(l),
    ensures
        termination_outcome(Some(l)) matches Ok(after) ==> lease_well_formed(after),
{
}

/// An accepted payment adds exactly one record to the history, numbered after
/// the earlier ones and dated now; it counts one more instalment and becomes
/// the last payment. Everything that identifies the lease stays as it was.
/// (A history held in memory has at most `u64::MAX` records.)
pub proof fn payment_adds_one_record(l: LeaseContractView, p: MakePaymentPayload, now: u64)
    requires
        payment_computable(l, p),
        l.payment_history.len() <= u64::MAX,
    ensures
        payment_outcome(Some(l), p, now) matches Ok(after) ==> {
            &&& after.payment_history.len() == l.payment_history.len() + 1
            &&& after.payment_history.take(l.payment_history.len() as int) == l.payment_history
            &&& after.payment_history.last().payment_id == l.payment_history.len()
            &&& after.payment_history.last().amount == p.amount
            &&& after.payment_history.last().payment_date == now
            &&& after.payment_history.last().payment_type == p.payment_type
            &&& after.payment_history.last().lessee_id == l.lessee_id
            &&& after.completed_payments == l.completed_payments + 1
            &&& after.last_payment_date == Some(now)
            &&& after.contract_id == l.contract_id
            &&& after.owner_id == l.owner_id
            &&& after.lessee_id == l.lessee_id
            &&& after.total_payments == l.total_payments
            &&& after.monthly_payment == l.monthly_payment
            &&& after.lease_end == l.lease_end
        },
{
    if let Ok(after) = payment_outcome(Some(l), p, now) {
        assert(after.payment_history.take(l.payment_history.len() as int) =~= l.payment_history);
    }
}

/// Paying off early never costs more than the remaining balance.
pub proof fn early_payoff_never_exceeds_balance(l: LeaseContractView, p: MakePaymentPayload)
    requires
        p.payment_type == PaymentType::EarlyPayoff,
        !l.is_completed,
        payment_computable(l, p),
    ensures
        0 <= early_payoff_amount(l) <= remaining_balance(l),
        l.early_payoff_discount is None ==> early_payoff_amount(l) == remaining_balance(l),
{
    if let Some(d) = l.early_payoff_discount {
        assert(remaining_balance(l) >= 0) by (nonlinear_arith)
            requires
                l.completed_payments <= l.total_payments,
                remaining_balance(l) == (l.total_payments - l.completed_payments)
                    * l.monthly_payment,
        ;
        assert((remaining_balance(l) * d) / 100 >= 0) by (nonlinear_arith)
            requires
                remaining_balance(l) >= 0,
                d >= 0,
        ;
    }
}

/// A completed lease refuses every further payment.
pub proof fn completed_lease_refuses_payments(
    l: LeaseContractView,
    p: MakePaymentPayload,
    now: u64,
)
    requires
        l.is_completed,
    ensures
        payment_outcome(Some(l), p, now) == Err::<LeaseContractView, Seq<char>>(
            "Lease is already completed"@,
        ),
{
}

/// An accepted early payoff completes the lease: it is no longer active and
/// every later payment is refused.
pub proof fn early_payoff_completes_lease(
    l: LeaseContractView,
    p: MakePaymentPayload,
    now: u64,
    later: MakePaymentPayload,
    later_time: u64,
)
    requires
        p.payment_type == PaymentType::EarlyPayoff,
    ensures
        payment_outcome(Some(l), p, now) matches Ok(after) ==> {
            &&& after.is_completed
            &&& !after.is_active
            &&& after.contract_status == ContractStatus::Completed
            &&& payment_outcome(Some(after), later, later_time) is Err
        },
{
}

/// The payment that brings the count of instalments to the total completes the lease.
pub proof fn final_instalment_completes_lease(l: LeaseContractView, p: MakePaymentPayload, now: u64)
    requires
        payment_computable(l, p),
        l.completed_payments + 1 >= l.total_payments,
    ensures
        payment_outcome(Some(l), p, now) matches Ok(after) ==> {
            &&& after.is_completed
            &&& !after.is_active
            &&& after.contract_status == ContractStatus::Completed
        },
{
}

/// A regular payment below the monthly instalment is refused on an open lease,
/// and an early payoff below the payoff amount is refused with that amount.
pub proof fn short_payment_is_refused(l: LeaseContractView, p: MakePaymentPayload, now: u64)
    requires
        !l.is_completed,
    ensures
        (p.payment_type == PaymentType::Regular && p.amount < l.monthly_payment) ==> payment_outcome(
            Some(l),
            p,
            now,
        ) == Err::<LeaseContractView, Seq<char>>("Payment amount is less than required"@),
        (p.payment_type == PaymentType::EarlyPayoff && p.amount < early_payoff_amount(l))
            ==> payment_outcome(Some(l), p, now) == Err::<LeaseContractView, Seq<char>>(
            "Early payoff requires "@ + decimal_text(early_payoff_amount(l) as nat),
        ),
{
}

/// Right after a payment the lease is current, and while it stays open its
/// next payment falls due thirty days later.
pub proof fn payment_makes_lease_current(l: LeaseContractView, p: MakePaymentPayload, now: u64)
    requires
        payment_computable(l, p),
    ensures
        payment_outcome(Some(l), p, now) matches Ok(after) ==> {
            &&& payment_status_at(after.last_payment_date, after.grace_period_days, now)
                == PaymentStatus::Current
            &&& after.is_active ==> next_payment_due(after) == Some(now + PAYMENT_INTERVAL_NANOS)
        },
{
    paid_lease_is_current(now, l.grace_period_days);
}

/// Terminating changes only the active flag and the status, and a terminated
/// lease cannot be terminated again.
pub proof fn termination_is_final(l: LeaseContractView)
    ensures
        termination_outcome(Some(l)) matches Ok(after) ==> {
            &&& !after.is_active
            &&& after.contract_status == ContractStatus::Terminated
            &&& after == LeaseContractView {
                is_active: false,
                contract_status: ContractStatus::Terminated,
                ..l
            }
            &&& termination_outcome(Some(after)) == Err::<LeaseContractView, Seq<char>>(
                "Contract is not active"@,
            )
        },
{
}

/// A lookup succeeds only for the owner or the lessee, and then gives the
/// stored lease unchanged; anyone else is refused.
pub proof fn lookup_is_restricted_to_parties(
    contract_id: u64,
    caller: Seq<char>,
    stored: Option<LeaseContractView>,
)
    ensures
        lookup_outcome(contract_id, caller, stored) matches Ok(c) ==> stored == Some(c)
            && may_access(c, caller),
        (stored matches Some(c) && !may_access(c, caller)) ==> lookup_outcome(
            contract_id,
            caller,
            stored,
        ) is Err,
        stored is None ==> lookup_outcome(contract_id, caller, stored) is Err,
{
}

/// A newly registered asset is not leased, has no maintenance and is well formed.
pub proof fn registered_asset_is_fresh(p: AssetPayload, item_id: u64, owner: Seq<char>)
    ensures
        registration_outcome(p, item_id, owner) matches Ok(a) ==> {
            &&& a.item_id == item_id
            &&& !a.is_leased
            &&& a.maintenance_history.len() == 0
            &&& asset_well_formed(a)
        },
{
}

/// Logging maintenance appends one record, numbered after the earlier ones,
/// leaves the rest of the asset as it was, and keeps the asset well formed.
/// (A history held in memory has at most `u64::MAX` records.)
pub proof fn maintenance_appends_one_record(
    a: AssetNFTView,
    p: AddMaintenanceRecordPayload,
    service_date: u64,
    performed_by: Seq<char>,
)
    requires
        asset_well_formed(a),
        a.maintenance_history.len() <= u64::MAX,
    ensures
        maintenance_outcome(Some(a), p, service_date, performed_by) matches Ok((after, record)) ==> {
            &&& after.maintenance_history == a.maintenance_history.push(record)
            &&& record.record_id == a.maintenance_history.len()
            &&& record.service_date == service_date
            &&& record.performed_by == performed_by
            &&& after == AssetNFTView { maintenance_history: after.maintenance_history, ..a }
            &&& asset_well_formed(after)
        },
{
    if let Ok((after, record)) = maintenance_outcome(Some(a), p, service_date, performed_by) {
        assert forall|i: int| 0 <= i < after.maintenance_history.len() implies (
        #[trigger] after.maintenance_history[i]).record_id == i by {
            if i < a.maintenance_history.len() {
                assert(after.maintenance_history[i] == a.maintenance_history[i]);
            }
        }
    }
}

} // verus!
