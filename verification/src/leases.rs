//! Lease contracts: opening, looking up, paying and terminating.
//!
//! Each operation takes the contract as it is stored (or `None` when the store
//! holds none under the requested id), the request, and the caller's identity
//! or the current time, and returns what the store is to hold afterwards.
use vstd::prelude::*;
use crate::schedule::{
    NANOS_PER_DAY, PAYMENT_DUE_DAYS, PAYMENT_INTERVAL_NANOS, as_date, calculate_days_remaining, calculate_next_payment_date, check_payment_status,
    days_remaining_at, next_payment_computable, next_payment_due, payment_status_at,
    payment_status_computable,
};
use crate::text::{decimal_string, decimal_text, join};
use crate::types::{
    ContractError, ContractErrorView, ContractStatus, CreateLeaseContractPayload, LeaseContract,
    LeaseContractDetails, LeaseContractDetailsView, LeaseContractView, MakePaymentPayload,
    PaymentRecord, PaymentRecordView, PaymentType, outcome_view, payment_views, query_view,
    view_opt,
};
use crate::validation::{lease_payload_error, validate_lease_payload};

verus! {

// ---------------------------------------------------------------------------
// Opening a lease
// ---------------------------------------------------------------------------

/// The lease that a valid payload opens under `contract_id` for `owner`.
pub open spec fn opened_lease(
    p: CreateLeaseContractPayload,
    contract_id: u64,
    owner: Seq<char>,
) -> LeaseContractView {
    LeaseContractView {
        contract_id,
        item_id: p.item_id,
        owner_id: owner,
        lessee_id: p.lessee_id@,
        lease_terms: p.lease_terms@,
        total_payments: p.total_payments,
        completed_payments: 0,
        monthly_payment: p.monthly_payment,
        lease_start: p.lease_start_time,
        lease_end: (p.lease_start_time + p.lease_duration) as u64,
        is_active: true,
        is_completed: false,
        payment_history: Seq::empty(),
        last_payment_date: None,
        grace_period_days: p.grace_period_days,
        early_payoff_discount: p.early_payoff_discount,
        maintenance_records: Seq::empty(),
        contract_status: ContractStatus::Active,
    }
}

/// What opening a lease gives: the first broken rule, or the new lease.
pub open spec fn open_outcome(
    p: CreateLeaseContractPayload,
    contract_id: u64,
    owner: Seq<char>,
) -> Result<LeaseContractView, Seq<char>> {
    match lease_payload_error(p) {
        Some(m) => Err(m),
        None => Ok(opened_lease(p, contract_id, owner)),
    }
}

/// Opens a lease under `contract_id`, owned by `owner_id`, once the payload is
/// valid. The lease ends `lease_duration` after its start.
pub fn create_lease_contract(
    payload: CreateLeaseContractPayload,
    contract_id: u64,
    owner_id: String,
) -> (r: Result<LeaseContract, String>)
    requires
        lease_payload_error(payload) is None ==> payload.lease_start_time + payload.lease_duration
            <= u64::MAX,
    ensures
        outcome_view(r) == open_outcome(payload, contract_id, owner_id@),
{
    match validate_lease_payload(&payload) {
        Err(e) => Err(e),
        Ok(()) => {
            let lease_end_time = payload.lease_start_time + payload.lease_duration;
            let lease = LeaseContract {
                contract_id,
                item_id: payload.item_id,
                owner_id,
                lessee_id: payload.lessee_id,
                lease_terms: payload.lease_terms,
                total_payments: payload.total_payments,
                completed_payments: 0,
                monthly_payment: payload.monthly_payment,
                lease_start: payload.lease_start_time,
                lease_end: lease_end_time,
                is_active: true,
                is_completed: false,
                payment_history: Vec::new(),
                last_payment_date: None,
                grace_period_days: payload.grace_period_days,
                early_payoff_discount: payload.early_payoff_discount,
                maintenance_records: Vec::new(),
                contract_status: ContractStatus::Active,
            };
            proof {
                assert(lease@.payment_history =~= Seq::<PaymentRecordView>::empty());
                assert(lease@.maintenance_records =~= opened_lease(
                    payload,
                    contract_id,
                    lease.owner_id@,
                ).maintenance_records);
            }
            Ok(lease)
        },
    }
}

// ---------------------------------------------------------------------------
// Errors and access
// ---------------------------------------------------------------------------

/// How an error reads, as its `Display` would write it.
pub open spec fn error_text(e: ContractErrorView) -> Seq<char> {
    match e {
        ContractErrorView::NotFound(m) => "Contract not found: "@ + m,
        ContractErrorView::AccessDenied(m) => "Access denied: "@ + m,
        ContractErrorView::InvalidState(m) => "Invalid state: "@ + m,
        ContractErrorView::SystemError(m) => "System error: "@ + m,
    }
}

impl ContractError {
    /// The text of the error: its kind, a colon, and its message.
    pub fn message(&self) -> (s: String)
        ensures
            s@ == error_text(self@),
    {
        match self {
            ContractError::NotFound(m) => join("Contract not found: ", m.as_str()),
            ContractError::AccessDenied(m) => join("Access denied: ", m.as_str()),
            ContractError::InvalidState(m) => join("Invalid state: ", m.as_str()),
            ContractError::SystemError(m) => join("System error: ", m.as_str()),
        }
    }
}

/// Whether `caller` may read lease `c`: it owns it or leases it.
pub open spec fn may_access(c: LeaseContractView, caller: Seq<char>) -> bool {
    c.owner_id == caller || c.lessee_id == caller
}

/// What a lookup of lease `contract_id` by `caller` gives. Every failure is
/// reported as a storage failure that wraps the underlying error's text.
pub open spec fn lookup_outcome(
    contract_id: u64,
    caller: Seq<char>,
    stored: Option<LeaseContractView>,
) -> Result<LeaseContractView, ContractErrorView> {
    match stored {
        None => Err(
            ContractErrorView::SystemError(
                "Failed to access contract storage: "@ + error_text(
                    ContractErrorView::NotFound(
                        "Contract with ID "@ + decimal_text(contract_id as nat) + " does not exist"@,
                    ),
                ),
            ),
        ),
        Some(c) => if may_access(c, caller) {
            Ok(c)
        } else {
            Err(
                ContractErrorView::SystemError(
                    "Failed to access contract storage: "@ + error_text(
                        ContractErrorView::AccessDenied(
                            "Caller "@ + caller + " is neither owner nor lessee of contract "@
                                + decimal_text(contract_id as nat),
                        ),
                    ),
                ),
            )
        },
    }
}

/// Looks up lease `contract_id` for `caller`, who must own or lease it.
pub fn get_lease_contract(
    contract_id: u64,
    caller: &String,
    stored: Option<LeaseContract>,
) -> (r: Result<LeaseContract, ContractError>)
    ensures
        query_view(r) == lookup_outcome(contract_id, caller@, view_opt(stored)),
{
    let looked_up = match stored {
        Some(contract) => {
            if contract.owner_id == *caller || contract.lessee_id == *caller {
                Ok(contract)
            } else {
                let mut m = String::from_str("Caller ");
                m.append(caller.as_str());
                m.append(" is neither owner nor lessee of contract ");
                m.append(decimal_string(contract_id).as_str());
                Err(ContractError::AccessDenied(m))
            }
        },
        None => {
            let mut m = String::from_str("Contract with ID ");
            m.append(decimal_string(contract_id).as_str());
            m.append(" does not exist");
            Err(ContractError::NotFound(m))
        },
    };
    match looked_up {
        Ok(contract) => Ok(contract),
        Err(e) => {
            let text = e.message();
            Err(
                ContractError::SystemError(
                    join("Failed to access contract storage: ", text.as_str()),
                ),
            )
        },
    }
}

// ---------------------------------------------------------------------------
// Details
// ---------------------------------------------------------------------------

/// How a status reads, as its `Debug` would write it.
pub open spec fn status_name(s: ContractStatus) -> Seq<char> {
    match s {
        ContractStatus::Active => "Active"@,
        ContractStatus::Completed => "Completed"@,
        ContractStatus::Defaulted => "Defaulted"@,
        ContractStatus::Terminated => "Terminated"@,
        ContractStatus::PendingApproval => "PendingApproval"@,
    }
}

fn status_text(s: ContractStatus) -> (t: &'static str)
    ensures
        t@ == status_name(s),
{
    match s {
        ContractStatus::Active => "Active",
        ContractStatus::Completed => "Completed",
        ContractStatus::Defaulted => "Defaulted",
        ContractStatus::Terminated => "Terminated",
        ContractStatus::PendingApproval => "PendingApproval",
    }
}

/// The figures of an active lease at time `now`.
pub open spec fn details_at(c: LeaseContractView, now: u64) -> LeaseContractDetailsView {
    LeaseContractDetailsView {
        contract: c,
        days_remaining: days_remaining_at(c.lease_end, now) as u64,
        payment_status: payment_status_at(c.last_payment_date, c.grace_period_days, now),
        next_payment_date: as_date(next_payment_due(c)),
    }
}

/// What a request for the details of lease `contract_id` gives at time `now`.
pub open spec fn details_outcome(
    contract_id: u64,
    caller: Seq<char>,
    stored: Option<LeaseContractView>,
    now: u64,
) -> Result<LeaseContractDetailsView, ContractErrorView> {
    match lookup_outcome(contract_id, caller, stored) {
        Err(e) => Err(e),
        Ok(c) => if !c.is_active {
            Err(
                ContractErrorView::InvalidState(
                    "Contract "@ + decimal_text(contract_id as nat)
                        + " is no longer active. Status: "@ + status_name(c.contract_status),
                ),
            )
        } else {
            Ok(details_at(c, now))
        },
    }
}

/// The figures of an active lease can be computed at time `now`.
pub open spec fn details_computable(c: LeaseContractView, now: u64) -> bool {
    payment_status_computable(c.last_payment_date, c.grace_period_days, now)
        && next_payment_computable(c)
}

/// Whether the figures of `contract` can be computed at `current_time`.
pub fn details_are_computable(contract: &LeaseContract, current_time: u64) -> (b: bool)
    ensures
        b == details_computable(contract@, current_time),
{
    let standing_ok = match contract.last_payment_date {
        None => true,
        Some(last) => last <= current_time && ((current_time - last) / NANOS_PER_DAY
            <= PAYMENT_DUE_DAYS || contract.grace_period_days <= u64::MAX - PAYMENT_DUE_DAYS),
    };
    let due_ok = if contract.is_completed || !contract.is_active {
        true
    } else {
        match contract.last_payment_date {
            Some(last) => last <= u64::MAX - PAYMENT_INTERVAL_NANOS,
            None => contract.lease_start <= u64::MAX - PAYMENT_INTERVAL_NANOS,
        }
    };
    standing_ok && due_ok
}

/// Whether a request by `caller` for the details of the stored lease at
/// `current_time` can be answered within `u64`, so that
/// `get_lease_contract_details` may be called.
pub fn details_request_is_computable(
    caller: &String,
    stored: &Option<LeaseContract>,
    current_time: u64,
) -> (b: bool)
    ensures
        b == (stored matches Some(c) ==> (may_access(c@, caller@) && c.is_active
            ==> details_computable(c@, current_time))),
{
    match stored {
        None => true,
        Some(c) => {
            let party = c.owner_id == *caller || c.lessee_id == *caller;
            !(party && c.is_active) || details_are_computable(c, current_time)
        },
    }
}

/// The details of lease `contract_id` for `caller` at `current_time`: the lease,
/// its remaining days, its payment standing and its next due date.
pub fn get_lease_contract_details(
    contract_id: u64,
    caller: &String,
    stored: Option<LeaseContract>,
    current_time: u64,
) -> (r: Result<LeaseContractDetails, ContractError>)
    requires
        stored matches Some(c) ==> (may_access(c@, caller@) && c.is_active ==> details_computable(
            c@,
            current_time,
        )),
    ensures
        query_view(r) == details_outcome(contract_id, caller@, view_opt(stored), current_time),
{
    match get_lease_contract(contract_id, caller, stored) {
        Ok(contract) => {
            if !contract.is_active {
                let mut m = String::from_str("Contract ");
                m.append(decimal_string(contract_id).as_str());
                m.append(" is no longer active. Status: ");
                m.append(status_text(contract.contract_status));
                return Err(ContractError::InvalidState(m));
            }
            let days_remaining = calculate_days_remaining(&contract, current_time);
            let payment_status = check_payment_status(&contract, current_time);
            let next_payment_date = calculate_next_payment_date(&contract);
            Ok(LeaseContractDetails { contract, days_remaining, payment_status, next_payment_date })
        },
        Err(e) => Err(e),
    }
}

// ---------------------------------------------------------------------------
// Payments
// ---------------------------------------------------------------------------

/// What is still owed on a lease: the remaining instalments at the monthly rate.
pub open spec fn remaining_balance(l: LeaseContractView) -> int {
    (l.total_payments - l.completed_payments) * l.monthly_payment
}

/// What paying a lease off early costs: the remaining balance less the
/// discount, a percentage of it rounded down.
pub open spec fn early_payoff_amount(l: LeaseContractView) -> int {
    match l.early_payoff_discount {
        Some(d) => remaining_balance(l) - (remaining_balance(l) * d) / 100,
        None => remaining_balance(l),
    }
}

/// Why a payment is refused for its amount, if it is.
pub open spec fn payment_shortfall(l: LeaseContractView, p: MakePaymentPayload) -> Option<
    Seq<char>,
> {
    match p.payment_type {
        PaymentType::Regular => if p.amount < l.monthly_payment {
            Some("Payment amount is less than required"@)
        } else {
            None
        },
        PaymentType::EarlyPayoff => if p.amount < early_payoff_amount(l) {
            Some("Early payoff requires "@ + decimal_text(early_payoff_amount(l) as nat))
        } else {
            None
        },
        _ => None,
    }
}

/// The lease after payment `p` at time `now` is recorded: the payment joins the
/// history under the next id, it counts as one more instalment, and the lease
/// completes when it pays the lease off or reaches the total.
pub open spec fn record_payment(
    l: LeaseContractView,
    p: MakePaymentPayload,
    now: u64,
) -> LeaseContractView {
    let record = PaymentRecordView {
        payment_id: l.payment_history.len() as u64,
        contract_id: p.contract_id,
        lessee_id: l.lessee_id,
        amount: p.amount,
        payment_date: now,
        payment_type: p.payment_type,
        transaction_hash: p.transaction_hash@,
    };
    let completed = (l.completed_payments + 1) as u64;
    let done = p.payment_type == PaymentType::EarlyPayoff || completed >= l.total_payments;
    LeaseContractView {
        payment_history: l.payment_history.push(record),
        last_payment_date: Some(now),
        completed_payments: completed,
        is_completed: if done {
            true
        } else {
            l.is_completed
        },
        is_active: if done {
            false
        } else {
            l.is_active
        },
        contract_status: if done {
            ContractStatus::Completed
        } else {
            l.contract_status
        },
        ..l
    }
}

/// What payment `p` at time `now` gives on the stored lease.
pub open spec fn payment_outcome(
    stored: Option<LeaseContractView>,
    p: MakePaymentPayload,
    now: u64,
) -> Result<LeaseContractView, Seq<char>> {
    match stored {
        None => Err("Lease contract not found"@),
        Some(l) => if l.is_completed {
            Err("Lease is already completed"@)
        } else {
            match payment_shortfall(l, p) {
                Some(m) => Err(m),
                None => Ok(record_payment(l, p, now)),
            }
        },
    }
}

/// The arithmetic of payment `p` on lease `l` stays within `u64`: the early
/// payoff amount is computed only on leases not yet paid beyond their total,
/// and an accepted payment can be counted.
pub open spec fn payment_computable(l: LeaseContractView, p: MakePaymentPayload) -> bool {
    !l.is_completed ==> {
        &&& p.payment_type == PaymentType::EarlyPayoff ==> {
            &&& l.completed_payments <= l.total_payments
            &&& remaining_balance(l) <= u64::MAX
            &&& l.early_payoff_discount matches Some(d) ==> {
                &&& remaining_balance(l) * d <= u64::MAX
                &&& (remaining_balance(l) * d) / 100 <= remaining_balance(l)
            }
        }
        &&& (payment_shortfall(l, p) is None ==> l.completed_payments < u64::MAX)
    }
}

/// Whether the arithmetic of payment `payload` on `lease` stays within `u64`.
pub fn payment_is_computable(lease: &LeaseContract, payload: &MakePaymentPayload) -> (b: bool)
    ensures
        b == payment_computable(lease@, *payload),
{
    if lease.is_completed {
        return true;
    }
    let required_amount: u64;
    match payload.payment_type {
        PaymentType::EarlyPayoff => {
            if lease.completed_payments > lease.total_payments {
                return false;
            }
            let remaining_balance = match (lease.total_payments
                - lease.completed_payments).checked_mul(lease.monthly_payment) {
                Some(v) => v,
                None => return false,
            };
            required_amount = match lease.early_payoff_discount {
                Some(discount) => {
                    let discounted = match remaining_balance.checked_mul(discount) {
                        Some(v) => v,
                        None => return false,
                    };
                    if discounted / 100 > remaining_balance {
                        return false;
                    }
                    remaining_balance - discounted / 100
                },
                None => remaining_balance,
            };
            assert(required_amount == early_payoff_amount(lease@));
        },
        PaymentType::Regular => {
            required_amount = lease.monthly_payment;
        },
        _ => {
            required_amount = 0;
        },
    }
    payload.amount < required_amount || lease.completed_payments < u64::MAX
}

/// Whether payment `payload` on the stored lease can be computed within `u64`,
/// so that `make_payment` may be called.
pub fn payment_request_is_computable(
    stored: &Option<LeaseContract>,
    payload: &MakePaymentPayload,
) -> (b: bool)
    ensures
        b == (stored matches Some(l) ==> payment_computable(l@, *payload)),
{
    match stored {
        None => true,
        Some(l) => payment_is_computable(l, payload),
    }
}

/// Records payment `payload` at `current_time` on the stored lease.
pub fn make_payment(
    stored: Option<LeaseContract>,
    payload: MakePaymentPayload,
    current_time: u64,
) -> (r: Result<LeaseContract, String>)
    requires
        stored matches Some(l) ==> payment_computable(l@, payload),
    ensures
        outcome_view(r) == payment_outcome(view_opt(stored), payload, current_time),
{
    match stored {
        None => Err(String::from_str("Lease contract not found")),
        Some(mut lease) => {
            let ghost before = lease@;
            if lease.is_completed {
                return Err(String::from_str("Lease is already completed"));
            }
            match payload.payment_type {
                PaymentType::Regular => {
                    if payload.amount < lease.monthly_payment {
                        return Err(String::from_str("Payment amount is less than required"));
                    }
                },
                PaymentType::EarlyPayoff => {
                    let remaining_balance = (lease.total_payments - lease.completed_payments)
                        * lease.monthly_payment;
                    let required_amount = match lease.early_payoff_discount {
                        Some(discount) => remaining_balance - (remaining_balance * discount / 100),
                        None => remaining_balance,
                    };
                    assert(required_amount == early_payoff_amount(before));
                    if payload.amount < required_amount {
                        let amount_text = decimal_string(required_amount);
                        return Err(join("Early payoff requires ", amount_text.as_str()));
                    }
                    lease.is_completed = true;
                    lease.is_active = false;
                    lease.contract_status = ContractStatus::Completed;
                },
                _ => {},
            }
            let ghost old_history = lease.payment_history@;
            let payment_record = PaymentRecord {
                payment_id: lease.payment_history.len() as u64,
                contract_id: payload.contract_id,
                lessee_id: lease.lessee_id.clone(),
                amount: payload.amount,
                payment_date: current_time,
                payment_type: payload.payment_type,
                transaction_hash: payload.transaction_hash,
            };
            lease.payment_history.push(payment_record);
            lease.last_payment_date = Some(current_time);
            lease.completed_payments = lease.completed_payments + 1;
            if lease.completed_payments >= lease.total_payments {
                lease.is_completed = true;
                lease.is_active = false;
                lease.contract_status = ContractStatus::Completed;
            }
            proof {
                assert(payment_views(lease.payment_history@) =~= payment_views(old_history).push(
                    payment_record@,
                ));
                assert(lease@ == record_payment(before, payload, current_time));
            }
            Ok(lease)
        },
    }
}

/// The payments recorded on the stored lease, oldest first.
pub fn get_payment_history(stored: Option<LeaseContract>) -> (r: Result<Vec<PaymentRecord>, String>)
    ensures
        match (r, stored) {
            (Ok(h), Some(c)) => payment_views(h@) == c@.payment_history,
            (Err(e), None) => e@ == "Contract not found"@,
            _ => false,
        },
{
    match stored {
        Some(contract) => Ok(contract.payment_history),
        None => Err(String::from_str("Contract not found")),
    }
}

// ---------------------------------------------------------------------------
// Termination
// ---------------------------------------------------------------------------

/// What terminating the stored lease gives: an active lease becomes inactive
/// and terminated, with nothing else changed.
pub open spec fn termination_outcome(stored: Option<LeaseContractView>) -> Result<
    LeaseContractView,
    Seq<char>,
> {
    match stored {
        None => Err("Contract not found"@),
        Some(c) => if !c.is_active {
            Err("Contract is not active"@)
        } else {
            Ok(LeaseContractView { is_active: false, contract_status: ContractStatus::Terminated, ..c })
        },
    }
}

/// Terminates the stored lease, which must be active.
pub fn terminate_contract(stored: Option<LeaseContract>) -> (r: Result<LeaseContract, String>)
    ensures
        outcome_view(r) == termination_outcome(view_opt(stored)),
{
    match stored {
        Some(mut contract) => {
            if !contract.is_active {
                return Err(String::from_str("Contract is not active"));
            }
            contract.is_active = false;
            contract.contract_status = ContractStatus::Terminated;
            Ok(contract)
        },
        None => Err(String::from_str("Contract not found")),
    }
}

} // verus!
