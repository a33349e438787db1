use rent_to_own::assets::{add_maintenance_record, create_asset_nft, get_asset_details};
use rent_to_own::leases::{
    create_lease_contract, details_are_computable, details_request_is_computable,
    get_lease_contract, get_lease_contract_details, get_payment_history, make_payment,
    payment_is_computable, payment_request_is_computable, terminate_contract,
};
use rent_to_own::schedule::{
    calculate_days_remaining, calculate_next_payment_date, check_payment_status, NANOS_PER_DAY,
    PAYMENT_INTERVAL_NANOS,
};
use rent_to_own::text::{decimal_string, is_blank, is_white_space, join};
use rent_to_own::types::{
    AddMaintenanceRecordPayload, AssetCondition, AssetMetadata, AssetPayload, AssetType,
    ContractError, ContractStatus, CreateLeaseContractPayload, LeaseContract,
    MakePaymentPayload, PaymentStatus, PaymentType,
};
use rent_to_own::validation::{validate_asset_payload, validate_lease_payload};

const DAY: u64 = 86_400_000_000_000;

fn lease_payload() -> CreateLeaseContractPayload {
    CreateLeaseContractPayload {
        item_id: 3,
        lessee_id: "bob".to_string(),
        lease_terms: "12 months".to_string(),
        total_payments: 3,
        monthly_payment: 100,
        lease_duration: 90 * DAY,
        lease_start_time: 10 * DAY,
        grace_period_days: 5,
        early_payoff_discount: Some(10),
    }
}

fn open_lease() -> LeaseContract {
    create_lease_contract(lease_payload(), 7, "alice".to_string()).ok().unwrap()
}

fn payment(payment_type: PaymentType, amount: u64) -> MakePaymentPayload {
    MakePaymentPayload {
        contract_id: 7,
        amount,
        payment_type,
        transaction_hash: "0xabc".to_string(),
    }
}

fn asset_payload() -> AssetPayload {
    AssetPayload {
        description: "Tractor".to_string(),
        value: 5000,
        asset_condition: AssetCondition::Excellent,
        asset_type: AssetType::Vehicle,
        metadata: AssetMetadata {
            manufacturer: "Deere".to_string(),
            model: "X9".to_string(),
            year: 2020,
            serial_number: Some("SN1".to_string()),
            additional_details: vec![("color".to_string(), "green".to_string())],
        },
        warranty_info: None,
    }
}

fn err_text<T>(r: Result<T, String>) -> String {
    match r {
        Ok(_) => panic!("expected an error"),
        Err(e) => e,
    }
}

// ----------------------------------------------------------------------------
// text
// ----------------------------------------------------------------------------

#[test]
fn white_space_agrees_with_std_on_every_char() {
    for n in 0u32..=0x10FFFF {
        if let Some(c) = char::from_u32(n) {
            assert_eq!(is_white_space(c), c.is_whitespace(), "code point {:#x}", n);
        }
    }
}

#[test]
fn blank_agrees_with_trim() {
    for s in ["", " ", "\t\n ", "\u{3000}\u{2003}", " a ", "abc", "\u{200B}", "x\u{85}"] {
        assert_eq!(is_blank(s), s.trim().is_empty(), "{:?}", s);
    }
}

#[test]
fn decimal_string_matches_to_string() {
    for n in [0u64, 7, 10, 42, 999, 1000, 86_400_000_000_000, u64::MAX] {
        assert_eq!(decimal_string(n), n.to_string());
    }
}

#[test]
fn join_concatenates() {
    assert_eq!(join("ab", "cd"), "abcd");
    assert_eq!(join("", ""), "");
}

// ----------------------------------------------------------------------------
// validation
// ----------------------------------------------------------------------------

#[test]
fn asset_payload_rules() {
    assert!(validate_asset_payload(&asset_payload()).is_ok());
    let mut p = asset_payload();
    p.description = "   ".to_string();
    assert_eq!(err_text(validate_asset_payload(&p)), "Description cannot be empty.");
    let mut p = asset_payload();
    p.value = 0;
    assert_eq!(err_text(validate_asset_payload(&p)), "Value must be greater than 0.");
    let mut p = asset_payload();
    p.description = String::new();
    p.value = 0;
    assert_eq!(err_text(validate_asset_payload(&p)), "Description cannot be empty.");
}

#[test]
fn lease_payload_rules() {
    assert!(validate_lease_payload(&lease_payload()).is_ok());
    let mut p = lease_payload();
    p.item_id = 0;
    assert_eq!(err_text(validate_lease_payload(&p)), "Asset ID must be greater than 0.");
    let mut p = lease_payload();
    p.lessee_id = " \t".to_string();
    assert_eq!(err_text(validate_lease_payload(&p)), "Lessee ID cannot be empty.");
    let mut p = lease_payload();
    p.lease_duration = 0;
    assert_eq!(err_text(validate_lease_payload(&p)), "Lease duration must be greater than 0.");
    let mut p = lease_payload();
    p.lease_start_time = 0;
    assert_eq!(err_text(validate_lease_payload(&p)), "Lease start time must be provided.");
}

// ----------------------------------------------------------------------------
// assets
// ----------------------------------------------------------------------------

#[test]
fn registering_an_asset() {
    let a = create_asset_nft(asset_payload(), 4, "alice".to_string()).ok().unwrap();
    assert_eq!(a.item_id, 4);
    assert_eq!(a.owner_id, "alice");
    assert_eq!(a.description, "Tractor");
    assert_eq!(a.value, 5000);
    assert!(!a.is_leased);
    assert_eq!(a.asset_condition, AssetCondition::Excellent);
    assert_eq!(a.asset_type, AssetType::Vehicle);
    assert!(a.maintenance_history.is_empty());
    assert_eq!(a.metadata.serial_number, Some("SN1".to_string()));
    assert_eq!(a.warranty_info, None);
    let mut p = asset_payload();
    p.value = 0;
    assert_eq!(err_text(create_asset_nft(p, 4, "alice".to_string())), "Value must be greater than 0.");
}

#[test]
fn asset_lookup() {
    let a = create_asset_nft(asset_payload(), 4, "alice".to_string()).ok().unwrap();
    let found = get_asset_details(4, Some(a)).ok().unwrap();
    assert_eq!(found.item_id, 4);
    assert_eq!(err_text(get_asset_details(17, None)), "Asset with ID 17 not found");
}

#[test]
fn maintenance_records_are_numbered_in_order() {
    let a = create_asset_nft(asset_payload(), 4, "alice".to_string()).ok().unwrap();
    let req = |d: &str| AddMaintenanceRecordPayload { item_id: 4, description: d.to_string(), cost: 30 };
    let (a, r0) = add_maintenance_record(Some(a), req("oil"), 11, "mech".to_string()).ok().unwrap();
    let (a, r1) = add_maintenance_record(Some(a), req("tyres"), 12, "mech2".to_string()).ok().unwrap();
    assert_eq!((r0.record_id, r1.record_id), (0, 1));
    assert_eq!(r1.service_date, 12);
    assert_eq!(r1.performed_by, "mech2");
    assert_eq!(r1.description, "tyres");
    assert_eq!(a.maintenance_history.len(), 2);
    assert_eq!(a.maintenance_history[0].description, "oil");
    assert_eq!(a.maintenance_history[1].record_id, 1);
    assert_eq!(a.value, 5000);
    assert_eq!(err_text(add_maintenance_record(None, req("x"), 1, "m".to_string())), "Asset not found");
}

// ----------------------------------------------------------------------------
// leases
// ----------------------------------------------------------------------------

#[test]
fn opening_a_lease() {
    let l = open_lease();
    assert_eq!(l.contract_id, 7);
    assert_eq!(l.item_id, 3);
    assert_eq!(l.owner_id, "alice");
    assert_eq!(l.lessee_id, "bob");
    assert_eq!(l.lease_start, 10 * DAY);
    assert_eq!(l.lease_end, 100 * DAY);
    assert!(l.is_active && !l.is_completed);
    assert_eq!(l.completed_payments, 0);
    assert_eq!(l.contract_status, ContractStatus::Active);
    assert!(l.payment_history.is_empty());
    assert_eq!(l.last_payment_date, None);
    let mut p = lease_payload();
    p.lease_duration = 0;
    assert_eq!(
        err_text(create_lease_contract(p, 7, "alice".to_string())),
        "Lease duration must be greater than 0."
    );
}

#[test]
fn lookup_by_parties_only() {
    let alice = "alice".to_string();
    let bob = "bob".to_string();
    let eve = "eve".to_string();
    assert!(get_lease_contract(7, &alice, Some(open_lease())).is_ok());
    assert_eq!(get_lease_contract(7, &bob, Some(open_lease())).ok().unwrap().contract_id, 7);
    match get_lease_contract(7, &eve, Some(open_lease())) {
        Err(ContractError::SystemError(m)) => assert_eq!(
            m,
            "Failed to access contract storage: Access denied: Caller eve is neither owner nor lessee of contract 7"
        ),
        _ => panic!("expected a storage error"),
    }
    match get_lease_contract(9, &alice, None) {
        Err(ContractError::SystemError(m)) => assert_eq!(
            m,
            "Failed to access contract storage: Contract not found: Contract with ID 9 does not exist"
        ),
        _ => panic!("expected a storage error"),
    }
}

#[test]
fn error_messages() {
    assert_eq!(ContractError::NotFound("x".to_string()).message(), "Contract not found: x");
    assert_eq!(ContractError::AccessDenied("y".to_string()).message(), "Access denied: y");
    assert_eq!(ContractError::InvalidState("z".to_string()).message(), "Invalid state: z");
    assert_eq!(ContractError::SystemError("w".to_string()).message(), "System error: w");
}

#[test]
fn details_of_an_active_lease() {
    let alice = "alice".to_string();
    let d = get_lease_contract_details(7, &alice, Some(open_lease()), 20 * DAY + 5).ok().unwrap();
    assert_eq!(d.days_remaining, 79);
    assert_eq!(d.payment_status, PaymentStatus::Current);
    assert_eq!(d.next_payment_date, Some(10 * DAY + PAYMENT_INTERVAL_NANOS));
    assert_eq!(d.contract.contract_id, 7);
}

#[test]
fn details_of_a_closed_lease_are_refused() {
    let alice = "alice".to_string();
    let ended = terminate_contract(Some(open_lease())).ok().unwrap();
    match get_lease_contract_details(7, &alice, Some(ended), 20 * DAY) {
        Err(ContractError::InvalidState(m)) => {
            assert_eq!(m, "Contract 7 is no longer active. Status: Terminated")
        }
        _ => panic!("expected an invalid state"),
    }
    let eve = "eve".to_string();
    assert!(matches!(
        get_lease_contract_details(7, &eve, Some(open_lease()), 20 * DAY),
        Err(ContractError::SystemError(_))
    ));
}

#[test]
fn regular_payments_complete_the_lease() {
    let mut l = open_lease();
    for k in 0..3u64 {
        assert!(payment_is_computable(&l, &payment(PaymentType::Regular, 100)));
        l = make_payment(Some(l), payment(PaymentType::Regular, 100), (11 + k) * DAY).ok().unwrap();
        assert_eq!(l.completed_payments, k + 1);
        assert_eq!(l.payment_history.len() as u64, k + 1);
        assert_eq!(l.payment_history[k as usize].payment_id, k);
        assert_eq!(l.payment_history[k as usize].payment_date, (11 + k) * DAY);
        assert_eq!(l.payment_history[k as usize].lessee_id, "bob");
        assert_eq!(l.payment_history[k as usize].contract_id, 7);
        assert_eq!(l.last_payment_date, Some((11 + k) * DAY));
    }
    assert!(l.is_completed && !l.is_active);
    assert_eq!(l.contract_status, ContractStatus::Completed);
    assert_eq!(
        err_text(make_payment(Some(l), payment(PaymentType::Regular, 100), 20 * DAY)),
        "Lease is already completed"
    );
}

#[test]
fn short_regular_payment_is_refused() {
    assert_eq!(
        err_text(make_payment(Some(open_lease()), payment(PaymentType::Regular, 99), DAY)),
        "Payment amount is less than required"
    );
    assert_eq!(
        err_text(make_payment(None, payment(PaymentType::Regular, 100), DAY)),
        "Lease contract not found"
    );
}

#[test]
fn other_payment_types_are_recorded_without_minimum() {
    let l = make_payment(Some(open_lease()), payment(PaymentType::LatePayment, 1), DAY).ok().unwrap();
    assert_eq!(l.completed_payments, 1);
    assert!(l.is_active);
    assert_eq!(l.payment_history[0].payment_type, PaymentType::LatePayment);
}

#[test]
fn early_payoff_with_discount() {
    // 3 instalments of 100 left, 10% off: 300 - 30 = 270.
    let l = open_lease();
    assert_eq!(
        err_text(make_payment(Some(l), payment(PaymentType::EarlyPayoff, 269), DAY)),
        "Early payoff requires 270"
    );
    let l = make_payment(Some(open_lease()), payment(PaymentType::EarlyPayoff, 270), DAY).ok().unwrap();
    assert!(l.is_completed && !l.is_active);
    assert_eq!(l.contract_status, ContractStatus::Completed);
    assert_eq!(l.completed_payments, 1);
    assert_eq!(calculate_next_payment_date(&l), None);
}

#[test]
fn early_payoff_without_discount() {
    let mut l = open_lease();
    l.early_payoff_discount = None;
    l = make_payment(Some(l), payment(PaymentType::Regular, 100), DAY).ok().unwrap();
    assert_eq!(
        err_text(make_payment(Some(l.clone()), payment(PaymentType::EarlyPayoff, 199), DAY)),
        "Early payoff requires 200"
    );
    assert!(make_payment(Some(l), payment(PaymentType::EarlyPayoff, 200), DAY).is_ok());
}

#[test]
fn payment_history_lookup() {
    let l = make_payment(Some(open_lease()), payment(PaymentType::Regular, 150), DAY).ok().unwrap();
    let h = get_payment_history(Some(l)).ok().unwrap();
    assert_eq!(h.len(), 1);
    assert_eq!(h[0].amount, 150);
    assert_eq!(h[0].transaction_hash, "0xabc");
    assert_eq!(err_text(get_payment_history(None)), "Contract not found");
}

#[test]
fn termination() {
    let t = terminate_contract(Some(open_lease())).ok().unwrap();
    assert!(!t.is_active);
    assert_eq!(t.contract_status, ContractStatus::Terminated);
    assert_eq!(t.lessee_id, "bob");
    assert_eq!(err_text(terminate_contract(Some(t))), "Contract is not active");
    assert_eq!(err_text(terminate_contract(None)), "Contract not found");
}

#[test]
fn terminated_lease_still_takes_payments() {
    let t = terminate_contract(Some(open_lease())).ok().unwrap();
    let l = make_payment(Some(t), payment(PaymentType::Regular, 100), DAY).ok().unwrap();
    assert_eq!(l.completed_payments, 1);
    assert_eq!(l.contract_status, ContractStatus::Terminated);
}

// ----------------------------------------------------------------------------
// schedule
// ----------------------------------------------------------------------------

#[test]
fn days_remaining() {
    let l = open_lease();
    assert_eq!(calculate_days_remaining(&l, 10 * DAY), 90);
    assert_eq!(calculate_days_remaining(&l, 99 * DAY + 1), 0);
    assert_eq!(calculate_days_remaining(&l, 100 * DAY), 0);
    assert_eq!(calculate_days_remaining(&l, 500 * DAY), 0);
    assert_eq!(NANOS_PER_DAY, DAY);
}

#[test]
fn days_remaining_never_grow_over_time() {
    let l = open_lease();
    let mut prev = u64::MAX;
    for t in 0..120u64 {
        let d = calculate_days_remaining(&l, t * DAY / 2);
        assert!(d <= prev);
        prev = d;
    }
}

#[test]
fn payment_standing_by_days_since_payment() {
    let mut l = open_lease();
    assert_eq!(check_payment_status(&l, 1000 * DAY), PaymentStatus::Current);
    l.last_payment_date = Some(DAY);
    assert_eq!(check_payment_status(&l, DAY), PaymentStatus::Current);
    assert_eq!(check_payment_status(&l, 31 * DAY), PaymentStatus::Current);
    assert_eq!(check_payment_status(&l, 32 * DAY), PaymentStatus::GracePeriod(4));
    assert_eq!(check_payment_status(&l, 36 * DAY), PaymentStatus::GracePeriod(0));
    assert_eq!(check_payment_status(&l, 37 * DAY), PaymentStatus::Late(6));
    assert_eq!(check_payment_status(&l, 61 * DAY), PaymentStatus::Late(30));
    assert_eq!(check_payment_status(&l, 62 * DAY), PaymentStatus::Defaulted);
}

#[test]
fn long_grace_period_skips_late() {
    let mut l = open_lease();
    l.grace_period_days = 40;
    l.last_payment_date = Some(0);
    assert_eq!(check_payment_status(&l, 70 * DAY), PaymentStatus::GracePeriod(0));
    assert_eq!(check_payment_status(&l, 71 * DAY), PaymentStatus::Defaulted);
}

#[test]
fn payment_standing_never_improves_over_time() {
    fn severity(s: PaymentStatus) -> u8 {
        match s {
            PaymentStatus::Current => 0,
            PaymentStatus::GracePeriod(_) => 1,
            PaymentStatus::Late(_) => 2,
            PaymentStatus::Defaulted => 3,
        }
    }
    let mut l = open_lease();
    l.last_payment_date = Some(DAY);
    let mut prev = 0;
    for t in 1..200u64 {
        let s = severity(check_payment_status(&l, t * DAY / 2 + DAY));
        assert!(s >= prev);
        prev = s;
    }
    assert_eq!(prev, 3);
}

#[test]
fn paid_lease_is_current_and_due_in_thirty_days() {
    let l = make_payment(Some(open_lease()), payment(PaymentType::Regular, 100), 15 * DAY).ok().unwrap();
    assert_eq!(check_payment_status(&l, 15 * DAY), PaymentStatus::Current);
    assert_eq!(calculate_next_payment_date(&l), Some(15 * DAY + 30 * DAY));
}

#[test]
fn next_payment_date_from_start() {
    let l = open_lease();
    assert_eq!(calculate_next_payment_date(&l), Some(40 * DAY));
    let t = terminate_contract(Some(l)).ok().unwrap();
    assert_eq!(calculate_next_payment_date(&t), None);
}

#[test]
fn computability_checks() {
    let mut l = open_lease();
    assert!(details_are_computable(&l, 20 * DAY));
    l.last_payment_date = Some(30 * DAY);
    assert!(!details_are_computable(&l, 20 * DAY));
    l.last_payment_date = Some(u64::MAX - 1);
    assert!(!details_are_computable(&l, u64::MAX));
    let mut l = open_lease();
    l.completed_payments = 5;
    assert!(!payment_is_computable(&l, &payment(PaymentType::EarlyPayoff, 0)));
    assert!(payment_is_computable(&l, &payment(PaymentType::Regular, 0)));
    let mut l = open_lease();
    l.monthly_payment = u64::MAX;
    assert!(!payment_is_computable(&l, &payment(PaymentType::EarlyPayoff, 0)));
    let mut l = open_lease();
    l.early_payoff_discount = Some(101);
    assert!(!payment_is_computable(&l, &payment(PaymentType::EarlyPayoff, 0)));
    let mut l = open_lease();
    l.completed_payments = u64::MAX;
    l.total_payments = u64::MAX;
    assert!(!payment_is_computable(&l, &payment(PaymentType::Regular, 100)));
    assert!(payment_is_computable(&l, &payment(PaymentType::Regular, 1)));
}

#[test]
fn request_computability_checks() {
    let alice = "alice".to_string();
    let eve = "eve".to_string();
    let mut l = open_lease();
    l.last_payment_date = Some(30 * DAY);
    assert!(!details_request_is_computable(&alice, &Some(l.clone()), 20 * DAY));
    // a stranger is refused before any figure is computed
    assert!(details_request_is_computable(&eve, &Some(l.clone()), 20 * DAY));
    assert!(details_request_is_computable(&alice, &None, 20 * DAY));
    let t = terminate_contract(Some(l)).ok().unwrap();
    assert!(details_request_is_computable(&alice, &Some(t), 20 * DAY));
    let mut l = open_lease();
    l.monthly_payment = u64::MAX;
    assert!(!payment_request_is_computable(&Some(l), &payment(PaymentType::EarlyPayoff, 0)));
    assert!(payment_request_is_computable(&None, &payment(PaymentType::EarlyPayoff, 0)));
}
