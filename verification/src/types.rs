//! The platform's records and payloads, and the mathematical views that the
//! contracts of the library are stated over.
use vstd::prelude::*;

verus! {

/// Lifecycle state of a lease contract.
#[derive(Clone, Copy, Debug, PartialEq, Eq, Structural)]
pub enum ContractStatus {
    Active,
    Completed,
    Defaulted,
    Terminated,
    PendingApproval,
}

impl Default for ContractStatus {
    fn default() -> (s: Self)
        ensures
            s == ContractStatus::PendingApproval,
    {
        ContractStatus::PendingApproval
    }
}

/// The kind of a payment made towards a lease.
#[derive(Clone, Copy, Debug, PartialEq, Eq, Structural)]
pub enum PaymentType {
    Regular,
    EarlyPayoff,
    LatePayment,
    SecurityDeposit,
}

impl Default for PaymentType {
    fn default() -> (p: Self)
        ensures
            p == PaymentType::Regular,
    {
        PaymentType::Regular
    }
}

/// The physical condition of an asset.
#[derive(Clone, Copy, Debug, PartialEq, Eq, Structural)]
pub enum AssetCondition {
    Excellent,
    Good,
    Fair,
    Poor,
    NeedsRepair,
}

impl Default for AssetCondition {
    fn default() -> (c: Self)
        ensures
            c == AssetCondition::Good,
    {
        AssetCondition::Good
    }
}

/// The category of an asset.
#[derive(Clone, Copy, Debug, PartialEq, Eq, Structural)]
pub enum AssetType {
    Vehicle,
    Electronics,
    Furniture,
    Appliance,
    Other,
}

impl Default for AssetType {
    fn default() -> (t: Self)
        ensures
            t == AssetType::Other,
    {
        AssetType::Other
    }
}

/// Where a lease stands with respect to its monthly payments.
#[derive(Clone, Copy, Debug, PartialEq, Eq, Structural)]
pub enum PaymentStatus {
    Current,
    /// Days late.
    Late(u64),
    /// Days left in the grace period.
    GracePeriod(u64),
    Defaulted,
}

/// Errors of the contract queries.
#[derive(Clone, Debug)]
pub enum ContractError {
    NotFound(String),
    AccessDenied(String),
    InvalidState(String),
    SystemError(String),
}

/// One payment made towards a lease.
#[derive(Clone, Debug, Default)]
pub struct PaymentRecord {
    pub payment_id: u64,
    pub contract_id: u64,
    pub lessee_id: String,
    pub amount: u64,
    pub payment_date: u64,
    pub payment_type: PaymentType,
    pub transaction_hash: String,
}

/// One maintenance intervention on an asset.
#[derive(Clone, Debug)]
pub struct MaintenanceRecord {
    pub record_id: u64,
    pub item_id: u64,
    pub service_date: u64,
    pub description: String,
    pub cost: u64,
    pub performed_by: String,
}

/// Descriptive data of an asset.
#[derive(Clone, Debug, Default)]
pub struct AssetMetadata {
    pub manufacturer: String,
    pub model: String,
    pub year: u64,
    pub serial_number: Option<String>,
    pub additional_details: Vec<(String, String)>,
}

/// An asset offered for lease.
#[derive(Clone, Debug, Default)]
pub struct AssetNFT {
    pub item_id: u64,
    pub owner_id: String,
    pub description: String,
    pub value: u64,
    pub is_leased: bool,
    pub asset_condition: AssetCondition,
    pub maintenance_history: Vec<MaintenanceRecord>,
    pub warranty_info: Option<String>,
    pub asset_type: AssetType,
    pub metadata: AssetMetadata,
}

/// A rent-to-own lease agreement. Times are nanoseconds since the epoch.
#[derive(Clone, Debug, Default)]
pub struct LeaseContract {
    pub contract_id: u64,
    pub item_id: u64,
    pub owner_id: String,
    pub lessee_id: String,
    pub lease_terms: String,
    pub total_payments: u64,
    pub completed_payments: u64,
    pub monthly_payment: u64,
    pub lease_start: u64,
    pub lease_end: u64,
    pub is_active: bool,
    pub is_completed: bool,
    pub payment_history: Vec<PaymentRecord>,
    pub last_payment_date: Option<u64>,
    pub grace_period_days: u64,
    pub early_payoff_discount: Option<u64>,
    pub maintenance_records: Vec<MaintenanceRecord>,
    pub contract_status: ContractStatus,
}

/// A lease together with figures derived from it at a given time.
#[derive(Clone, Debug)]
pub struct LeaseContractDetails {
    pub contract: LeaseContract,
    pub days_remaining: u64,
    pub payment_status: PaymentStatus,
    pub next_payment_date: Option<u64>,
}

/// Request to open a lease on an asset.
#[derive(Clone, Debug)]
pub struct CreateLeaseContractPayload {
    pub item_id: u64,
    pub lessee_id: String,
    pub lease_terms: String,
    pub total_payments: u64,
    pub monthly_payment: u64,
    pub lease_duration: u64,
    pub lease_start_time: u64,
    pub grace_period_days: u64,
    pub early_payoff_discount: Option<u64>,
}

/// Request to register an asset.
#[derive(Clone, Debug)]
pub struct AssetPayload {
    pub description: String,
    pub value: u64,
    pub asset_condition: AssetCondition,
    pub asset_type: AssetType,
    pub metadata: AssetMetadata,
    pub warranty_info: Option<String>,
}

/// Request to pay towards a lease.
#[derive(Clone, Debug)]
pub struct MakePaymentPayload {
    pub contract_id: u64,
    pub amount: u64,
    pub payment_type: PaymentType,
    pub transaction_hash: String,
}

/// Request to log maintenance on an asset.
#[derive(Clone, Debug)]
pub struct AddMaintenanceRecordPayload {
    pub item_id: u64,
    pub description: String,
    pub cost: u64,
}

/// Request to terminate a lease.
#[derive(Clone, Debug)]
pub struct TerminateContractPayload {
    pub contract_id: u64,
    pub reason: String,
}

// ---------------------------------------------------------------------------
// Views
// ---------------------------------------------------------------------------

/// The text of an optional string.
pub open spec fn text_opt(o: Option<String>) -> Option<Seq<char>> {
    match o {
        Some(s) => Some(s@),
        None => None,
    }
}

pub struct PaymentRecordView {
    pub payment_id: u64,
    pub contract_id: u64,
    pub lessee_id: Seq<char>,
    pub amount: u64,
    pub payment_date: u64,
    pub payment_type: PaymentType,
    pub transaction_hash: Seq<char>,
}

impl View for PaymentRecord {
    type V = PaymentRecordView;

    open spec fn view(&self) -> PaymentRecordView {
        PaymentRecordView {
            payment_id: self.payment_id,
            contract_id: self.contract_id,
            lessee_id: self.lessee_id@,
            amount: self.amount,
            payment_date: self.payment_date,
            payment_type: self.payment_type,
            transaction_hash: self.transaction_hash@,
        }
    }
}

pub struct MaintenanceRecordView {
    pub record_id: u64,
    pub item_id: u64,
    pub service_date: u64,
    pub description: Seq<char>,
    pub cost: u64,
    pub performed_by: Seq<char>,
}

impl View for MaintenanceRecord {
    type V = MaintenanceRecordView;

    open spec fn view(&self) -> MaintenanceRecordView {
        MaintenanceRecordView {
            record_id: self.record_id,
            item_id: self.item_id,
            service_date: self.service_date,
            description: self.description@,
            cost: self.cost,
            performed_by: self.performed_by@,
        }
    }
}

/// The views of a sequence of payment records.
pub open spec fn payment_views(s: Seq<PaymentRecord>) -> Seq<PaymentRecordView> {
    s.map_values(|r: PaymentRecord| r@)
}

/// The views of a sequence of maintenance records.
pub open spec fn maintenance_views(s: Seq<MaintenanceRecord>) -> Seq<MaintenanceRecordView> {
    s.map_values(|r: MaintenanceRecord| r@)
}

pub struct AssetMetadataView {
    pub manufacturer: Seq<char>,
    pub model: Seq<char>,
    pub year: u64,
    pub serial_number: Option<Seq<char>>,
    pub additional_details: Seq<(Seq<char>, Seq<char>)>,
}

impl View for AssetMetadata {
    type V = AssetMetadataView;

    open spec fn view(&self) -> AssetMetadataView {
        AssetMetadataView {
            manufacturer: self.manufacturer@,
            model: self.model@,
            year: self.year,
            serial_number: text_opt(self.serial_number),
            additional_details: self.additional_details@.map_values(
                |d: (String, String)| (d.0@, d.1@),
            ),
        }
    }
}

pub struct AssetNFTView {
    pub item_id: u64,
    pub owner_id: Seq<char>,
    pub description: Seq<char>,
    pub value: u64,
    pub is_leased: bool,
    pub asset_condition: AssetCondition,
    pub maintenance_history: Seq<MaintenanceRecordView>,
    pub warranty_info: Option<Seq<char>>,
    pub asset_type: AssetType,
    pub metadata: AssetMetadataView,
}

impl View for AssetNFT {
    type V = AssetNFTView;

    open spec fn view(&self) -> AssetNFTView {
        AssetNFTView {
            item_id: self.item_id,
            owner_id: self.owner_id@,
            description: self.description@,
            value: self.value,
            is_leased: self.is_leased,
            asset_condition: self.asset_condition,
            maintenance_history: maintenance_views(self.maintenance_history@),
            warranty_info: text_opt(self.warranty_info),
            asset_type: self.asset_type,
            metadata: self.metadata@,
        }
    }
}

pub struct LeaseContractView {
    pub contract_id: u64,
    pub item_id: u64,
    pub owner_id: Seq<char>,
    pub lessee_id: Seq<char>,
    pub lease_terms: Seq<char>,
    pub total_payments: u64,
    pub completed_payments: u64,
    pub monthly_payment: u64,
    pub lease_start: u64,
    pub lease_end: u64,
    pub is_active: bool,
    pub is_completed: bool,
    pub payment_history: Seq<PaymentRecordView>,
    pub last_payment_date: Option<u64>,
    pub grace_period_days: u64,
    pub early_payoff_discount: Option<u64>,
    pub maintenance_records: Seq<MaintenanceRecordView>,
    pub contract_status: ContractStatus,
}

impl View for LeaseContract {
    type V = LeaseContractView;

    open spec fn view(&self) -> LeaseContractView {
        LeaseContractView {
            contract_id: self.contract_id,
            item_id: self.item_id,
            owner_id: self.owner_id@,
            lessee_id: self.lessee_id@,
            lease_terms: self.lease_terms@,
            total_payments: self.total_payments,
            completed_payments: self.completed_payments,
            monthly_payment: self.monthly_payment,
            lease_start: self.lease_start,
            lease_end: self.lease_end,
            is_active: self.is_active,
            is_completed: self.is_completed,
            payment_history: payment_views(self.payment_history@),
            last_payment_date: self.last_payment_date,
            grace_period_days: self.grace_period_days,
            early_payoff_discount: self.early_payoff_discount,
            maintenance_records: maintenance_views(self.maintenance_records@),
            contract_status: self.contract_status,
        }
    }
}

pub struct LeaseContractDetailsView {
    pub contract: LeaseContractView,
    pub days_remaining: u64,
    pub payment_status: PaymentStatus,
    pub next_payment_date: Option<u64>,
}

impl View for LeaseContractDetails {
    type V = LeaseContractDetailsView;

    open spec fn view(&self) -> LeaseContractDetailsView {
        LeaseContractDetailsView {
            contract: self.contract@,
            days_remaining: self.days_remaining,
            payment_status: self.payment_status,
            next_payment_date: self.next_payment_date,
        }
    }
}

pub enum ContractErrorView {
    NotFound(Seq<char>),
    AccessDenied(Seq<char>),
    InvalidState(Seq<char>),
    SystemError(Seq<char>),
}

impl View for ContractError {
    type V = ContractErrorView;

    open spec fn view(&self) -> ContractErrorView {
        match self {
            ContractError::NotFound(m) => ContractErrorView::NotFound(m@),
            ContractError::AccessDenied(m) => ContractErrorView::AccessDenied(m@),
            ContractError::InvalidState(m) => ContractErrorView::InvalidState(m@),
            ContractError::SystemError(m) => ContractErrorView::SystemError(m@),
        }
    }
}

/// The view of an optional value.
pub open spec fn view_opt<T: View>(o: Option<T>) -> Option<T::V> {
    match o {
        Some(v) => Some(v@),
        None => None,
    }
}

/// The view of a result whose error is a message.
pub open spec fn outcome_view<T: View>(r: Result<T, String>) -> Result<T::V, Seq<char>> {
    match r {
        Ok(v) => Ok(v@),
        Err(e) => Err(e@),
    }
}

/// The view of a result whose error is a `ContractError`.
pub open spec fn query_view<T: View>(r: Result<T, ContractError>) -> Result<T::V, ContractErrorView> {
    match r {
        Ok(v) => Ok(v@),
        Err(e) => Err(e@),
    }
}

} // verus!
