//! Assets offered for lease: registration, lookup and maintenance history.
//!
//! As for leases, each operation takes the asset as it is stored (or `None`)
//! and returns what the store is to hold afterwards.
use vstd::prelude::*;
use crate::text::{decimal_string, decimal_text};
use crate::types::{
    AddMaintenanceRecordPayload, AssetNFT, AssetNFTView, AssetPayload, MaintenanceRecord,
    MaintenanceRecordView, maintenance_views, outcome_view, text_opt, view_opt,
};
use crate::validation::{asset_payload_error, validate_asset_payload};

verus! {

/// The asset that a valid payload registers under `item_id` for `owner`:
/// not leased, with no maintenance yet.
pub open spec fn registered_asset(p: AssetPayload, item_id: u64, owner: Seq<char>) -> AssetNFTView {
    AssetNFTView {
        item_id,
        owner_id: owner,
        description: p.description@,
        value: p.value,
        is_leased: false,
        asset_condition: p.asset_condition,
        maintenance_history: Seq::empty(),
        warranty_info: text_opt(p.warranty_info),
        asset_type: p.asset_type,
        metadata: p.metadata@,
    }
}

/// What registering an asset gives: the first broken rule, or the new asset.
pub open spec fn registration_outcome(p: AssetPayload, item_id: u64, owner: Seq<char>) -> Result<
    AssetNFTView,
    Seq<char>,
> {
    match asset_payload_error(p) {
        Some(m) => Err(m),
        None => Ok(registered_asset(p, item_id, owner)),
    }
}

/// Registers an asset under `item_id`, owned by `owner_id`, once the payload is valid.
pub fn create_asset_nft(payload: AssetPayload, item_id: u64, owner_id: String) -> (r: Result<
    AssetNFT,
    String,
>)
    ensures
        outcome_view(r) == registration_outcome(payload, item_id, owner_id@),
{
    match validate_asset_payload(&payload) {
        Err(e) => Err(e),
        Ok(()) => {
            let asset = AssetNFT {
                item_id,
                owner_id,
                description: payload.description,
                value: payload.value,
                is_leased: false,
                asset_condition: payload.asset_condition,
                maintenance_history: Vec::new(),
                warranty_info: payload.warranty_info,
                asset_type: payload.asset_type,
                metadata: payload.metadata,
            };
            proof {
                assert(asset@.maintenance_history =~= Seq::<MaintenanceRecordView>::empty());
            }
            Ok(asset)
        },
    }
}

/// What looking up asset `item_id` gives.
pub open spec fn asset_lookup_outcome(item_id: u64, stored: Option<AssetNFTView>) -> Result<
    AssetNFTView,
    Seq<char>,
> {
    match stored {
        Some(a) => Ok(a),
        None => Err("Asset with ID "@ + decimal_text(item_id as nat) + " not found"@),
    }
}

/// The stored asset `item_id`, or an error naming the id.
pub fn get_asset_details(item_id: u64, stored: Option<AssetNFT>) -> (r: Result<AssetNFT, String>)
    ensures
        outcome_view(r) == asset_lookup_outcome(item_id, view_opt(stored)),
{
    match stored {
        Some(asset) => Ok(asset),
        None => {
            let mut m = String::from_str("Asset with ID ");
            m.append(decimal_string(item_id).as_str());
            m.append(" not found");
            Err(m)
        },
    }
}

/// The record that logs maintenance `p` on asset `a` on `service_date` by
/// `performed_by`, numbered after the records already logged.
pub open spec fn maintenance_entry(
    a: AssetNFTView,
    p: AddMaintenanceRecordPayload,
    service_date: u64,
    performed_by: Seq<char>,
) -> MaintenanceRecordView {
    MaintenanceRecordView {
        record_id: a.maintenance_history.len() as u64,
        item_id: p.item_id,
        service_date,
        description: p.description@,
        cost: p.cost,
        performed_by,
    }
}

/// What logging maintenance gives: the asset with the new record appended,
/// and the record.
pub open spec fn maintenance_outcome(
    stored: Option<AssetNFTView>,
    p: AddMaintenanceRecordPayload,
    service_date: u64,
    performed_by: Seq<char>,
) -> Result<(AssetNFTView, MaintenanceRecordView), Seq<char>> {
    match stored {
        None => Err("Asset not found"@),
        Some(a) => {
            let entry = maintenance_entry(a, p, service_date, performed_by);
            Ok(
                (
                    AssetNFTView { maintenance_history: a.maintenance_history.push(entry), ..a },
                    entry,
                ),
            )
        },
    }
}

fn duplicate_record(r: &MaintenanceRecord) -> (c: MaintenanceRecord)
    ensures
        c@ == r@,
{
    MaintenanceRecord {
        record_id: r.record_id,
        item_id: r.item_id,
        service_date: r.service_date,
        description: r.description.clone(),
        cost: r.cost,
        performed_by: r.performed_by.clone(),
    }
}

/// Logs maintenance on the stored asset, performed on `service_date` by
/// `performed_by`; returns the updated asset and the new record.
pub fn add_maintenance_record(
    stored: Option<AssetNFT>,
    payload: AddMaintenanceRecordPayload,
    service_date: u64,
    performed_by: String,
) -> (r: Result<(AssetNFT, MaintenanceRecord), String>)
    ensures
        outcome_view(r) == maintenance_outcome(
            view_opt(stored),
            payload,
            service_date,
            performed_by@,
        ),
{
    match stored {
        Some(mut asset) => {
            let ghost old_history = asset.maintenance_history@;
            let record = MaintenanceRecord {
                record_id: asset.maintenance_history.len() as u64,
                item_id: payload.item_id,
                service_date,
                description: payload.description,
                cost: payload.cost,
                performed_by,
            };
            asset.maintenance_history.push(duplicate_record(&record));
            proof {
                assert(maintenance_views(asset.maintenance_history@) =~= maintenance_views(
                    old_history,
                ).push(record@));
            }
            Ok((asset, record))
        },
        None => Err(String::from_str("Asset not found")),
    }
}

} // verus!
