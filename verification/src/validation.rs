//! Checks on the payloads that create assets and leases.
use vstd::prelude::*;
use crate::text::{is_blank, text_is_blank};
use crate::types::{AssetPayload, CreateLeaseContractPayload};

verus! {

/// The message of a failed check, if it failed.
pub open spec fn check_failure(r: Result<(), String>) -> Option<Seq<char>> {
    match r {
        Ok(_) => None,
        Err(e) => Some(e@),
    }
}

/// The first rule that an asset payload breaks, if any. The condition and the
/// type of the asset are enum values, so they are never missing.
pub open spec fn asset_payload_error(p: AssetPayload) -> Option<Seq<char>> {
    if text_is_blank(p.description@) {
        Some("Description cannot be empty."@)
    } else if p.value == 0 {
        Some("Value must be greater than 0."@)
    } else {
        None
    }
}

/// The first rule that a lease payload breaks, if any.
pub open spec fn lease_payload_error(p: CreateLeaseContractPayload) -> Option<Seq<char>> {
    if p.item_id == 0 {
        Some("Asset ID must be greater than 0."@)
    } else if text_is_blank(p.lessee_id@) {
        Some("Lessee ID cannot be empty."@)
    } else if p.lease_duration == 0 {
        Some("Lease duration must be greater than 0."@)
    } else if p.lease_start_time == 0 {
        Some("Lease start time must be provided."@)
    } else {
        None
    }
}

/// Checks that an asset has a description and a positive value.
pub fn validate_asset_payload(payload: &AssetPayload) -> (r: Result<(), String>)
    ensures
        check_failure(r) == asset_payload_error(*payload),
{
    if is_blank(payload.description.as_str()) {
        return Err(String::from_str("Description cannot be empty."));
    }
    if payload.value == 0 {
        return Err(String::from_str("Value must be greater than 0."));
    }
    Ok(())
}

/// Checks that a lease names an asset and a lessee, and has a duration and a start.
pub fn validate_lease_payload(payload: &CreateLeaseContractPayload) -> (r: Result<(), String>)
    ensures
        check_failure(r) == lease_payload_error(*payload),
{
    if payload.item_id == 0 {
        return Err(String::from_str("Asset ID must be greater than 0."));
    }
    if is_blank(payload.lessee_id.as_str()) {
        return Err(String::from_str("Lessee ID cannot be empty."));
    }
    if payload.lease_duration == 0 {
        return Err(String::from_str("Lease duration must be greater than 0."));
    }
    if payload.lease_start_time == 0 {
        return Err(String::from_str("Lease start time must be provided."));
    }
    Ok(())
}

} // verus!
