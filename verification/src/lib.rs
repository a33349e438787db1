//! Rent-to-own leasing: assets, lease contracts, payments and maintenance.
pub mod types;
pub mod text;
pub mod schedule;
pub mod validation;
pub mod leases;
pub mod assets;
pub mod laws;
pub mod guarantees;
