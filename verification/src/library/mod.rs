//! Shared reference data: beer styles, equipment profiles, mash profiles,
//! yeasts and library fermentables. Reads return the system tenant's rows
//! and the caller's; writes reach only the caller's rows.

pub mod fields;
pub mod models;
pub mod repository;
pub mod service;
