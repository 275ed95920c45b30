//! Member management rules: who may change or invite whom, and the guard that
//! keeps every tenant with an active Owner.

pub mod models;
pub mod service;
