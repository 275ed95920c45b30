//! Procurement: suppliers, purchase orders and their lines, and receipts.

pub mod models;
pub mod repository;
pub mod service;
