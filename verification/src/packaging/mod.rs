//! Packaging runs (a batch packaged into a container format) and the
//! distribution movements that draw on their stock.

pub mod models;
pub mod service;
