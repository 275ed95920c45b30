//! Batchwise: the verified core of a multi-tenant brewery management platform.

pub mod labels;
pub mod library;
pub mod members;
pub mod number;
pub mod packaging;
pub mod pkg;
pub mod platform;
pub mod procurement;
pub mod text;
