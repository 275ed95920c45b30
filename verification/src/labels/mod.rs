//! UK label-compliance records for batches: the record's fields and the rules
//! for creating, patching, approving and deleting one. A record can be edited
//! while it is a draft and is immutable once approved.

pub mod models;
pub mod repository;
pub mod service;
