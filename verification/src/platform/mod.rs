//! Cross-cutting rules shared by every domain module: pagination, sort
//! parsing, LIKE escaping, errors, role-based access, configuration, tenant
//! reference rules, membership checks, request context, rate limiting and the
//! per-tenant caches.

pub mod authz;
pub mod cache;
pub mod config;
pub mod context;
pub mod database;
pub mod email;
pub mod errors;
pub mod features;
pub mod logger;
pub mod middleware;
pub mod pagination;
pub mod refs;
pub mod roles;
pub mod sort;
pub mod sql;
pub mod web;
