//! Log output settings: JSON in production, readable text otherwise, and
//! the default level filter.

use vstd::prelude::*;
use crate::text::str_eq;

verus! {

/// Whether logs are written as JSON: only in production.
pub fn json_logs(app_env: &str) -> (b: bool)
    ensures
        b == (app_env@ == "production"@),
{
    str_eq(app_env, "production")
}

/// The default filter: this crate at `level`, everything else at `info`.
pub fn default_filter(level: &str) -> (f: String)
    ensures
        f@ == "batchwise="@ + level@ + ",info"@,
{
    String::from_str("batchwise=").concat(level).concat(",info")
}

} // verus!
