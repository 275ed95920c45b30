//! Connection settings decided from the database URL.

use vstd::prelude::*;

verus! {

/// The port of Supabase's transaction-mode connection pooler, which does
/// not support the server-side prepared statements that are cached by
/// default.
pub const SUPABASE_TXN_POOLER_PORT: u16 = 6543;

/// Whether connections on `port` must run without a prepared-statement
/// cache: only those through the transaction-mode pooler.
pub fn statement_cache_disabled(port: u16) -> (b: bool)
    ensures
        b == (port == SUPABASE_TXN_POOLER_PORT),
{
    port == SUPABASE_TXN_POOLER_PORT
}

} // verus!
