//! What the gateway reports of one caller.

use vstd::prelude::*;

verus! {

/// One caller's usage: all requests, the latest one, and today's tokens.
#[derive(Clone, Debug, PartialEq, Eq)]
pub struct UserStats {
    pub uid: String,
    pub total_hits: u64,
    pub last_hit_time: u64,
    pub tokens_used_today: u64,
}

} // verus!
