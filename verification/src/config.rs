//! Process-wide read-only configuration, constructed once at startup.

use vstd::prelude::*;

verus! {

pub struct Config {
    pub rpc_url: String,
    pub commitment: String,
    pub timeout_seconds: u64,
}

/// How confirmed a queried chain state must be before it is trusted.
pub enum CommitmentLevel {
    Processed,
    Confirmed,
    Finalized,
}

/// The level a commitment string selects: the three named levels, and the
/// middle one for anything else.
pub open spec fn spec_commitment_of(s: Seq<char>) -> CommitmentLevel {
    if s == "processed"@ {
        CommitmentLevel::Processed
    } else if s == "finalized"@ {
        CommitmentLevel::Finalized
    } else {
        CommitmentLevel::Confirmed
    }
}

} // verus!
