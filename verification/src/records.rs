use vstd::prelude::*;

use crate::identity::Identity;
use crate::identity::unset_identity;

verus! {

/// Highest score a record may carry (two-decimal fixed point: 100.0%).
pub const MAX_SCORE: u16 = 1000;

/// Longest grade label a record may carry, in characters.
pub const MAX_GRADE_LEN: usize = 3;

/// Longest metadata string a record may carry, in characters.
pub const MAX_METADATA_LEN: usize = 256;

/// The registry's singleton configuration record: who may write, and how
/// many distinct wallets have been scored so far.
#[derive(Clone, Copy, PartialEq, Eq, Structural, Debug)]
pub struct ProgramConfig {
    /// The identity empowered to write scores and manage agents.
    pub authority: Identity,
    /// Count of distinct wallets ever scored.
    pub total_scores: u64,
}

/// One wallet's reputation record, created lazily on the first score
/// written for that wallet and updated in place thereafter.
#[derive(Clone, PartialEq, Eq, Debug)]
pub struct ScoreAccount {
    /// The wallet being scored.
    pub wallet: Identity,
    /// Reputation score, between 0 and 1000.
    pub score: u16,
    /// Letter grade, at most 3 characters.
    pub grade: String,
    /// Free-form metadata, at most 256 characters, opaque to the registry.
    pub metadata: String,
    /// Timestamp of the last update.
    pub last_updated: i64,
    /// How many times this record has been written; 1 after creation.
    pub update_count: u32,
}

impl ScoreAccount {
    /// The bounds every stored record obeys after a successful write.
    pub open spec fn wf(self) -> bool {
        &&& self.score <= MAX_SCORE
        &&& self.grade@.len() <= MAX_GRADE_LEN
        &&& self.metadata@.len() <= MAX_METADATA_LEN
    }

    /// A record slot is new iff its wallet field still holds the unset
    /// identity, i.e. no score has ever been written into it.
    pub open spec fn is_new(self) -> bool {
        self.wallet == unset_identity()
    }

    /// The all-default contents a score slot carries right after the host
    /// creates it and before the first write.
    pub open spec fn is_fresh(self) -> bool {
        &&& self.is_new()
        &&& self.update_count == 0
    }
}

/// One delegated agent's record, keyed by the agent's identity.
#[derive(Clone, Copy, PartialEq, Eq, Structural, Debug)]
pub struct AgentAccount {
    /// The registry authority at the time the agent was added.
    pub authority: Identity,
    /// The delegated identity.
    pub agent: Identity,
    /// Whether the delegation is still in force; starts true, and once
    /// flipped to false it is never set back.
    pub is_active: bool,
    /// Timestamp of when the agent was added.
    pub created_at: i64,
}

/// An agent record with its delegation revoked; everything but the
/// active flag is kept.
pub open spec fn deactivated(a: AgentAccount) -> AgentAccount {
    AgentAccount { is_active: false, ..a }
}

/// Notification of a successful registry initialization.
#[derive(Clone, Copy, PartialEq, Eq, Structural, Debug)]
pub struct ProgramInitialized {
    pub authority: Identity,
    pub timestamp: i64,
}

/// Notification of a successful score write.
#[derive(Clone, PartialEq, Eq, Debug)]
pub struct ScoreRecorded {
    pub wallet: Identity,
    pub score: u16,
    pub grade: String,
    /// The score stored before this write; absent on the first write.
    pub previous_score: Option<u16>,
    pub timestamp: i64,
    pub update_count: u32,
}

/// Notification of a successful authority transfer.
#[derive(Clone, Copy, PartialEq, Eq, Structural, Debug)]
pub struct AuthorityTransferred {
    pub old_authority: Identity,
    pub new_authority: Identity,
    pub timestamp: i64,
}

/// Notification of a successful agent delegation.
#[derive(Clone, Copy, PartialEq, Eq, Structural, Debug)]
pub struct AgentAdded {
    pub agent: Identity,
    pub added_by: Identity,
    pub timestamp: i64,
}

/// Notification of a successful agent deactivation.
#[derive(Clone, Copy, PartialEq, Eq, Structural, Debug)]
pub struct AgentRemoved {
    pub agent: Identity,
    pub removed_by: Identity,
    pub timestamp: i64,
}

/// Why an operation was refused. Every refusal is terminal: the registry
/// changes nothing and the caller must correct the input and resubmit.
#[derive(Clone, Copy, PartialEq, Eq, Structural, Debug)]
pub enum BlockScoreError {
    /// The score argument exceeds 1000.
    ScoreOutOfRange,
    /// The grade label exceeds 3 characters.
    GradeTooLong,
    /// The metadata string exceeds 256 characters.
    MetadataTooLong,
    /// The caller is neither the authority nor an active agent allowed to
    /// perform this operation.
    Unauthorized,
    /// Reserved for telling an inactive agent apart from a stranger; no
    /// current operation raises it, an inactive agent is refused as
    /// Unauthorized instead.
    AgentNotActive,
    /// Initialization was attempted while the config record already exists.
    AlreadyInitialized,
    /// Creation was attempted where a record already occupies the slot.
    AlreadyExists,
}

} // verus!
