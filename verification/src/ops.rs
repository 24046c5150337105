use vstd::prelude::*;

use crate::access::is_authorized;
use crate::access::spec_is_authorized;
use crate::identity::Identity;
use crate::records::AgentAccount;
use crate::records::BlockScoreError;
use crate::records::MAX_GRADE_LEN;
use crate::records::MAX_METADATA_LEN;
use crate::records::MAX_SCORE;
use crate::records::ProgramConfig;
use crate::records::ProgramInitialized;
use crate::records::AgentAdded;
use crate::records::AgentRemoved;
use crate::records::AuthorityTransferred;
use crate::records::ScoreAccount;
use crate::records::ScoreRecorded;
use crate::records::deactivated;

verus! {

/// Everything `initialize` touches, as loaded by the host: the contents of
/// the config slot (`None` while the registry is uninitialized) and the
/// authenticated caller, who becomes the authority on success.
pub struct Initialize {
    pub config: Option<ProgramConfig>,
    pub authority: Identity,
}

/// Why `initialize` refuses, or `None` when it succeeds: the sole failure
/// mode is a config record already occupying the slot.
pub open spec fn spec_initialize_error(pre: Initialize) -> Option<BlockScoreError> {
    if pre.config is Some {
        Some(BlockScoreError::AlreadyInitialized)
    } else {
        None
    }
}

/// Creates the registry's config record, making the caller its authority
/// with a score count of zero. Anyone may initialize an uninitialized
/// registry; a second initialization is refused and changes nothing.
pub fn initialize(ctx: &mut Initialize, now: i64) -> (r: Result<
    ProgramInitialized,
    BlockScoreError,
>)
    ensures
        match spec_initialize_error(*old(ctx)) {
            Some(e) => r == Err::<ProgramInitialized, BlockScoreError>(e) && *final(ctx) == *old(
                ctx,
            ),
            None => {
                &&& final(ctx).config == Some(
                    ProgramConfig { authority: old(ctx).authority, total_scores: 0u64 },
                )
                &&& final(ctx).authority == old(ctx).authority
                &&& r == Ok::<ProgramInitialized, BlockScoreError>(
                    ProgramInitialized { authority: old(ctx).authority, timestamp: now },
                )
            },
        },
{
    if ctx.config.is_some() {
        return Err(BlockScoreError::AlreadyInitialized);
    }
    ctx.config = Some(ProgramConfig { authority: ctx.authority, total_scores: 0 });
    Ok(ProgramInitialized { authority: ctx.authority, timestamp: now })
}

/// Everything `record_score` touches, as loaded by the host: the config
/// record, the score slot for `wallet` (freshly created with all-default
/// contents when no score exists yet), the wallet being scored, an
/// optional agent record the caller supplies for delegated authority, and
/// the authenticated caller.
pub struct RecordScore {
    pub config: ProgramConfig,
    pub score_account: ScoreAccount,
    pub wallet: Identity,
    pub agent: Option<AgentAccount>,
    pub authority: Identity,
}

/// Whether the three score arguments pass validation.
pub open spec fn spec_valid_args(score: u16, grade: Seq<char>, metadata: Seq<char>) -> bool {
    &&& score <= MAX_SCORE
    &&& grade.len() <= MAX_GRADE_LEN
    &&& metadata.len() <= MAX_METADATA_LEN
}

/// Why `record_score` refuses, or `None` when it succeeds. Validation
/// fails fast, in argument order, before access control is consulted.
pub open spec fn spec_record_score_error(
    pre: RecordScore,
    score: u16,
    grade: Seq<char>,
    metadata: Seq<char>,
) -> Option<BlockScoreError> {
    if score > MAX_SCORE {
        Some(BlockScoreError::ScoreOutOfRange)
    } else if grade.len() > MAX_GRADE_LEN {
        Some(BlockScoreError::GradeTooLong)
    } else if metadata.len() > MAX_METADATA_LEN {
        Some(BlockScoreError::MetadataTooLong)
    } else if !spec_is_authorized(pre.authority, pre.config, pre.agent) {
        Some(BlockScoreError::Unauthorized)
    } else {
        None
    }
}

/// How a successful `record_score` call rewrites its context: the score
/// record is overwritten with the arguments, its update count goes up by
/// one, and the config's score count goes up by one exactly when the slot
/// was written for the first time. Nothing else moves.
pub open spec fn spec_record_score_updates(
    pre: RecordScore,
    post: RecordScore,
    score: u16,
    grade: Seq<char>,
    metadata: Seq<char>,
    now: i64,
) -> bool {
    &&& post.score_account.wallet == pre.wallet
    &&& post.score_account.score == score
    &&& post.score_account.grade@ == grade
    &&& post.score_account.metadata@ == metadata
    &&& post.score_account.last_updated == now
    &&& post.score_account.update_count == pre.score_account.update_count + 1
    &&& post.config.authority == pre.config.authority
    &&& post.config.total_scores == pre.config.total_scores + (if pre.score_account.is_new() {
        1int
    } else {
        0int
    })
    &&& post.wallet == pre.wallet
    &&& post.agent == pre.agent
    &&& post.authority == pre.authority
}

/// What the notification of a successful `record_score` call holds: the
/// arguments as written, the previous score (absent on a first write),
/// and the new update count.
pub open spec fn spec_score_event(
    pre: RecordScore,
    score: u16,
    grade: Seq<char>,
    now: i64,
    ev: ScoreRecorded,
) -> bool {
    &&& ev.wallet == pre.wallet
    &&& ev.score == score
    &&& ev.grade@ == grade
    &&& ev.previous_score == (if pre.score_account.is_new() {
        Option::<u16>::None
    } else {
        Some(pre.score_account.score)
    })
    &&& ev.timestamp == now
    &&& ev.update_count == pre.score_account.update_count + 1
}

/// Records or updates `wallet`'s score. The arguments are validated
/// first (score at most 1000, grade at most 3 characters, metadata at
/// most 256 characters), then the caller must pass access control; any
/// refusal leaves the context exactly as it was. On success the record
/// is overwritten, its update count incremented, and the config's count
/// of scored wallets incremented iff the slot was fresh.
pub fn record_score(
    ctx: &mut RecordScore,
    score: u16,
    grade: String,
    metadata: String,
    now: i64,
) -> (r: Result<ScoreRecorded, BlockScoreError>)
    requires
        spec_record_score_error(*old(ctx), score, grade@, metadata@) is None ==> {
            &&& old(ctx).score_account.update_count < u32::MAX
            &&& (old(ctx).score_account.is_new() ==> old(ctx).config.total_scores < u64::MAX)
        },
    ensures
        match spec_record_score_error(*old(ctx), score, grade@, metadata@) {
            Some(e) => r == Err::<ScoreRecorded, BlockScoreError>(e) && *final(ctx) == *old(ctx),
            None => ({
                &&& r matches Ok(ev) && spec_score_event(*old(ctx), score, grade@, now, ev)
                &&& spec_record_score_updates(*old(ctx), *final(ctx), score, grade@, metadata@, now)
                &&& final(ctx).score_account.wf()
            }),
        },
{
    if score > MAX_SCORE {
        return Err(BlockScoreError::ScoreOutOfRange);
    }
    if grade.as_str().unicode_len() > MAX_GRADE_LEN {
        return Err(BlockScoreError::GradeTooLong);
    }
    if metadata.as_str().unicode_len() > MAX_METADATA_LEN {
        return Err(BlockScoreError::MetadataTooLong);
    }
    if !is_authorized(&ctx.authority, &ctx.config, &ctx.agent) {
        return Err(BlockScoreError::Unauthorized);
    }

    let is_new = ctx.score_account.wallet == Identity::default();
    let previous_score = if is_new {
        None
    } else {
        Some(ctx.score_account.score)
    };

    ctx.score_account.wallet = ctx.wallet;
    ctx.score_account.score = score;
    ctx.score_account.grade = grade.clone();
    ctx.score_account.metadata = metadata.clone();
    ctx.score_account.last_updated = now;
    ctx.score_account.update_count = ctx.score_account.update_count + 1;

    if is_new {
        ctx.config.total_scores = ctx.config.total_scores + 1;
    }

    Ok(
        ScoreRecorded {
            wallet: ctx.wallet,
            score,
            grade,
            previous_score,
            timestamp: now,
            update_count: ctx.score_account.update_count,
        },
    )
}

/// Everything `transfer_authority` touches: the config record and the
/// authenticated caller.
pub struct TransferAuthority {
    pub config: ProgramConfig,
    pub authority: Identity,
}

/// Why `transfer_authority` refuses, or `None` when it succeeds: only the
/// current authority itself may transfer authority; agents may not.
pub open spec fn spec_transfer_authority_error(pre: TransferAuthority) -> Option<
    BlockScoreError,
> {
    if pre.authority != pre.config.authority {
        Some(BlockScoreError::Unauthorized)
    } else {
        None
    }
}

/// Hands the registry to `new_authority`. The new identity is not
/// validated in any way: it may equal the old one, or be any identity at
/// all. The score count is untouched.
pub fn transfer_authority(ctx: &mut TransferAuthority, new_authority: Identity, now: i64) -> (r:
    Result<AuthorityTransferred, BlockScoreError>)
    ensures
        match spec_transfer_authority_error(*old(ctx)) {
            Some(e) => r == Err::<AuthorityTransferred, BlockScoreError>(e) && *final(ctx) == *old(
                ctx,
            ),
            None => {
                &&& final(ctx).config == (ProgramConfig {
                    authority: new_authority,
                    total_scores: old(ctx).config.total_scores,
                })
                &&& final(ctx).authority == old(ctx).authority
                &&& r == Ok::<AuthorityTransferred, BlockScoreError>(
                    AuthorityTransferred {
                        old_authority: old(ctx).config.authority,
                        new_authority,
                        timestamp: now,
                    },
                )
            },
        },
{
    if !(ctx.authority == ctx.config.authority) {
        return Err(BlockScoreError::Unauthorized);
    }
    let old_authority = ctx.config.authority;
    ctx.config.authority = new_authority;
    Ok(AuthorityTransferred { old_authority, new_authority, timestamp: now })
}

/// Everything `add_agent` touches: the config record, the contents of the
/// agent slot for `new_agent` (`None` when no record exists yet), the
/// identity being delegated, and the authenticated caller.
pub struct AddAgent {
    pub config: ProgramConfig,
    pub agent: Option<AgentAccount>,
    pub new_agent: Identity,
    pub authority: Identity,
}

/// Why `add_agent` refuses, or `None` when it succeeds: only the
/// authority may add agents, and the agent slot must still be empty.
pub open spec fn spec_add_agent_error(pre: AddAgent) -> Option<BlockScoreError> {
    if pre.authority != pre.config.authority {
        Some(BlockScoreError::Unauthorized)
    } else if pre.agent is Some {
        Some(BlockScoreError::AlreadyExists)
    } else {
        None
    }
}

/// Delegates score-writing power to `new_agent`: creates an active agent
/// record stamped with the current authority and the current time. A
/// duplicate delegation is refused and changes nothing.
pub fn add_agent(ctx: &mut AddAgent, now: i64) -> (r: Result<AgentAdded, BlockScoreError>)
    ensures
        match spec_add_agent_error(*old(ctx)) {
            Some(e) => r == Err::<AgentAdded, BlockScoreError>(e) && *final(ctx) == *old(ctx),
            None => {
                &&& final(ctx).agent == Some(
                    AgentAccount {
                        authority: old(ctx).config.authority,
                        agent: old(ctx).new_agent,
                        is_active: true,
                        created_at: now,
                    },
                )
                &&& final(ctx).config == old(ctx).config
                &&& final(ctx).new_agent == old(ctx).new_agent
                &&& final(ctx).authority == old(ctx).authority
                &&& r == Ok::<AgentAdded, BlockScoreError>(
                    AgentAdded {
                        agent: old(ctx).new_agent,
                        added_by: old(ctx).authority,
                        timestamp: now,
                    },
                )
            },
        },
{
    if !(ctx.authority == ctx.config.authority) {
        return Err(BlockScoreError::Unauthorized);
    }
    if ctx.agent.is_some() {
        return Err(BlockScoreError::AlreadyExists);
    }
    ctx.agent = Some(
        AgentAccount {
            authority: ctx.config.authority,
            agent: ctx.new_agent,
            is_active: true,
            created_at: now,
        },
    );
    Ok(AgentAdded { agent: ctx.new_agent, added_by: ctx.authority, timestamp: now })
}

/// Everything `remove_agent` touches: the config record, the agent record
/// being deactivated, and the authenticated caller.
pub struct RemoveAgent {
    pub config: ProgramConfig,
    pub agent: AgentAccount,
    pub authority: Identity,
}

/// Why `remove_agent` refuses, or `None` when it succeeds: only the
/// authority may deactivate agents.
pub open spec fn spec_remove_agent_error(pre: RemoveAgent) -> Option<BlockScoreError> {
    if pre.authority != pre.config.authority {
        Some(BlockScoreError::Unauthorized)
    } else {
        None
    }
}

/// Deactivates an agent: flips the record's active flag to false and
/// keeps everything else. The record is not deleted, and no operation of
/// this registry ever sets the flag back to true.
pub fn remove_agent(ctx: &mut RemoveAgent, now: i64) -> (r: Result<AgentRemoved, BlockScoreError>)
    ensures
        match spec_remove_agent_error(*old(ctx)) {
            Some(e) => r == Err::<AgentRemoved, BlockScoreError>(e) && *final(ctx) == *old(ctx),
            None => {
                &&& final(ctx).agent == deactivated(old(ctx).agent)
                &&& final(ctx).config == old(ctx).config
                &&& final(ctx).authority == old(ctx).authority
                &&& r == Ok::<AgentRemoved, BlockScoreError>(
                    AgentRemoved {
                        agent: old(ctx).agent.agent,
                        removed_by: old(ctx).authority,
                        timestamp: now,
                    },
                )
            },
        },
{
    if !(ctx.authority == ctx.config.authority) {
        return Err(BlockScoreError::Unauthorized);
    }
    ctx.agent.is_active = false;
    Ok(AgentRemoved { agent: ctx.agent.agent, removed_by: ctx.authority, timestamp: now })
}

} // verus!
