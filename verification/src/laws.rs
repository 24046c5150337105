use vstd::prelude::*;

use crate::access::spec_is_valid_agent;
use crate::identity::Identity;
use crate::identity::unset_identity;
use crate::ops::AddAgent;
use crate::ops::Initialize;
use crate::ops::RecordScore;
use crate::ops::TransferAuthority;
use crate::ops::spec_add_agent_error;
use crate::ops::spec_initialize_error;
use crate::ops::spec_record_score_error;
use crate::ops::spec_record_score_updates;
use crate::ops::spec_score_event;
use crate::ops::spec_transfer_authority_error;
use crate::ops::spec_valid_args;
use crate::records::AgentAccount;
use crate::records::BlockScoreError;
use crate::records::ProgramConfig;
use crate::records::ScoreRecorded;
use crate::records::deactivated;

verus! {

/// Score bound: `record_score` can succeed only when the score is at most
/// 1000, and any score above 1000 is refused as ScoreOutOfRange, whoever
/// calls and whatever the other arguments are.
pub proof fn lemma_score_bound(pre: RecordScore, score: u16, grade: Seq<char>, metadata: Seq<char>)
    ensures
        spec_record_score_error(pre, score, grade, metadata) is None ==> score <= 1000,
        score > 1000 ==> spec_record_score_error(pre, score, grade, metadata) == Some(
            BlockScoreError::ScoreOutOfRange,
        ),
{
}

/// First-write semantics: a first successful write for a wallet reports
/// update count 1 and no previous score and raises the config's score
/// count by exactly one; an immediately following successful write for
/// the same wallet reports update count 2 and the first score as the
/// previous score, and leaves the count where it was.
pub proof fn lemma_first_write_semantics(
    pre1: RecordScore,
    post1: RecordScore,
    ev1: ScoreRecorded,
    pre2: RecordScore,
    post2: RecordScore,
    ev2: ScoreRecorded,
    score1: u16,
    grade1: Seq<char>,
    metadata1: Seq<char>,
    now1: i64,
    score2: u16,
    grade2: Seq<char>,
    metadata2: Seq<char>,
    now2: i64,
)
    requires
        pre1.score_account.is_fresh(),
        pre1.wallet != unset_identity(),
        spec_record_score_error(pre1, score1, grade1, metadata1) is None,
        spec_record_score_updates(pre1, post1, score1, grade1, metadata1, now1),
        spec_score_event(pre1, score1, grade1, now1, ev1),
        pre2.config == post1.config,
        pre2.score_account == post1.score_account,
        pre2.wallet == pre1.wallet,
        spec_record_score_error(pre2, score2, grade2, metadata2) is None,
        spec_record_score_updates(pre2, post2, score2, grade2, metadata2, now2),
        spec_score_event(pre2, score2, grade2, now2, ev2),
    ensures
        ev1.update_count == 1,
        ev1.previous_score is None,
        post1.config.total_scores == pre1.config.total_scores + 1,
        ev2.update_count == 2,
        ev2.previous_score == Some(score1),
        post2.config.total_scores == post1.config.total_scores,
{
}

/// Authorization gate: a caller that is neither the configured authority
/// nor the active agent named by the supplied agent record is refused as
/// Unauthorized, however valid the score arguments are. (That a refused
/// call changes no state is part of `record_score`'s own contract: on any
/// error the context is exactly what it was.)
pub proof fn lemma_authorization_gate(
    pre: RecordScore,
    score: u16,
    grade: Seq<char>,
    metadata: Seq<char>,
)
    requires
        pre.authority != pre.config.authority,
        !spec_is_valid_agent(pre.agent, pre.authority),
        spec_valid_args(score, grade, metadata),
    ensures
        spec_record_score_error(pre, score, grade, metadata) == Some(
            BlockScoreError::Unauthorized,
        ),
{
}

/// Agent deactivation: while an active agent record names the caller, a
/// well-formed `record_score` call as that agent is allowed; after
/// `remove_agent` has deactivated the record, the identical call is
/// refused as Unauthorized.
pub proof fn lemma_agent_deactivation(
    before: RecordScore,
    after: RecordScore,
    a: AgentAccount,
    score: u16,
    grade: Seq<char>,
    metadata: Seq<char>,
)
    requires
        before.agent == Some(a),
        a.agent == before.authority,
        a.is_active,
        before.authority != before.config.authority,
        spec_valid_args(score, grade, metadata),
        after.authority == before.authority,
        after.config.authority == before.config.authority,
        after.agent == Some(deactivated(a)),
    ensures
        spec_record_score_error(before, score, grade, metadata) is None,
        spec_record_score_error(after, score, grade, metadata) == Some(
            BlockScoreError::Unauthorized,
        ),
{
}

/// Authority transfer: after the authority hands the registry from A to a
/// different identity B, a well-formed `record_score` call as A with no
/// agent record is refused as Unauthorized, while the same call as B is
/// allowed.
pub proof fn lemma_authority_transfer(
    t_pre: TransferAuthority,
    t_post: TransferAuthority,
    b: Identity,
    as_a: RecordScore,
    as_b: RecordScore,
    score: u16,
    grade: Seq<char>,
    metadata: Seq<char>,
)
    requires
        spec_transfer_authority_error(t_pre) is None,
        t_post.config.authority == b,
        t_pre.config.authority != b,
        as_a.config == t_post.config,
        as_a.authority == t_pre.config.authority,
        as_a.agent is None,
        as_b.config == t_post.config,
        as_b.authority == b,
        spec_valid_args(score, grade, metadata),
    ensures
        spec_record_score_error(as_a, score, grade, metadata) == Some(
            BlockScoreError::Unauthorized,
        ),
        spec_record_score_error(as_b, score, grade, metadata) is None,
{
}

/// Repeating `record_score` with identical arguments: the second call is
/// allowed again, the stored record afterwards reflects only the latest
/// call, and — provided the slot already held this wallet with this very
/// score, so that both calls report the same previous score — the two
/// notifications agree on every field except the update count, which goes
/// up by one, and the timestamp, which is whatever the host supplies.
pub proof fn lemma_repeat_record(
    pre1: RecordScore,
    post1: RecordScore,
    ev1: ScoreRecorded,
    pre2: RecordScore,
    post2: RecordScore,
    ev2: ScoreRecorded,
    score: u16,
    grade: Seq<char>,
    metadata: Seq<char>,
    now1: i64,
    now2: i64,
)
    requires
        !pre1.score_account.is_new(),
        pre1.score_account.wallet == pre1.wallet,
        pre1.score_account.score == score,
        spec_record_score_error(pre1, score, grade, metadata) is None,
        spec_record_score_updates(pre1, post1, score, grade, metadata, now1),
        spec_score_event(pre1, score, grade, now1, ev1),
        pre2.config == post1.config,
        pre2.score_account == post1.score_account,
        pre2.wallet == pre1.wallet,
        pre2.agent == pre1.agent,
        pre2.authority == pre1.authority,
        spec_record_score_updates(pre2, post2, score, grade, metadata, now2),
        spec_score_event(pre2, score, grade, now2, ev2),
    ensures
        spec_record_score_error(pre2, score, grade, metadata) is None,
        ev1.wallet == ev2.wallet,
        ev1.score == ev2.score,
        ev1.grade@ == ev2.grade@,
        ev1.previous_score == ev2.previous_score,
        ev2.update_count == ev1.update_count + 1,
        post2.score_account.wallet == pre1.wallet,
        post2.score_account.score == score,
        post2.score_account.grade@ == grade,
        post2.score_account.metadata@ == metadata,
        post2.score_account.last_updated == now2,
{
}

/// Revocation is terminal: while any record occupies an agent's slot,
/// active or revoked, `add_agent` for that agent is refused — even when
/// the authority itself asks, where the refusal is AlreadyExists — and
/// deactivation itself leaves the active flag false; so no operation of
/// this registry ever reactivates a revoked agent.
pub proof fn lemma_revocation_is_terminal(pre: AddAgent, a: AgentAccount)
    requires
        pre.agent == Some(a),
    ensures
        spec_add_agent_error(pre) is Some,
        pre.authority == pre.config.authority ==> spec_add_agent_error(pre) == Some(
            BlockScoreError::AlreadyExists,
        ),
        !deactivated(a).is_active,
{
}

/// No double initialization: once a first call has created the config
/// record, a second `initialize` against the same slot is refused as
/// AlreadyInitialized, and the slot still holds the authority the first
/// caller set. (That the refused call changes nothing is part of
/// `initialize`'s own contract.)
pub proof fn lemma_no_double_init(pre1: Initialize, post1: Initialize, pre2: Initialize)
    requires
        spec_initialize_error(pre1) is None,
        post1.config == Some(ProgramConfig { authority: pre1.authority, total_scores: 0u64 }),
        pre2.config == post1.config,
    ensures
        spec_initialize_error(pre2) == Some(BlockScoreError::AlreadyInitialized),
        pre2.config == Some(ProgramConfig { authority: pre1.authority, total_scores: 0u64 }),
{
}

} // verus!
