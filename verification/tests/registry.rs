use blockscore::identity::Identity;
use blockscore::ops::{
    add_agent, initialize, record_score, remove_agent, transfer_authority, AddAgent, Initialize,
    RecordScore, RemoveAgent, TransferAuthority,
};
use blockscore::access::{is_authorized, is_valid_agent};
use blockscore::records::{AgentAccount, BlockScoreError, ProgramConfig, ScoreAccount};

fn id(n: u64) -> Identity {
    Identity { id: n }
}

fn fresh_score_slot() -> ScoreAccount {
    ScoreAccount {
        wallet: id(0),
        score: 0,
        grade: String::new(),
        metadata: String::new(),
        last_updated: 0,
        update_count: 0,
    }
}

fn config(authority: u64, total_scores: u64) -> ProgramConfig {
    ProgramConfig {
        authority: id(authority),
        total_scores,
    }
}

#[test]
fn initialize_sets_authority_and_zero_count() {
    let mut ctx = Initialize {
        config: None,
        authority: id(7),
    };
    let ev = initialize(&mut ctx, 1000).unwrap();
    assert_eq!(ev.authority, id(7));
    assert_eq!(ev.timestamp, 1000);
    assert_eq!(ctx.config, Some(config(7, 0)));
}

#[test]
fn no_double_init() {
    let mut ctx = Initialize {
        config: None,
        authority: id(7),
    };
    initialize(&mut ctx, 1000).unwrap();
    ctx.authority = id(8);
    let second = initialize(&mut ctx, 2000);
    assert_eq!(second, Err(BlockScoreError::AlreadyInitialized));
    assert_eq!(ctx.config, Some(config(7, 0)));
}

#[test]
fn score_1001_always_fails_out_of_range() {
    let mut ctx = RecordScore {
        config: config(7, 0),
        score_account: fresh_score_slot(),
        wallet: id(9),
        agent: None,
        authority: id(7),
    };
    let r = record_score(&mut ctx, 1001, "A+".to_string(), String::new(), 50);
    assert_eq!(r, Err(BlockScoreError::ScoreOutOfRange));
    assert_eq!(ctx.config.total_scores, 0);
    assert_eq!(ctx.score_account.update_count, 0);
}

#[test]
fn score_1000_is_accepted() {
    let mut ctx = RecordScore {
        config: config(7, 0),
        score_account: fresh_score_slot(),
        wallet: id(9),
        agent: None,
        authority: id(7),
    };
    let ev = record_score(&mut ctx, 1000, "A+".to_string(), String::new(), 50).unwrap();
    assert_eq!(ev.score, 1000);
    assert_eq!(ctx.score_account.score, 1000);
}

#[test]
fn grade_of_four_characters_is_refused() {
    let mut ctx = RecordScore {
        config: config(7, 0),
        score_account: fresh_score_slot(),
        wallet: id(9),
        agent: None,
        authority: id(7),
    };
    let r = record_score(&mut ctx, 500, "AAAA".to_string(), String::new(), 50);
    assert_eq!(r, Err(BlockScoreError::GradeTooLong));
    assert_eq!(ctx.score_account.update_count, 0);
}

#[test]
fn metadata_of_257_characters_is_refused() {
    let mut ctx = RecordScore {
        config: config(7, 0),
        score_account: fresh_score_slot(),
        wallet: id(9),
        agent: None,
        authority: id(7),
    };
    let r = record_score(&mut ctx, 500, "B".to_string(), "x".repeat(257), 50);
    assert_eq!(r, Err(BlockScoreError::MetadataTooLong));
    assert_eq!(ctx.score_account.update_count, 0);
}

#[test]
fn metadata_of_256_characters_is_accepted() {
    let mut ctx = RecordScore {
        config: config(7, 0),
        score_account: fresh_score_slot(),
        wallet: id(9),
        agent: None,
        authority: id(7),
    };
    let ev = record_score(&mut ctx, 500, String::new(), "x".repeat(256), 50).unwrap();
    assert_eq!(ev.score, 500);
    assert_eq!(ctx.score_account.metadata.len(), 256);
}

#[test]
fn first_write_then_update() {
    let mut ctx = RecordScore {
        config: config(7, 0),
        score_account: fresh_score_slot(),
        wallet: id(9),
        agent: None,
        authority: id(7),
    };
    let ev1 = record_score(&mut ctx, 800, "B+".to_string(), "m1".to_string(), 50).unwrap();
    assert_eq!(ev1.update_count, 1);
    assert_eq!(ev1.previous_score, None);
    assert_eq!(ctx.config.total_scores, 1);
    assert_eq!(ctx.score_account.wallet, id(9));
    assert_eq!(ctx.score_account.update_count, 1);

    let ev2 = record_score(&mut ctx, 900, "A".to_string(), "m2".to_string(), 60).unwrap();
    assert_eq!(ev2.update_count, 2);
    assert_eq!(ev2.previous_score, Some(800));
    assert_eq!(ctx.config.total_scores, 1);
    assert_eq!(ctx.score_account.score, 900);
    assert_eq!(ctx.score_account.grade, "A");
    assert_eq!(ctx.score_account.metadata, "m2");
    assert_eq!(ctx.score_account.last_updated, 60);
}

#[test]
fn stranger_is_unauthorized_and_changes_nothing() {
    let mut ctx = RecordScore {
        config: config(7, 4),
        score_account: fresh_score_slot(),
        wallet: id(9),
        agent: None,
        authority: id(12),
    };
    let r = record_score(&mut ctx, 500, "C".to_string(), String::new(), 50);
    assert_eq!(r, Err(BlockScoreError::Unauthorized));
    assert_eq!(ctx.config.total_scores, 4);
    assert_eq!(ctx.score_account, fresh_score_slot());
}

#[test]
fn agent_record_naming_someone_else_does_not_authorize() {
    let mut ctx = RecordScore {
        config: config(7, 0),
        score_account: fresh_score_slot(),
        wallet: id(9),
        agent: Some(AgentAccount {
            authority: id(7),
            agent: id(21),
            is_active: true,
            created_at: 10,
        }),
        authority: id(12),
    };
    let r = record_score(&mut ctx, 500, "C".to_string(), String::new(), 50);
    assert_eq!(r, Err(BlockScoreError::Unauthorized));
}

#[test]
fn inactive_agent_is_refused_as_unauthorized() {
    let mut ctx = RecordScore {
        config: config(7, 0),
        score_account: fresh_score_slot(),
        wallet: id(9),
        agent: Some(AgentAccount {
            authority: id(7),
            agent: id(12),
            is_active: false,
            created_at: 10,
        }),
        authority: id(12),
    };
    let r = record_score(&mut ctx, 500, "C".to_string(), String::new(), 50);
    assert_eq!(r, Err(BlockScoreError::Unauthorized));
}

#[test]
fn agent_can_record_until_removed() {
    let mut add = AddAgent {
        config: config(7, 0),
        agent: None,
        new_agent: id(12),
        authority: id(7),
    };
    let added = add_agent(&mut add, 10).unwrap();
    assert_eq!(added.agent, id(12));
    assert_eq!(added.added_by, id(7));
    let agent_record = add.agent.unwrap();
    assert!(agent_record.is_active);
    assert_eq!(agent_record.created_at, 10);

    let mut rec = RecordScore {
        config: add.config,
        score_account: fresh_score_slot(),
        wallet: id(9),
        agent: Some(agent_record),
        authority: id(12),
    };
    let ev = record_score(&mut rec, 700, "B".to_string(), String::new(), 20).unwrap();
    assert_eq!(ev.update_count, 1);

    let mut rem = RemoveAgent {
        config: rec.config,
        agent: agent_record,
        authority: id(7),
    };
    let removed = remove_agent(&mut rem, 30).unwrap();
    assert_eq!(removed.agent, id(12));
    assert_eq!(removed.removed_by, id(7));
    assert!(!rem.agent.is_active);

    let mut rec2 = RecordScore {
        config: rem.config,
        score_account: rec.score_account,
        wallet: id(9),
        agent: Some(rem.agent),
        authority: id(12),
    };
    let r = record_score(&mut rec2, 700, "B".to_string(), String::new(), 40);
    assert_eq!(r, Err(BlockScoreError::Unauthorized));
}

#[test]
fn only_authority_may_add_agents() {
    let mut add = AddAgent {
        config: config(7, 0),
        agent: None,
        new_agent: id(12),
        authority: id(12),
    };
    let r = add_agent(&mut add, 10);
    assert_eq!(r, Err(BlockScoreError::Unauthorized));
    assert_eq!(add.agent, None);
}

#[test]
fn duplicate_agent_slot_is_refused() {
    let mut add = AddAgent {
        config: config(7, 0),
        agent: None,
        new_agent: id(12),
        authority: id(7),
    };
    add_agent(&mut add, 10).unwrap();
    let r = add_agent(&mut add, 20);
    assert_eq!(r, Err(BlockScoreError::AlreadyExists));
    assert_eq!(add.agent.unwrap().created_at, 10);
}

#[test]
fn revoked_agent_cannot_be_readded() {
    let record = AgentAccount {
        authority: id(7),
        agent: id(12),
        is_active: true,
        created_at: 10,
    };
    let mut rem = RemoveAgent {
        config: config(7, 0),
        agent: record,
        authority: id(7),
    };
    remove_agent(&mut rem, 20).unwrap();
    assert!(!rem.agent.is_active);

    let mut add = AddAgent {
        config: rem.config,
        agent: Some(rem.agent),
        new_agent: id(12),
        authority: id(7),
    };
    let r = add_agent(&mut add, 30);
    assert_eq!(r, Err(BlockScoreError::AlreadyExists));
    assert!(!add.agent.unwrap().is_active);
}

#[test]
fn only_authority_may_remove_agents() {
    let record = AgentAccount {
        authority: id(7),
        agent: id(12),
        is_active: true,
        created_at: 10,
    };
    let mut rem = RemoveAgent {
        config: config(7, 0),
        agent: record,
        authority: id(12),
    };
    let r = remove_agent(&mut rem, 30);
    assert_eq!(r, Err(BlockScoreError::Unauthorized));
    assert!(rem.agent.is_active);
}

#[test]
fn authority_transfer_moves_write_power() {
    let mut t = TransferAuthority {
        config: config(7, 5),
        authority: id(7),
    };
    let ev = transfer_authority(&mut t, id(8), 100).unwrap();
    assert_eq!(ev.old_authority, id(7));
    assert_eq!(ev.new_authority, id(8));
    assert_eq!(t.config, config(8, 5));

    let mut as_old = RecordScore {
        config: t.config,
        score_account: fresh_score_slot(),
        wallet: id(9),
        agent: None,
        authority: id(7),
    };
    let r = record_score(&mut as_old, 500, "C".to_string(), String::new(), 110);
    assert_eq!(r, Err(BlockScoreError::Unauthorized));

    let mut as_new = RecordScore {
        config: t.config,
        score_account: fresh_score_slot(),
        wallet: id(9),
        agent: None,
        authority: id(8),
    };
    let ev = record_score(&mut as_new, 500, "C".to_string(), String::new(), 120).unwrap();
    assert_eq!(ev.update_count, 1);
}

#[test]
fn agent_may_not_transfer_authority() {
    let mut t = TransferAuthority {
        config: config(7, 0),
        authority: id(12),
    };
    let r = transfer_authority(&mut t, id(12), 100);
    assert_eq!(r, Err(BlockScoreError::Unauthorized));
    assert_eq!(t.config, config(7, 0));
}

#[test]
fn transfer_to_same_identity_is_permitted() {
    let mut t = TransferAuthority {
        config: config(7, 3),
        authority: id(7),
    };
    let ev = transfer_authority(&mut t, id(7), 100).unwrap();
    assert_eq!(ev.old_authority, id(7));
    assert_eq!(ev.new_authority, id(7));
    assert_eq!(t.config, config(7, 3));
}

#[test]
fn repeated_identical_calls_differ_in_update_count_and_timestamp() {
    let mut ctx = RecordScore {
        config: config(7, 0),
        score_account: fresh_score_slot(),
        wallet: id(9),
        agent: None,
        authority: id(7),
    };
    let ev1 = record_score(&mut ctx, 640, "B".to_string(), "same".to_string(), 50).unwrap();
    let ev2 = record_score(&mut ctx, 640, "B".to_string(), "same".to_string(), 60).unwrap();
    assert_eq!(ev1.wallet, ev2.wallet);
    assert_eq!(ev1.score, ev2.score);
    assert_eq!(ev1.grade, ev2.grade);
    assert_eq!(ev2.update_count, ev1.update_count + 1);
    assert_eq!(ev1.timestamp, 50);
    assert_eq!(ev2.timestamp, 60);
    assert_eq!(ev1.previous_score, None);
    assert_eq!(ev2.previous_score, Some(640));
    assert_eq!(ctx.score_account.score, 640);
    assert_eq!(ctx.score_account.last_updated, 60);
    assert_eq!(ctx.score_account.update_count, 2);
    assert_eq!(ctx.config.total_scores, 1);

    let ev3 = record_score(&mut ctx, 640, "B".to_string(), "same".to_string(), 70).unwrap();
    assert_eq!(ev3.previous_score, ev2.previous_score);
    assert_eq!(ev3.update_count, ev2.update_count + 1);
}

#[test]
fn validation_runs_before_access_control() {
    let mut ctx = RecordScore {
        config: config(7, 0),
        score_account: fresh_score_slot(),
        wallet: id(9),
        agent: None,
        authority: id(12),
    };
    let r = record_score(&mut ctx, 1001, "C".to_string(), String::new(), 50);
    assert_eq!(r, Err(BlockScoreError::ScoreOutOfRange));
}

#[test]
fn access_predicate_paths() {
    let cfg = config(7, 0);
    let active = AgentAccount {
        authority: id(7),
        agent: id(12),
        is_active: true,
        created_at: 10,
    };
    let inactive = AgentAccount {
        is_active: false,
        ..active
    };
    assert!(is_authorized(&id(7), &cfg, &None));
    assert!(is_authorized(&id(12), &cfg, &Some(active)));
    assert!(!is_authorized(&id(12), &cfg, &Some(inactive)));
    assert!(!is_authorized(&id(12), &cfg, &None));
    assert!(!is_valid_agent(&Some(active), &id(13)));
    assert!(is_valid_agent(&Some(active), &id(12)));
    assert!(!is_valid_agent(&None, &id(12)));
}

#[test]
fn empty_grade_and_metadata_are_accepted() {
    let mut ctx = RecordScore {
        config: config(7, 0),
        score_account: fresh_score_slot(),
        wallet: id(9),
        agent: None,
        authority: id(7),
    };
    let ev = record_score(&mut ctx, 0, String::new(), String::new(), 0).unwrap();
    assert_eq!(ev.score, 0);
    assert_eq!(ev.grade, "");
    assert_eq!(ctx.score_account.grade, "");
    assert_eq!(ctx.score_account.metadata, "");
}
