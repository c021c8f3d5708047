use config_voting::config::{
    byzantine_majority_count, CoreSchema, ServiceSettings, StoredConfiguration, ValidatorKeys,
};
use config_voting::errors::{ErrorCode, ServiceError};
use config_voting::primitives::{Digest, PublicKey, Signature};
use config_voting::schema::{consent_count, MaybeVote, Schema, VotingDecision};
use config_voting::transactions::{
    enough_votes_to_commit, validator_index, ConfigurationTransactions, Propose, Vote,
    VoteAgainst, VotingContext, SERVICE_ID,
};

fn key(n: u8) -> PublicKey {
    PublicKey::new([n; 32])
}

fn digest(n: u8) -> Digest {
    Digest::new([n; 32])
}

fn validators(n: u8) -> Vec<ValidatorKeys> {
    (1..=n)
        .map(|i| ValidatorKeys { consensus_key: key(100 + i), service_key: key(i) })
        .collect()
}

const ACTUAL: u8 = 200;

fn registry(n: u8) -> CoreSchema {
    CoreSchema {
        actual_configuration: StoredConfiguration {
            previous_cfg_hash: digest(199),
            actual_from: 0,
            validator_keys: validators(n),
            consensus: "{}".to_string(),
            services: Vec::new(),
            majority_count: None,
        },
        actual_hash: digest(ACTUAL),
        following_configuration: None,
        height: 5,
    }
}

fn candidate(n: u8, actual_from: u64, majority: Option<u16>) -> StoredConfiguration {
    StoredConfiguration {
        previous_cfg_hash: digest(ACTUAL),
        actual_from,
        validator_keys: validators(n),
        consensus: "{\"round_timeout\":3000}".to_string(),
        services: vec![ServiceSettings {
            name: "configuration".to_string(),
            settings: "{}".to_string(),
        }],
        majority_count: majority,
    }
}

fn propose(text: &str) -> Propose {
    Propose { cfg: text.to_string() }
}

fn code(r: &Result<(), ServiceError>) -> Option<ErrorCode> {
    match r {
        Ok(()) => None,
        Err(e) => Some(e.code()),
    }
}

fn ledger(schema: &Schema, h: u8) -> Vec<MaybeVote> {
    schema.votes_by_config_hash(&digest(h)).unwrap().clone()
}

fn slot_is_none(v: &MaybeVote) -> bool {
    !v.is_some()
}

/// A state with four validators and one proposal, hash 1, by validator 1.
fn proposed() -> (CoreSchema, Schema) {
    let core = registry(4);
    let mut schema = Schema::new();
    let r = propose("c").execute(Ok(candidate(4, 10, None)), digest(1), key(1), &core, &mut schema);
    assert!(r.is_ok());
    (core, schema)
}

#[test]
fn majority_default_values() {
    assert_eq!(byzantine_majority_count(4), 3);
    assert_eq!(byzantine_majority_count(1), 1);
    assert_eq!(byzantine_majority_count(0), 1);
    assert_eq!(byzantine_majority_count(3), 3);
    assert_eq!(byzantine_majority_count(7), 5);
    assert_eq!(byzantine_majority_count(100), 67);
}

#[test]
fn majority_override_below_minimum_rejected() {
    let core = registry(4);
    let r = propose("c").check_config_candidate(&candidate(4, 10, Some(2)), &core);
    match r {
        Err(ServiceError::InvalidMajorityCount { min, max, proposed }) => {
            assert_eq!((min, max, proposed), (3, 4, 2));
        }
        other => panic!("unexpected {:?}", other),
    }
}

#[test]
fn majority_override_above_maximum_rejected() {
    let core = registry(4);
    let r = propose("c").check_config_candidate(&candidate(4, 10, Some(5)), &core);
    assert!(matches!(
        r,
        Err(ServiceError::InvalidMajorityCount { min: 3, max: 4, proposed: 5 })
    ));
}

#[test]
fn majority_override_in_range_accepted() {
    let core = registry(4);
    assert!(propose("c").check_config_candidate(&candidate(4, 10, Some(3)), &core).is_ok());
    assert!(propose("c").check_config_candidate(&candidate(4, 10, Some(4)), &core).is_ok());
}

#[test]
fn propose_creates_empty_ledger_of_active_size() {
    let core = registry(4);
    let mut schema = Schema::new();
    // the candidate has five validators; the ledger follows the active four
    let r = propose("c").execute(Ok(candidate(5, 10, None)), digest(1), key(2), &core, &mut schema);
    assert!(r.is_ok());
    let votes = ledger(&schema, 1);
    assert_eq!(votes.len(), 4);
    assert!(votes.iter().all(slot_is_none));
    assert_eq!(schema.proposals[0].data.num_validators, 4);
    assert_eq!(schema.config_hash_by_ordinal(0), Some(digest(1)));
    assert_eq!(schema.config_hash_by_ordinal(1), None);
    assert_eq!(schema.propose(&digest(1)).unwrap().cfg, "c");
    assert_eq!(schema.len(), 1);
}

#[test]
fn second_identical_proposal_rejected() {
    let (core, mut schema) = proposed();
    let again = propose("c").execute(Ok(candidate(4, 10, None)), digest(1), key(1), &core, &mut schema);
    match again {
        Err(ServiceError::AlreadyProposed(p)) => assert_eq!(p.cfg, "c"),
        other => panic!("unexpected {:?}", other),
    }
    let other_author =
        propose("c").execute(Ok(candidate(4, 10, None)), digest(1), key(3), &core, &mut schema);
    assert_eq!(code(&other_author), Some(ErrorCode::AlreadyProposed));
    assert_eq!(schema.len(), 1);
}

#[test]
fn propose_while_scheduled_rejected() {
    let mut core = registry(4);
    core.following_configuration = Some(candidate(4, 20, None));
    let mut schema = Schema::new();
    let valid = propose("c").execute(Ok(candidate(4, 10, None)), digest(1), key(1), &core, &mut schema);
    match valid {
        Err(ServiceError::AlreadyScheduled(f)) => assert_eq!(f.actual_from, 20),
        other => panic!("unexpected {:?}", other),
    }
    let invalid = propose("x").execute(Err("bad".to_string()), digest(2), key(9), &core, &mut schema);
    assert_eq!(code(&invalid), Some(ErrorCode::AlreadyScheduled));
    assert_eq!(schema.len(), 0);
}

#[test]
fn propose_unknown_sender() {
    let core = registry(4);
    let mut schema = Schema::new();
    let r = propose("c").execute(Ok(candidate(4, 10, None)), digest(1), key(9), &core, &mut schema);
    assert_eq!(code(&r), Some(ErrorCode::UnknownSender));
    assert_eq!(schema.len(), 0);
}

#[test]
fn propose_invalid_config() {
    let core = registry(4);
    let mut schema = Schema::new();
    let r = propose("{").execute(Err("EOF".to_string()), digest(1), key(1), &core, &mut schema);
    match r {
        Err(ServiceError::InvalidConfig(m)) => assert_eq!(m, "EOF"),
        other => panic!("unexpected {:?}", other),
    }
}

#[test]
fn propose_invalid_config_ref() {
    let core = registry(4);
    let mut schema = Schema::new();
    let mut c = candidate(4, 10, None);
    c.previous_cfg_hash = digest(7);
    let r = propose("c").execute(Ok(c), digest(1), key(1), &core, &mut schema);
    match r {
        Err(ServiceError::InvalidConfigRef(a)) => assert_eq!(a.previous_cfg_hash, digest(199)),
        other => panic!("unexpected {:?}", other),
    }
}

#[test]
fn propose_activation_in_past() {
    let core = registry(4);
    let mut schema = Schema::new();
    // the next height is 6: activation at 6 is too early, at 7 it is fine
    let r = propose("c").execute(Ok(candidate(4, 6, None)), digest(1), key(1), &core, &mut schema);
    assert!(matches!(r, Err(ServiceError::ActivationInPast(6))));
    let ok = propose("c").execute(Ok(candidate(4, 7, None)), digest(1), key(1), &core, &mut schema);
    assert!(ok.is_ok());
}

#[test]
fn propose_checks_in_order() {
    let core = registry(4);
    let mut schema = Schema::new();
    // an unknown sender with an unparsable payload is an unknown sender
    let r = propose("{").execute(Err("EOF".to_string()), digest(1), key(9), &core, &mut schema);
    assert_eq!(code(&r), Some(ErrorCode::UnknownSender));
    // a wrong predecessor is reported before a past activation
    let mut c = candidate(4, 1, Some(1));
    c.previous_cfg_hash = digest(7);
    let r = propose("c").execute(Ok(c), digest(1), key(1), &core, &mut schema);
    assert_eq!(code(&r), Some(ErrorCode::InvalidConfigRef));
    // a past activation is reported before a bad majority
    let r = propose("c").execute(Ok(candidate(4, 1, Some(1))), digest(1), key(1), &core, &mut schema);
    assert_eq!(code(&r), Some(ErrorCode::ActivationInPast));
}

#[test]
fn validator_index_finds_ordinal() {
    let core = registry(4);
    assert_eq!(validator_index(&core, &key(1)), Some(0));
    assert_eq!(validator_index(&core, &key(4)), Some(3));
    assert_eq!(validator_index(&core, &key(5)), None);
    assert_eq!(validator_index(&core, &key(101)), None);
}

fn vote(core: &mut CoreSchema, schema: &mut Schema, h: u8, author: u8, tx: u8) -> Result<(), ServiceError> {
    Vote { cfg_hash: digest(h) }.execute(digest(tx), key(author), core, schema)
}

fn vote_against(core: &CoreSchema, schema: &mut Schema, h: u8, author: u8, tx: u8) -> Result<(), ServiceError> {
    VoteAgainst { cfg_hash: digest(h) }.execute(digest(tx), key(author), core, schema)
}

#[test]
fn end_to_end_schedule_after_majority() {
    let (mut core, mut schema) = proposed();
    assert!(vote(&mut core, &mut schema, 1, 2, 50).is_ok());
    assert_eq!(consent_count(&ledger(&schema, 1)), 1);
    assert!(core.following_configuration.is_none());
    assert!(vote(&mut core, &mut schema, 1, 3, 51).is_ok());
    assert_eq!(consent_count(&ledger(&schema, 1)), 2);
    assert!(!enough_votes_to_commit(&core, &schema, &digest(1)));
    assert!(core.following_configuration.is_none());
    assert!(vote(&mut core, &mut schema, 1, 4, 52).is_ok());
    assert_eq!(consent_count(&ledger(&schema, 1)), 3);
    assert!(enough_votes_to_commit(&core, &schema, &digest(1)));
    let scheduled = core.following_configuration.as_ref().unwrap();
    assert_eq!(scheduled.actual_from, 10);
    assert_eq!(scheduled.previous_cfg_hash, digest(ACTUAL));
    for author in 1..=4 {
        let r = propose("d").execute(Ok(candidate(4, 11, None)), digest(2), key(author), &core, &mut schema);
        assert_eq!(code(&r), Some(ErrorCode::AlreadyScheduled));
    }
    let late = vote(&mut core, &mut schema, 1, 1, 53);
    assert_eq!(code(&late), Some(ErrorCode::AlreadyScheduled));
}

#[test]
fn end_to_end_stale_proposal() {
    let (mut core, mut schema) = proposed();
    // another configuration came into force by a separate path
    core.actual_hash = digest(201);
    core.height = 12;
    let r = vote(&mut core, &mut schema, 1, 2, 50);
    match r {
        Err(ServiceError::InvalidConfigRef(a)) => assert_eq!(a.validator_keys.len(), 4),
        other => panic!("unexpected {:?}", other),
    }
    let r = vote_against(&core, &mut schema, 1, 3, 51);
    assert_eq!(code(&r), Some(ErrorCode::InvalidConfigRef));
    assert!(schema.propose(&digest(1)).is_some());
    assert!(ledger(&schema, 1).iter().all(slot_is_none));
}

#[test]
fn vote_becomes_late_when_height_passes() {
    let (mut core, mut schema) = proposed();
    core.height = 9;
    let r = vote(&mut core, &mut schema, 1, 2, 50);
    assert!(matches!(r, Err(ServiceError::ActivationInPast(10))));
}

#[test]
fn votes_against_never_schedule() {
    let (core, mut schema) = proposed();
    for author in 1..=3 {
        assert!(vote_against(&core, &mut schema, 1, author, 60 + author).is_ok());
    }
    let votes = ledger(&schema, 1);
    assert_eq!(consent_count(&votes), 0);
    assert!(matches!(votes[0].0, Some(VotingDecision::Nay(h)) if h == digest(61)));
    assert!(matches!(votes[2].0, Some(VotingDecision::Nay(_))));
    assert!(votes[3].0.is_none());
    assert!(core.following_configuration.is_none());
    assert!(!enough_votes_to_commit(&core, &schema, &digest(1)));
}

#[test]
fn second_vote_rejected_and_ledger_unchanged() {
    let (mut core, mut schema) = proposed();
    assert!(vote(&mut core, &mut schema, 1, 2, 50).is_ok());
    let before = ledger(&schema, 1);
    let again = vote(&mut core, &mut schema, 1, 2, 51);
    assert!(matches!(again, Err(ServiceError::AlreadyVoted)));
    let against = vote_against(&core, &mut schema, 1, 2, 52);
    assert_eq!(code(&against), Some(ErrorCode::AlreadyVoted));
    let after = ledger(&schema, 1);
    assert_eq!(after.len(), before.len());
    assert!(matches!(after[1].0, Some(VotingDecision::Yea(h)) if h == digest(50)));
    assert!(after[0].0.is_none() && after[2].0.is_none() && after[3].0.is_none());
}

#[test]
fn vote_against_then_vote_rejected() {
    let (mut core, mut schema) = proposed();
    assert!(vote_against(&core, &mut schema, 1, 3, 50).is_ok());
    let r = vote(&mut core, &mut schema, 1, 3, 51);
    assert_eq!(code(&r), Some(ErrorCode::AlreadyVoted));
}

#[test]
fn vote_unknown_config_ref() {
    let (mut core, mut schema) = proposed();
    let r = vote(&mut core, &mut schema, 9, 2, 50);
    assert!(matches!(r, Err(ServiceError::UnknownConfigRef(h)) if h == digest(9)));
}

#[test]
fn vote_unknown_sender() {
    let (mut core, mut schema) = proposed();
    let r = vote(&mut core, &mut schema, 1, 9, 50);
    assert_eq!(code(&r), Some(ErrorCode::UnknownSender));
}

#[test]
fn validator_added_later_has_no_slot() {
    let (mut core, mut schema) = proposed();
    core.actual_configuration.validator_keys = validators(5);
    let r = vote(&mut core, &mut schema, 1, 5, 50);
    assert_eq!(code(&r), Some(ErrorCode::UnknownSender));
    assert!(vote(&mut core, &mut schema, 1, 4, 51).is_ok());
}

#[test]
fn majority_override_of_active_config_decides() {
    let (mut core, mut schema) = proposed();
    core.actual_configuration.majority_count = Some(4);
    for author in 1..=3 {
        assert!(vote(&mut core, &mut schema, 1, author, 50 + author).is_ok());
    }
    assert!(core.following_configuration.is_none());
    assert!(vote(&mut core, &mut schema, 1, 4, 54).is_ok());
    assert!(core.following_configuration.is_some());
}

#[test]
fn single_validator_schedules_alone() {
    let mut core = registry(1);
    let mut schema = Schema::new();
    let r = propose("c").execute(Ok(candidate(1, 10, None)), digest(1), key(1), &core, &mut schema);
    assert!(r.is_ok());
    assert!(vote(&mut core, &mut schema, 1, 1, 50).is_ok());
    assert!(core.following_configuration.is_some());
}

#[test]
fn voting_context_precheck_returns_candidate() {
    let (core, schema) = proposed();
    let ctx = VotingContext::new(VotingDecision::Yea(digest(50)), key(2), digest(1));
    assert_eq!(ctx.author, key(2));
    let c = ctx.precheck(&core, &schema).unwrap();
    assert_eq!(c.actual_from, 10);
    let unknown = VotingContext::new(VotingDecision::Nay(digest(50)), key(2), digest(3));
    assert_eq!(unknown.precheck(&core, &schema).unwrap_err().code(), ErrorCode::UnknownConfigRef);
}

#[test]
fn signed_messages_carry_payload() {
    let sig = Signature::new([7; 64]);
    let m = Vote::sign(&key(1), &digest(3), sig);
    assert_eq!(m.author, key(1));
    assert_eq!(m.service_id, SERVICE_ID);
    assert!(matches!(ConfigurationTransactions::from_raw(m), ConfigurationTransactions::Vote(v) if v.cfg_hash == digest(3)));
    let m = VoteAgainst::sign(&key(2), &digest(4), sig);
    assert!(matches!(ConfigurationTransactions::from_raw(m), ConfigurationTransactions::VoteAgainst(v) if v.cfg_hash == digest(4)));
    let m = Propose::sign(&key(3), "{\"a\":1}", sig);
    assert_eq!(m.signature.bytes, [7; 64]);
    assert!(matches!(ConfigurationTransactions::from_raw(m), ConfigurationTransactions::Propose(p) if p.cfg == "{\"a\":1}"));
}

#[test]
fn digest_equality_is_bytewise() {
    let mut b = [3u8; 32];
    assert_eq!(Digest::new(b), digest(3));
    b[31] = 4;
    assert_ne!(Digest::new(b), digest(3));
    b[31] = 3;
    b[0] = 0;
    assert_ne!(Digest::new(b), digest(3));
}

#[test]
fn commit_configuration_is_idempotent() {
    let mut core = registry(4);
    core.commit_configuration(candidate(4, 10, None));
    core.commit_configuration(candidate(4, 20, None));
    assert_eq!(core.following_configuration.unwrap().actual_from, 10);
}

#[test]
fn duplicate_keeps_value() {
    let c = candidate(3, 10, Some(3));
    let d = c.duplicate();
    assert_eq!(d.validator_keys.len(), 3);
    assert_eq!(d.validator_keys[2].service_key, key(3));
    assert_eq!(d.majority_count, Some(3));
    assert_eq!(d.previous_cfg_hash, digest(ACTUAL));
}

#[test]
fn hex_digests_decode() {
    let text = "00ff10Ab".repeat(8);
    let d = Digest::from_hex(&text).unwrap();
    assert_eq!(d.bytes[0], 0x00);
    assert_eq!(d.bytes[1], 0xff);
    assert_eq!(d.bytes[2], 0x10);
    assert_eq!(d.bytes[3], 0xab);
    assert_eq!(d.bytes[31], 0xab);
    assert!(Digest::from_hex(&text[..62]).is_none());
    assert!(PublicKey::from_hex(&"0g".repeat(32)).is_none());
    assert_eq!(PublicKey::from_hex(&"07".repeat(32)), Some(key(7)));
}

#[test]
fn store_well_formedness() {
    let (_, mut schema) = proposed();
    assert!(schema.is_well_formed());
    schema.proposals[0].votes.push(MaybeVote::none());
    assert!(!schema.is_well_formed());
    assert!(Schema::new().is_well_formed());
}

#[test]
fn voter_looked_up_in_recorded_set() {
    let (mut core, mut schema) = proposed();
    // the active set now holds validator 9 in place of validator 4
    core.actual_configuration.validator_keys[3].service_key = key(9);
    let r = vote(&mut core, &mut schema, 1, 9, 50);
    assert_eq!(code(&r), Some(ErrorCode::UnknownSender));
    // validator 4 was recorded with the proposal and keeps its slot
    assert!(vote(&mut core, &mut schema, 1, 4, 51).is_ok());
    assert!(matches!(ledger(&schema, 1)[3].0, Some(VotingDecision::Yea(_))));
    assert_eq!(schema.proposals[0].data.validator_keys[3].service_key, key(4));
}

#[test]
fn stale_proposal_rejects_recorded_voters_only() {
    let (mut core, mut schema) = proposed();
    core.actual_hash = digest(201);
    core.actual_configuration.validator_keys = validators(2);
    let outsider = vote(&mut core, &mut schema, 1, 7, 50);
    assert_eq!(code(&outsider), Some(ErrorCode::UnknownSender));
    let recorded = vote(&mut core, &mut schema, 1, 3, 51);
    assert_eq!(code(&recorded), Some(ErrorCode::InvalidConfigRef));
}

#[test]
fn ledger_root_recorded_and_cleared() {
    let (mut core, mut schema) = proposed();
    assert!(schema.proposals[0].data.votes_root.is_none());
    assert!(schema.set_votes_root(&digest(1), digest(77)));
    assert_eq!(schema.proposals[0].data.votes_root, Some(digest(77)));
    assert!(!schema.set_votes_root(&digest(2), digest(78)));
    assert!(vote_against(&core, &mut schema, 1, 2, 50).is_ok());
    assert!(schema.proposals[0].data.votes_root.is_none());
    assert!(schema.set_votes_root(&digest(1), digest(79)));
    let rejected = vote(&mut core, &mut schema, 1, 2, 51);
    assert_eq!(code(&rejected), Some(ErrorCode::AlreadyVoted));
    assert_eq!(schema.proposals[0].data.votes_root, Some(digest(79)));
}

#[test]
fn scheduled_error_carries_pending_config() {
    let (mut core, mut schema) = proposed();
    for author in 1..=3 {
        assert!(vote(&mut core, &mut schema, 1, author, 50 + author).is_ok());
    }
    let r = propose("d").execute(Ok(candidate(4, 11, None)), digest(2), key(4), &core, &mut schema);
    match r {
        Err(ServiceError::AlreadyScheduled(f)) => assert_eq!(f.actual_from, 10),
        other => panic!("unexpected {:?}", other),
    }
    let r = vote_against(&core, &mut schema, 1, 4, 60);
    assert!(matches!(r, Err(ServiceError::AlreadyScheduled(f)) if f.actual_from == 10));
}

#[test]
fn majority_override_bounded_by_active_validators() {
    // four validators in the candidate, one in force: the bound is 1 ..= 1
    let core = registry(1);
    let r = propose("c").check_config_candidate(&candidate(4, 10, Some(3)), &core);
    assert!(matches!(
        r,
        Err(ServiceError::InvalidMajorityCount { min: 1, max: 1, proposed: 3 })
    ));
    assert!(propose("c").check_config_candidate(&candidate(4, 10, Some(1)), &core).is_ok());
    // one validator in the candidate, four in force: 3 is within 3 ..= 4
    let core = registry(4);
    assert!(propose("c").check_config_candidate(&candidate(1, 10, Some(3)), &core).is_ok());
}

#[test]
fn scheduled_config_keeps_all_settings() {
    let (mut core, mut schema) = proposed();
    for author in 1..=3 {
        assert!(vote(&mut core, &mut schema, 1, author, 50 + author).is_ok());
    }
    let scheduled = core.following_configuration.unwrap();
    assert_eq!(scheduled.consensus, "{\"round_timeout\":3000}");
    assert_eq!(scheduled.services.len(), 1);
    assert_eq!(scheduled.services[0].name, "configuration");
}
