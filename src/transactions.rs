//! The three configuration transactions and the rules that decide them.

use vstd::prelude::*;

use crate::config::{
    byzantine_majority, byzantine_majority_count, copy_validator_keys, ConfigView, CoreSchema,
    StoredConfiguration, ValidatorKeys,
};
use crate::errors::{ErrorCode, ServiceError};
use crate::primitives::{Digest, PublicKey, Signature};
use crate::schema::{consent_count, count_consent, MaybeVote, ProposalEntry, ProposeData, Schema, VotingDecision};

verus! {

/// The identifier under which the configuration service receives transactions.
pub const SERVICE_ID: u16 = 1;

/// Proposes a new configuration, given as a JSON payload.
#[derive(Debug)]
pub struct Propose {
    pub cfg: String,
}

/// Votes for the configuration with this hash.
#[derive(Clone, Copy, Debug)]
pub struct Vote {
    pub cfg_hash: Digest,
}

/// Votes against the configuration with this hash.
#[derive(Clone, Copy, Debug)]
pub struct VoteAgainst {
    pub cfg_hash: Digest,
}

/// The transactions of the configuration service.
#[derive(Debug)]
pub enum ConfigurationTransactions {
    Propose(Propose),
    Vote(Vote),
    VoteAgainst(VoteAgainst),
}

/// A transaction of the configuration service with its author and the
/// author's signature.
#[derive(Debug)]
pub struct Signed {
    pub author: PublicKey,
    pub service_id: u16,
    pub payload: ConfigurationTransactions,
    pub signature: Signature,
}

impl ConfigurationTransactions {
    /// The transaction that a signed message carries.
    pub fn from_raw(message: Signed) -> (r: ConfigurationTransactions)
        ensures
            r == message.payload,
    {
        message.payload
    }
}

impl VoteAgainst {
    /// The message of a vote against `cfg_hash` by `author`, with the
    /// author's signature over it.
    pub fn sign(author: &PublicKey, cfg_hash: &Digest, signature: Signature) -> (r: Signed)
        ensures
            r.author == *author,
            r.service_id == SERVICE_ID,
            r.payload == ConfigurationTransactions::VoteAgainst(VoteAgainst { cfg_hash: *cfg_hash }),
            r.signature == signature,
    {
        Signed {
            author: *author,
            service_id: SERVICE_ID,
            payload: ConfigurationTransactions::VoteAgainst(VoteAgainst { cfg_hash: *cfg_hash }),
            signature,
        }
    }
}

impl Vote {
    /// The message of a vote for `cfg_hash` by `author`, with the author's
    /// signature over it.
    pub fn sign(author: &PublicKey, cfg_hash: &Digest, signature: Signature) -> (r: Signed)
        ensures
            r.author == *author,
            r.service_id == SERVICE_ID,
            r.payload == ConfigurationTransactions::Vote(Vote { cfg_hash: *cfg_hash }),
            r.signature == signature,
    {
        Signed {
            author: *author,
            service_id: SERVICE_ID,
            payload: ConfigurationTransactions::Vote(Vote { cfg_hash: *cfg_hash }),
            signature,
        }
    }
}

impl Propose {
    /// The message of a proposal of `cfg` by `author`, with the author's
    /// signature over it.
    pub fn sign(author: &PublicKey, cfg: &str, signature: Signature) -> (r: Signed)
        ensures
            r.author == *author,
            r.service_id == SERVICE_ID,
            r.payload matches ConfigurationTransactions::Propose(p) && p.cfg@ == cfg@,
            r.signature == signature,
    {
        Signed {
            author: *author,
            service_id: SERVICE_ID,
            payload: ConfigurationTransactions::Propose(Propose { cfg: cfg.to_owned() }),
            signature,
        }
    }

    /// A copy with the same payload.
    pub fn duplicate(&self) -> (r: Propose)
        ensures
            r == *self,
    {
        Propose { cfg: self.cfg.clone() }
    }
}

/// Whether `i` is the first position of a validator whose service key is `key`.
pub open spec fn is_first_validator(keys: Seq<ValidatorKeys>, key: PublicKey, i: int) -> bool {
    &&& 0 <= i < keys.len()
    &&& keys[i].service_key == key
    &&& forall|j: int| 0 <= j < i ==> keys[j].service_key != key
}

/// Whether some validator has the service key `key`.
pub open spec fn is_validator(keys: Seq<ValidatorKeys>, key: PublicKey) -> bool {
    exists|i: int| 0 <= i < keys.len() && keys[i].service_key == key
}

/// The ordinal of the validator whose service key is `key`.
pub open spec fn validator_ordinal(keys: Seq<ValidatorKeys>, key: PublicKey) -> int {
    choose|i: int| is_first_validator(keys, key, i)
}

proof fn lemma_first_validator(keys: Seq<ValidatorKeys>, key: PublicKey, i: int)
    requires
        is_first_validator(keys, key, i),
    ensures
        is_validator(keys, key),
        validator_ordinal(keys, key) == i,
{
    let k = validator_ordinal(keys, key);
    assert(is_first_validator(keys, key, k));
    if k < i {
        assert(keys[k].service_key == key);
    }
    if i < k {
        assert(keys[i].service_key == key);
    }
}

/// The ordinal of `key` among the validators of the configuration in force.
pub fn validator_index(core: &CoreSchema, key: &PublicKey) -> (r: Option<usize>)
    ensures
        r is None <==> !is_validator(core.validators(), *key),
        r matches Some(i) ==> i == validator_ordinal(core.validators(), *key)
            && is_first_validator(core.validators(), *key, i as int),
{
    position_of_key(&core.actual_configuration.validator_keys, key)
}

/// The ordinal of `key` among `keys`.
pub fn position_of_key(keys: &Vec<ValidatorKeys>, key: &PublicKey) -> (r: Option<usize>)
    ensures
        r is None <==> !is_validator(keys@, *key),
        r matches Some(i) ==> i == validator_ordinal(keys@, *key) && is_first_validator(
            keys@,
            *key,
            i as int,
        ),
{
    let mut i: usize = 0;
    while i < keys.len()
        invariant
            i <= keys@.len(),
            forall|j: int| 0 <= j < i ==> keys@[j].service_key != *key,
        decreases keys.len() - i,
    {
        if keys[i].service_key == *key {
            proof {
                lemma_first_validator(keys@, *key, i as int);
            }
            return Some(i);
        }
        i += 1;
    }
    None
}

/// The number of yes-votes that a proposal needs under the configuration
/// `cfg` in force: its override where it has one, else the Byzantine majority.
pub open spec fn majority_for(cfg: ConfigView) -> int {
    match cfg.majority_count {
        Some(m) => m as int,
        None => byzantine_majority(cfg.validator_keys.len() as int),
    }
}

/// Whether the proposal with hash `cfg_hash` has enough yes-votes.
pub open spec fn has_enough_votes(core: &CoreSchema, schema: &Schema, cfg_hash: Digest) -> bool {
    count_consent(schema.ledger(cfg_hash)) >= majority_for(core.actual_configuration@)
}

/// Whether the proposal with hash `cfg_hash` has enough yes-votes to be scheduled.
pub fn enough_votes_to_commit(core: &CoreSchema, schema: &Schema, cfg_hash: &Digest) -> (r: bool)
    ensures
        r == has_enough_votes(core, schema, *cfg_hash),
{
    let votes_count: usize = match schema.votes_by_config_hash(cfg_hash) {
        Some(votes) => consent_count(votes),
        None => 0,
    };
    let majority_count: usize = match core.actual_configuration.majority_count {
        Some(m) => m as usize,
        None => byzantine_majority_count(core.actual_configuration.validator_keys.len()),
    };
    votes_count >= majority_count
}

/// Why `candidate` cannot follow the configuration in force, if it cannot.
/// A majority override is bounded by the number of validators in force.
pub open spec fn candidate_error(candidate: ConfigView, core: &CoreSchema) -> Option<ErrorCode> {
    let n = core.validators().len() as int;
    if candidate.previous_cfg_hash != core.actual_hash {
        Some(ErrorCode::InvalidConfigRef)
    } else if candidate.actual_from <= core.next_height() {
        Some(ErrorCode::ActivationInPast)
    } else if candidate.majority_count is Some && (candidate.majority_count->0 < byzantine_majority(n)
        || candidate.majority_count->0 > n) {
        Some(ErrorCode::InvalidMajorityCount)
    } else {
        None
    }
}

/// The diagnostic data that a rejection carries.
pub open spec fn error_detail(e: ServiceError, candidate: ConfigView, core: &CoreSchema) -> bool {
    match e {
        ServiceError::AlreadyScheduled(f) => core.following_configuration matches Some(g) && f@
            == g@,
        ServiceError::InvalidConfigRef(a) => a@ == core.actual_configuration@,
        ServiceError::ActivationInPast(h) => h == core.next_height(),
        ServiceError::InvalidMajorityCount { min, max, proposed } => {
            &&& min == byzantine_majority(core.validators().len() as int)
            &&& max == core.validators().len()
            &&& candidate.majority_count matches Some(m) && proposed == m
        },
        _ => true,
    }
}

/// Why a proposal with payload parsed as `parsed` and hash `cfg_hash` by
/// `author` is rejected, if it is; the first failing check decides.
pub open spec fn propose_error(
    core: &CoreSchema,
    schema: &Schema,
    author: PublicKey,
    parsed: Result<StoredConfiguration, String>,
    cfg_hash: Digest,
) -> Option<ErrorCode> {
    if core.following_configuration is Some {
        Some(ErrorCode::AlreadyScheduled)
    } else if !is_validator(core.validators(), author) {
        Some(ErrorCode::UnknownSender)
    } else {
        match parsed {
            Err(_) => Some(ErrorCode::InvalidConfig),
            Ok(c) => match candidate_error(c@, core) {
                Some(e) => Some(e),
                None => if schema.has_proposal(cfg_hash) {
                    Some(ErrorCode::AlreadyProposed)
                } else {
                    None
                },
            },
        }
    }
}

/// The diagnostic data of a rejected proposal.
pub open spec fn propose_error_detail(
    e: ServiceError,
    core: &CoreSchema,
    schema: &Schema,
    parsed: Result<StoredConfiguration, String>,
    cfg_hash: Digest,
) -> bool {
    &&& match parsed {
        Ok(c) => error_detail(e, c@, core),
        Err(m) => error_detail(e, core.actual_configuration@, core) && (e matches ServiceError::InvalidConfig(s) ==> s == m),
    }
    &&& (e matches ServiceError::AlreadyProposed(p) ==> p == schema.proposals@[schema.index_of(cfg_hash)].data.tx_propose)
}

/// `new` is `old` with one more proposal: `cfg` under `cfg_hash`, with an
/// empty ledger of `n` slots.
pub open spec fn proposal_appended(
    old: &Schema,
    new: &Schema,
    propose: &Propose,
    cfg: ConfigView,
    cfg_hash: Digest,
    keys: Seq<ValidatorKeys>,
) -> bool {
    let last = new.proposals@.last();
    let n = keys.len();
    &&& new.proposals@.len() == old.proposals@.len() + 1
    &&& forall|i: int| 0 <= i < old.proposals@.len() ==> new.proposals@[i] == old.proposals@[i]
    &&& last.cfg_hash == cfg_hash
    &&& last.data.tx_propose == *propose
    &&& last.data.config@ == cfg
    &&& last.data.num_validators == n
    &&& last.data.validator_keys@ == keys
    &&& last.data.votes_root is None
    &&& last.votes@.len() == n
    &&& forall|k: int| 0 <= k < n ==> (#[trigger] last.votes@[k]).0 is None
}

impl Propose {
    /// Checks that `candidate` can follow the configuration in force.
    pub fn check_config_candidate(&self, candidate: &StoredConfiguration, core: &CoreSchema) -> (r:
        Result<(), ServiceError>)
        requires
            core.height < u64::MAX,
        ensures
            r is Ok <==> candidate_error(candidate@, core) is None,
            r matches Err(e) ==> candidate_error(candidate@, core) == Some(e.spec_code())
                && error_detail(e, candidate@, core),
    {
        if candidate.previous_cfg_hash != core.actual_hash {
            return Err(ServiceError::InvalidConfigRef(core.actual_configuration.duplicate()));
        }
        let current_height = core.height + 1;
        if candidate.actual_from <= current_height {
            return Err(ServiceError::ActivationInPast(current_height));
        }
        if let Some(count) = candidate.majority_count {
            let proposed_majority_count = count as usize;
            let validators_num = core.actual_configuration.validator_keys.len();
            let min_votes_count = byzantine_majority_count(validators_num);
            if proposed_majority_count < min_votes_count || proposed_majority_count > validators_num {
                return Err(
                    ServiceError::InvalidMajorityCount {
                        min: min_votes_count,
                        max: validators_num,
                        proposed: proposed_majority_count,
                    },
                );
            }
        }
        Ok(())
    }

    /// Checks a proposal against the state, in order: nothing scheduled, the
    /// author a validator, the payload well-formed (`parsed`), the candidate
    /// able to follow the configuration in force, the hash not proposed yet.
    /// Returns the configuration and its hash.
    ///
    /// The caller passes as `parsed` the result of parsing `self.cfg` as a
    /// JSON configuration, and as `cfg_hash` the hash of the bytes of
    /// `self.cfg`; both are computed outside this library.
    pub fn precheck(
        &self,
        parsed: Result<StoredConfiguration, String>,
        cfg_hash: Digest,
        core: &CoreSchema,
        schema: &Schema,
        author: PublicKey,
    ) -> (r: Result<(StoredConfiguration, Digest), ServiceError>)
        requires
            core.height < u64::MAX,
        ensures
            r is Ok <==> propose_error(core, schema, author, parsed, cfg_hash) is None,
            r matches Ok((c, h)) ==> parsed == Ok::<StoredConfiguration, String>(c) && h == cfg_hash,
            r matches Err(e) ==> propose_error(core, schema, author, parsed, cfg_hash) == Some(
                e.spec_code(),
            ),
            r matches Err(e) ==> propose_error_detail(e, core, schema, parsed, cfg_hash),
    {
        if let Some(following) = &core.following_configuration {
            return Err(ServiceError::AlreadyScheduled(following.duplicate()));
        }
        if validator_index(core, &author).is_none() {
            return Err(ServiceError::UnknownSender);
        }
        let candidate = match parsed {
            Ok(c) => c,
            Err(m) => {
                return Err(ServiceError::InvalidConfig(m));
            },
        };
        match self.check_config_candidate(&candidate, core) {
            Ok(()) => {},
            Err(e) => {
                return Err(e);
            },
        }
        if let Some(old_propose) = schema.propose(&cfg_hash) {
            return Err(ServiceError::AlreadyProposed(old_propose.duplicate()));
        }
        Ok((candidate, cfg_hash))
    }

    /// Stores this proposal of `cfg` under `cfg_hash`, with the validators of
    /// the configuration in force and an empty ledger of one slot for each.
    pub fn save(&self, cfg: StoredConfiguration, cfg_hash: Digest, core: &CoreSchema, schema: &mut Schema)
        requires
            old(schema).wf(),
            !old(schema).has_proposal(cfg_hash),
        ensures
            final(schema).wf(),
            proposal_appended(old(schema), final(schema), self, cfg@, cfg_hash, core.validators()),
    {
        let num_validators = core.actual_configuration.validator_keys.len();
        let mut votes: Vec<MaybeVote> = Vec::new();
        let mut i: usize = 0;
        while i < num_validators
            invariant
                i <= num_validators,
                votes@.len() == i,
                forall|k: int| 0 <= k < i ==> (#[trigger] votes@[k]).0 is None,
            decreases num_validators - i,
        {
            votes.push(MaybeVote::none());
            i += 1;
        }
        let data = ProposeData {
            tx_propose: self.duplicate(),
            config: cfg,
            validator_keys: copy_validator_keys(&core.actual_configuration.validator_keys),
            num_validators: num_validators as u64,
            votes_root: None,
        };
        let ghost old_schema = *schema;
        schema.proposals.push(ProposalEntry { cfg_hash, data, votes });
        proof {
            assert forall|i: int, j: int|
                0 <= i < j < schema.proposals@.len() implies schema.proposals@[i].cfg_hash
                != schema.proposals@[j].cfg_hash by {
                if j == old_schema.proposals@.len() {
                    assert(old_schema.proposals@[i].cfg_hash != cfg_hash);
                }
            }
        }
    }

    /// Decides and applies a proposal by `author`. A rejected proposal changes
    /// nothing. As for `precheck`, `parsed` is the parse of `self.cfg` and
    /// `cfg_hash` the hash of its bytes.
    pub fn execute(
        &self,
        parsed: Result<StoredConfiguration, String>,
        cfg_hash: Digest,
        author: PublicKey,
        core: &CoreSchema,
        schema: &mut Schema,
    ) -> (r: Result<(), ServiceError>)
        requires
            old(schema).wf(),
            core.height < u64::MAX,
        ensures
            r is Ok <==> propose_error(core, old(schema), author, parsed, cfg_hash) is None,
            r matches Err(e) ==> propose_error(core, old(schema), author, parsed, cfg_hash) == Some(
                e.spec_code(),
            ),
            r matches Err(e) ==> propose_error_detail(e, core, old(schema), parsed, cfg_hash),
            r is Err ==> *final(schema) == *old(schema),
            final(schema).wf(),
            r is Ok ==> parsed is Ok && proposal_appended(
                old(schema),
                final(schema),
                self,
                parsed->Ok_0@,
                cfg_hash,
                core.validators(),
            ),
    {
        match self.precheck(parsed, cfg_hash, core, schema, author) {
            Ok((cfg, h)) => {
                self.save(cfg, h, core, schema);
                Ok(())
            },
            Err(e) => Err(e),
        }
    }
}

/// Why a vote by `author` on the proposal with hash `cfg_hash` is rejected,
/// if it is; the first failing check decides. The author is looked up among
/// the validators recorded with the proposal.
pub open spec fn vote_error(core: &CoreSchema, schema: &Schema, author: PublicKey, cfg_hash: Digest) -> Option<
    ErrorCode,
> {
    let ledger = schema.ledger(cfg_hash);
    let keys = schema.recorded_validators(cfg_hash);
    let k = validator_ordinal(keys, author);
    if core.following_configuration is Some {
        Some(ErrorCode::AlreadyScheduled)
    } else if !schema.has_proposal(cfg_hash) {
        Some(ErrorCode::UnknownConfigRef)
    } else if !is_validator(keys, author) || k >= ledger.len() {
        Some(ErrorCode::UnknownSender)
    } else if ledger[k].0 is Some {
        Some(ErrorCode::AlreadyVoted)
    } else {
        candidate_error(schema.proposals@[schema.index_of(cfg_hash)].data.config@, core)
    }
}

/// The configuration proposed under `cfg_hash`.
pub open spec fn proposed_config(schema: &Schema, cfg_hash: Digest) -> ConfigView {
    schema.proposals@[schema.index_of(cfg_hash)].data.config@
}

/// The diagnostic data of a rejected vote on the proposal with hash `cfg_hash`.
pub open spec fn vote_error_detail(e: ServiceError, core: &CoreSchema, schema: &Schema, cfg_hash: Digest) -> bool {
    &&& schema.has_proposal(cfg_hash) ==> error_detail(e, proposed_config(schema, cfg_hash), core)
    &&& (e matches ServiceError::AlreadyScheduled(f) ==> (core.following_configuration matches Some(g) && f@ == g@))
    &&& (e matches ServiceError::UnknownConfigRef(h) ==> h == cfg_hash)
}

/// `new` is `old` with `decision` written in the slot of `author` in the
/// ledger of the proposal with hash `cfg_hash`, its ledger root cleared until
/// the storage layer records the new one, and nothing else changed.
pub open spec fn vote_recorded(
    old: &Schema,
    new: &Schema,
    author: PublicKey,
    cfg_hash: Digest,
    decision: VotingDecision,
) -> bool {
    let i = old.index_of(cfg_hash);
    let k = validator_ordinal(old.recorded_validators(cfg_hash), author);
    let (a, b) = (old.proposals@[i], new.proposals@[i]);
    &&& new.proposals@.len() == old.proposals@.len()
    &&& forall|j: int|
        0 <= j < old.proposals@.len() && j != i ==> new.proposals@[j] == old.proposals@[j]
    &&& b.cfg_hash == a.cfg_hash
    &&& b.data.tx_propose == a.data.tx_propose
    &&& b.data.config == a.data.config
    &&& b.data.validator_keys == a.data.validator_keys
    &&& b.data.num_validators == a.data.num_validators
    &&& b.data.votes_root is None
    &&& b.votes@ == a.votes@.update(k, MaybeVote(Some(decision)))
}

/// A vote or a vote against, by `author`, on the proposal with hash `cfg_hash`.
#[derive(Debug)]
pub struct VotingContext {
    pub decision: VotingDecision,
    pub author: PublicKey,
    pub cfg_hash: Digest,
}

impl VotingContext {
    /// The context of `decision` by `author` on `cfg_hash`.
    pub fn new(decision: VotingDecision, author: PublicKey, cfg_hash: Digest) -> (r: VotingContext)
        ensures
            r.decision == decision,
            r.author == author,
            r.cfg_hash == cfg_hash,
    {
        VotingContext { author, decision, cfg_hash }
    }

    /// Checks a vote against the state, in order: nothing scheduled, the
    /// proposal known, the author among the validators recorded with it and
    /// with a slot in its ledger, the slot empty, and the proposed
    /// configuration still able to follow the configuration in force.
    /// Returns that configuration.
    pub fn precheck(&self, core: &CoreSchema, schema: &Schema) -> (r: Result<
        StoredConfiguration,
        ServiceError,
    >)
        requires
            core.height < u64::MAX,
        ensures
            r is Ok <==> vote_error(core, schema, self.author, self.cfg_hash) is None,
            r matches Ok(c) ==> c@ == proposed_config(schema, self.cfg_hash),
            r matches Err(e) ==> vote_error(core, schema, self.author, self.cfg_hash) == Some(
                e.spec_code(),
            ),
            r matches Err(e) ==> vote_error_detail(e, core, schema, self.cfg_hash),
    {
        if let Some(following) = &core.following_configuration {
            return Err(ServiceError::AlreadyScheduled(following.duplicate()));
        }
        let i = match schema.find(&self.cfg_hash) {
            Some(i) => i,
            None => {
                return Err(ServiceError::UnknownConfigRef(self.cfg_hash));
            },
        };
        let entry = &schema.proposals[i];
        match position_of_key(&entry.data.validator_keys, &self.author) {
            Some(k) => {
                if k >= entry.votes.len() {
                    return Err(ServiceError::UnknownSender);
                }
                if entry.votes[k].is_some() {
                    return Err(ServiceError::AlreadyVoted);
                }
            },
            None => {
                return Err(ServiceError::UnknownSender);
            },
        }
        match entry.data.tx_propose.check_config_candidate(&entry.data.config, core) {
            Ok(()) => {},
            Err(e) => {
                return Err(e);
            },
        }
        Ok(entry.data.config.duplicate())
    }

    /// Writes this decision in the author's slot of the proposal's ledger and
    /// clears the ledger's root, which no longer matches it.
    pub fn save(&self, core: &CoreSchema, schema: &mut Schema)
        requires
            old(schema).wf(),
            vote_error(core, old(schema), self.author, self.cfg_hash) is None,
        ensures
            final(schema).wf(),
            vote_recorded(old(schema), final(schema), self.author, self.cfg_hash, self.decision),
    {
        let i = match schema.find(&self.cfg_hash) {
            Some(i) => i,
            None => {
                return;
            },
        };
        let k = match position_of_key(&schema.proposals[i].data.validator_keys, &self.author) {
            Some(k) => k,
            None => {
                return;
            },
        };
        let ghost old_schema = *schema;
        schema.proposals[i].votes.set(k, MaybeVote::from_decision(self.decision));
        schema.proposals[i].data.votes_root = None;
        proof {
            assert forall|a: int, b: int|
                0 <= a < b < schema.proposals@.len() implies schema.proposals@[a].cfg_hash
                != schema.proposals@[b].cfg_hash by {
                assert(old_schema.proposals@[a].cfg_hash != old_schema.proposals@[b].cfg_hash);
            }
            assert forall|a: int| 0 <= a < schema.proposals@.len() implies schema.proposals@[a].votes@.len()
                == schema.proposals@[a].data.num_validators
                && schema.proposals@[a].data.validator_keys@.len()
                == schema.proposals@[a].data.num_validators by {
                assert(old_schema.proposals@[a].votes@.len() == old_schema.proposals@[a].data.num_validators);
                assert(old_schema.proposals@[a].data.validator_keys@.len() == old_schema.proposals@[a].data.num_validators);
            }
        }
    }
}

impl Vote {
    /// Decides and applies this vote by `author`, cast by the transaction with
    /// hash `tx_hash`. Once the proposal has enough yes-votes its
    /// configuration is scheduled. A rejected vote changes nothing.
    pub fn execute(&self, tx_hash: Digest, author: PublicKey, core: &mut CoreSchema, schema: &mut Schema) -> (r:
        Result<(), ServiceError>)
        requires
            old(schema).wf(),
            old(core).height < u64::MAX,
        ensures
            r is Ok <==> vote_error(old(core), old(schema), author, self.cfg_hash) is None,
            r matches Err(e) ==> vote_error(old(core), old(schema), author, self.cfg_hash) == Some(
                e.spec_code(),
            ),
            r matches Err(e) ==> vote_error_detail(e, old(core), old(schema), self.cfg_hash),
            r is Err ==> *final(schema) == *old(schema) && *final(core) == *old(core),
            final(schema).wf(),
            r is Ok ==> vote_recorded(
                old(schema),
                final(schema),
                author,
                self.cfg_hash,
                VotingDecision::Yea(tx_hash),
            ),
            final(core).actual_configuration == old(core).actual_configuration,
            final(core).actual_hash == old(core).actual_hash,
            final(core).height == old(core).height,
            (r is Ok && has_enough_votes(old(core), final(schema), self.cfg_hash)) ==> (final(core).following_configuration matches Some(c) && c@ == proposed_config(old(schema), self.cfg_hash)),
            !(r is Ok && has_enough_votes(old(core), final(schema), self.cfg_hash)) ==> final(core).following_configuration == old(core).following_configuration,
    {
        let vote = VotingContext::new(VotingDecision::Yea(tx_hash), author, self.cfg_hash);
        let parsed_config = match vote.precheck(core, schema) {
            Ok(c) => c,
            Err(e) => {
                return Err(e);
            },
        };
        vote.save(core, schema);
        if enough_votes_to_commit(core, schema, &self.cfg_hash) {
            core.commit_configuration(parsed_config);
        }
        Ok(())
    }
}

impl VoteAgainst {
    /// Decides and applies this vote against by `author`, cast by the
    /// transaction with hash `tx_hash`. It never schedules a configuration.
    /// A rejected vote changes nothing.
    pub fn execute(&self, tx_hash: Digest, author: PublicKey, core: &CoreSchema, schema: &mut Schema) -> (r:
        Result<(), ServiceError>)
        requires
            old(schema).wf(),
            core.height < u64::MAX,
        ensures
            r is Ok <==> vote_error(core, old(schema), author, self.cfg_hash) is None,
            r matches Err(e) ==> vote_error(core, old(schema), author, self.cfg_hash) == Some(
                e.spec_code(),
            ),
            r matches Err(e) ==> vote_error_detail(e, core, old(schema), self.cfg_hash),
            r is Err ==> *final(schema) == *old(schema),
            final(schema).wf(),
            r is Ok ==> vote_recorded(
                old(schema),
                final(schema),
                author,
                self.cfg_hash,
                VotingDecision::Nay(tx_hash),
            ),
    {
        let vote_against = VotingContext::new(VotingDecision::Nay(tx_hash), author, self.cfg_hash);
        match vote_against.precheck(core, schema) {
            Ok(_) => {},
            Err(e) => {
                return Err(e);
            },
        }
        vote_against.save(core, schema);
        Ok(())
    }
}

} // verus!
