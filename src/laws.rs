//! Properties of the governance rules that relate several transactions.

use vstd::prelude::*;

use crate::config::{CoreSchema, StoredConfiguration, ValidatorKeys};
use crate::errors::ErrorCode;
use crate::primitives::{Digest, PublicKey};
use crate::schema::{count_consent, MaybeVote, Schema, VotingDecision};
use crate::transactions::{
    is_first_validator, is_validator, propose_error, proposal_appended, proposed_config,
    validator_ordinal, vote_error, vote_recorded, Propose,
};

verus! {

/// While a configuration is scheduled, every proposal is rejected as
/// `AlreadyScheduled`, whatever its author, payload or hash.
pub proof fn lemma_scheduled_rejects_proposals(
    core: &CoreSchema,
    schema: &Schema,
    author: PublicKey,
    parsed: Result<StoredConfiguration, String>,
    cfg_hash: Digest,
)
    requires
        core.following_configuration is Some,
    ensures
        propose_error(core, schema, author, parsed, cfg_hash) == Some(ErrorCode::AlreadyScheduled),
{
}

/// While a configuration is scheduled, every vote, for or against, is
/// rejected as `AlreadyScheduled`.
pub proof fn lemma_scheduled_rejects_votes(
    core: &CoreSchema,
    schema: &Schema,
    author: PublicKey,
    cfg_hash: Digest,
)
    requires
        core.following_configuration is Some,
    ensures
        vote_error(core, schema, author, cfg_hash) == Some(ErrorCode::AlreadyScheduled),
{
}

/// Once a payload has been proposed, proposing the same payload again, by
/// the same or by another validator, is rejected as `AlreadyProposed`, and
/// the proposal that such a rejection carries is the first one.
pub proof fn lemma_second_proposal_rejected(
    core: &CoreSchema,
    before: &Schema,
    after: &Schema,
    first: &Propose,
    parsed: Result<StoredConfiguration, String>,
    cfg_hash: Digest,
    author: PublicKey,
    second_author: PublicKey,
)
    requires
        propose_error(core, before, author, parsed, cfg_hash) is None,
        proposal_appended(
            before,
            after,
            first,
            parsed->Ok_0@,
            cfg_hash,
            core.validators(),
        ),
        is_validator(core.validators(), second_author),
    ensures
        propose_error(core, after, second_author, parsed, cfg_hash) == Some(
            ErrorCode::AlreadyProposed,
        ),
        after.proposals@[after.index_of(cfg_hash)].data.tx_propose == *first,
{
    let last = after.proposals@.len() - 1;
    assert(after.proposals@[last].cfg_hash == cfg_hash);
    assert forall|j: int| 0 <= j < last implies after.proposals@[j].cfg_hash != cfg_hash by {
        assert(after.proposals@[j] == before.proposals@[j]);
    }
    assert(after.is_index_of(cfg_hash, last));
    after.lemma_index_of(cfg_hash, last);
}

/// Writing a decision into an empty slot adds one yes-vote to the tally if
/// the decision is a yes, and none otherwise.
pub proof fn lemma_count_after_vote(s: Seq<MaybeVote>, k: int, d: VotingDecision)
    requires
        0 <= k < s.len(),
        s[k].0 is None,
    ensures
        count_consent(s.update(k, MaybeVote(Some(d)))) == count_consent(s) + if d is Yea {
            1nat
        } else {
            0nat
        },
    decreases s.len(),
{
    let t = s.update(k, MaybeVote(Some(d)));
    if k == s.len() - 1 {
        assert(t.drop_last() =~= s.drop_last());
    } else {
        lemma_count_after_vote(s.drop_last(), k, d);
        assert(t.drop_last() =~= s.drop_last().update(k, MaybeVote(Some(d))));
    }
}

/// A vote against never adds to the yes-tally of a proposal.
pub proof fn lemma_vote_against_keeps_tally(
    core: &CoreSchema,
    before: &Schema,
    after: &Schema,
    author: PublicKey,
    cfg_hash: Digest,
    tx_hash: Digest,
)
    requires
        before.wf(),
        vote_error(core, before, author, cfg_hash) is None,
        vote_recorded(before, after, author, cfg_hash, VotingDecision::Nay(tx_hash)),
    ensures
        after.has_proposal(cfg_hash),
        count_consent(after.ledger(cfg_hash)) == count_consent(before.ledger(cfg_hash)),
{
    lemma_same_proposal(before, after, cfg_hash);
    lemma_validator_ordinal(before.recorded_validators(cfg_hash), author);
    let k = validator_ordinal(before.recorded_validators(cfg_hash), author);
    lemma_count_after_vote(before.ledger(cfg_hash), k, VotingDecision::Nay(tx_hash));
}

/// A vote for a proposal adds exactly one to its yes-tally.
pub proof fn lemma_vote_adds_one(
    core: &CoreSchema,
    before: &Schema,
    after: &Schema,
    author: PublicKey,
    cfg_hash: Digest,
    tx_hash: Digest,
)
    requires
        before.wf(),
        vote_error(core, before, author, cfg_hash) is None,
        vote_recorded(before, after, author, cfg_hash, VotingDecision::Yea(tx_hash)),
    ensures
        after.has_proposal(cfg_hash),
        count_consent(after.ledger(cfg_hash)) == count_consent(before.ledger(cfg_hash)) + 1,
{
    lemma_same_proposal(before, after, cfg_hash);
    lemma_validator_ordinal(before.recorded_validators(cfg_hash), author);
    let k = validator_ordinal(before.recorded_validators(cfg_hash), author);
    lemma_count_after_vote(before.ledger(cfg_hash), k, VotingDecision::Yea(tx_hash));
}

/// The ordinal of a validator is its first position.
proof fn lemma_validator_ordinal(keys: Seq<ValidatorKeys>, key: PublicKey)
    requires
        is_validator(keys, key),
    ensures
        is_first_validator(keys, key, validator_ordinal(keys, key)),
{
    let i = choose|i: int| 0 <= i < keys.len() && keys[i].service_key == key;
    lemma_first_key(keys, key, i);
}

proof fn lemma_first_key(keys: Seq<ValidatorKeys>, key: PublicKey, i: int)
    requires
        0 <= i < keys.len(),
        keys[i].service_key == key,
    ensures
        exists|k: int| is_first_validator(keys, key, k),
    decreases i,
{
    if exists|j: int| 0 <= j < i && keys[j].service_key == key {
        let j = choose|j: int| 0 <= j < i && keys[j].service_key == key;
        lemma_first_key(keys, key, j);
    } else {
        assert(is_first_validator(keys, key, i));
    }
}

/// After a vote is recorded the proposal stands where it stood.
proof fn lemma_same_proposal(before: &Schema, after: &Schema, cfg_hash: Digest)
    requires
        before.has_proposal(cfg_hash),
        after.proposals@.len() == before.proposals@.len(),
        forall|j: int|
            0 <= j < before.proposals@.len() ==> after.proposals@[j].cfg_hash
                == before.proposals@[j].cfg_hash,
    ensures
        after.has_proposal(cfg_hash),
        after.index_of(cfg_hash) == before.index_of(cfg_hash),
{
    let i0 = choose|i: int|
        0 <= i < before.proposals@.len() && before.proposals@[i].cfg_hash == cfg_hash;
    let i = before.index_of(cfg_hash);
    assert(before.is_index_of(cfg_hash, i)) by {
        lemma_least_index(before, cfg_hash, i0);
    }
    assert(after.is_index_of(cfg_hash, i));
    after.lemma_index_of(cfg_hash, i);
}

/// Where a proposal exists, a first position of its hash exists.
proof fn lemma_least_index(schema: &Schema, cfg_hash: Digest, i: int)
    requires
        0 <= i < schema.proposals@.len(),
        schema.proposals@[i].cfg_hash == cfg_hash,
    ensures
        exists|k: int| schema.is_index_of(cfg_hash, k),
    decreases i,
{
    if exists|j: int| 0 <= j < i && schema.proposals@[j].cfg_hash == cfg_hash {
        let j = choose|j: int| 0 <= j < i && schema.proposals@[j].cfg_hash == cfg_hash;
        lemma_least_index(schema, cfg_hash, j);
    } else {
        assert(schema.is_index_of(cfg_hash, i));
    }
}

/// A validator that has voted on a proposal, for or against, cannot vote on
/// it again: while nothing is scheduled, a second vote is rejected as
/// `AlreadyVoted`.
pub proof fn lemma_second_vote_rejected(
    core: &CoreSchema,
    core_after: &CoreSchema,
    before: &Schema,
    after: &Schema,
    author: PublicKey,
    cfg_hash: Digest,
    decision: VotingDecision,
)
    requires
        before.wf(),
        vote_error(core, before, author, cfg_hash) is None,
        vote_recorded(before, after, author, cfg_hash, decision),
        core_after.following_configuration is None,
    ensures
        vote_error(core_after, after, author, cfg_hash) == Some(ErrorCode::AlreadyVoted),
{
    lemma_same_proposal(before, after, cfg_hash);
    lemma_validator_ordinal(before.recorded_validators(cfg_hash), author);
}

/// A proposal whose predecessor is no longer the configuration in force is
/// stale: while nothing is scheduled, a vote on it by a recorded validator
/// with an empty slot is rejected as `InvalidConfigRef`, though the proposal
/// is still stored.
pub proof fn lemma_stale_proposal_rejects_votes(
    core: &CoreSchema,
    schema: &Schema,
    author: PublicKey,
    cfg_hash: Digest,
)
    requires
        schema.wf(),
        core.following_configuration is None,
        schema.has_proposal(cfg_hash),
        is_validator(schema.recorded_validators(cfg_hash), author),
        schema.ledger(cfg_hash)[validator_ordinal(schema.recorded_validators(cfg_hash), author)].0 is None,
        proposed_config(schema, cfg_hash).previous_cfg_hash != core.actual_hash,
    ensures
        vote_error(core, schema, author, cfg_hash) == Some(ErrorCode::InvalidConfigRef),
{
    let i0 = choose|i: int|
        0 <= i < schema.proposals@.len() && schema.proposals@[i].cfg_hash == cfg_hash;
    lemma_least_index(schema, cfg_hash, i0);
    lemma_validator_ordinal(schema.recorded_validators(cfg_hash), author);
}

} // verus!
