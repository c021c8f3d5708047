//! The configuration service's storage: proposals keyed by configuration
//! hash, in the order of submission, each with its ledger of vote slots.
//!
//! The store is held in plain vectors: the position of a proposal is its
//! ordinal, and a lookup by hash is a scan. The merkle root of each ledger is
//! not computed here; the storage layer computes it and records it with
//! `Schema::set_votes_root`.

use vstd::prelude::*;

use crate::config::{StoredConfiguration, ValidatorKeys};
use crate::primitives::Digest;
use crate::transactions::Propose;

verus! {

/// A decision of one validator, with the hash of the transaction that cast it.
#[derive(Clone, Copy, Debug)]
pub enum VotingDecision {
    Yea(Digest),
    Nay(Digest),
}

/// One slot of a vote ledger: empty, or the decision cast.
#[derive(Clone, Copy, Debug)]
pub struct MaybeVote(pub Option<VotingDecision>);

impl MaybeVote {
    pub open spec fn spec_is_consent(&self) -> bool {
        self.0 matches Some(VotingDecision::Yea(_))
    }

    /// An empty slot.
    pub fn none() -> (r: MaybeVote)
        ensures
            r.0 is None,
    {
        MaybeVote(None)
    }

    /// A slot that holds `decision`.
    pub fn from_decision(decision: VotingDecision) -> (r: MaybeVote)
        ensures
            r.0 == Some(decision),
    {
        MaybeVote(Some(decision))
    }

    /// Whether a decision was cast.
    pub fn is_some(&self) -> (r: bool)
        ensures
            r == self.0 is Some,
    {
        self.0.is_some()
    }

    /// Whether the decision cast is a yes.
    pub fn is_consent(&self) -> (r: bool)
        ensures
            r == self.spec_is_consent(),
    {
        match self.0 {
            Some(VotingDecision::Yea(_)) => true,
            _ => false,
        }
    }
}

/// The number of yes-votes in a ledger.
pub open spec fn count_consent(s: Seq<MaybeVote>) -> nat
    decreases s.len(),
{
    if s.len() == 0 {
        0
    } else {
        count_consent(s.drop_last()) + if s.last().spec_is_consent() {
            1nat
        } else {
            0nat
        }
    }
}

/// The yes-votes in `votes`.
pub fn consent_count(votes: &Vec<MaybeVote>) -> (r: usize)
    ensures
        r == count_consent(votes@),
{
    let mut n: usize = 0;
    let mut i: usize = 0;
    while i < votes.len()
        invariant
            i <= votes.len(),
            n == count_consent(votes@.subrange(0, i as int)),
            n <= i,
        decreases votes.len() - i,
    {
        assert(votes@.subrange(0, i + 1).drop_last() =~= votes@.subrange(0, i as int));
        if votes[i].is_consent() {
            n += 1;
        }
        i += 1;
    }
    assert(votes@.subrange(0, votes.len() as int) =~= votes@);
    n
}

/// What is stored of a proposal: the transaction, the configuration that its
/// payload holds, the validators in force when it was submitted and their
/// number, and the merkle root of its vote ledger. The root is computed by
/// the storage layer: it is `None` from each change of the ledger until
/// that layer records it.
#[derive(Debug)]
pub struct ProposeData {
    pub tx_propose: Propose,
    pub config: StoredConfiguration,
    pub validator_keys: Vec<ValidatorKeys>,
    pub num_validators: u64,
    pub votes_root: Option<Digest>,
}

/// A proposal under its configuration hash, with its vote ledger.
#[derive(Debug)]
pub struct ProposalEntry {
    pub cfg_hash: Digest,
    pub data: ProposeData,
    pub votes: Vec<MaybeVote>,
}

/// All proposals, in the order of submission.
#[derive(Debug)]
pub struct Schema {
    pub proposals: Vec<ProposalEntry>,
}

impl Schema {
    /// No two proposals share a hash, and each ledger has one slot for each
    /// validator recorded at submission.
    pub open spec fn wf(&self) -> bool {
        &&& forall|i: int, j: int|
            0 <= i < j < self.proposals@.len() ==> self.proposals@[i].cfg_hash
                != self.proposals@[j].cfg_hash
        &&& forall|i: int|
            0 <= i < self.proposals@.len() ==> self.proposals@[i].votes@.len()
                == self.proposals@[i].data.num_validators
                && self.proposals@[i].data.validator_keys@.len()
                == self.proposals@[i].data.num_validators
    }

    /// The validators recorded with the proposal with hash `cfg_hash`.
    pub open spec fn recorded_validators(&self, cfg_hash: Digest) -> Seq<ValidatorKeys> {
        self.proposals@[self.index_of(cfg_hash)].data.validator_keys@
    }

    pub open spec fn is_index_of(&self, cfg_hash: Digest, i: int) -> bool {
        &&& 0 <= i < self.proposals@.len()
        &&& self.proposals@[i].cfg_hash == cfg_hash
        &&& forall|j: int| 0 <= j < i ==> self.proposals@[j].cfg_hash != cfg_hash
    }

    pub open spec fn has_proposal(&self, cfg_hash: Digest) -> bool {
        exists|i: int| 0 <= i < self.proposals@.len() && self.proposals@[i].cfg_hash == cfg_hash
    }

    /// The position of the proposal with hash `cfg_hash`.
    pub open spec fn index_of(&self, cfg_hash: Digest) -> int {
        choose|i: int| self.is_index_of(cfg_hash, i)
    }

    /// The ledger of the proposal with hash `cfg_hash`, empty where there is none.
    pub open spec fn ledger(&self, cfg_hash: Digest) -> Seq<MaybeVote> {
        if self.has_proposal(cfg_hash) {
            self.proposals@[self.index_of(cfg_hash)].votes@
        } else {
            Seq::empty()
        }
    }

    pub proof fn lemma_index_of(&self, cfg_hash: Digest, i: int)
        requires
            self.is_index_of(cfg_hash, i),
        ensures
            self.has_proposal(cfg_hash),
            self.index_of(cfg_hash) == i,
    {
        let k = self.index_of(cfg_hash);
        assert(self.is_index_of(cfg_hash, k));
        if k < i {
            assert(self.proposals@[k].cfg_hash == cfg_hash);
        }
        if i < k {
            assert(self.proposals@[i].cfg_hash == cfg_hash);
        }
    }

    /// An empty store.
    pub fn new() -> (r: Schema)
        ensures
            r.proposals@.len() == 0,
            r.wf(),
    {
        Schema { proposals: Vec::new() }
    }

    /// Whether the store is well formed.
    pub fn is_well_formed(&self) -> (r: bool)
        ensures
            r == self.wf(),
    {
        let n = self.proposals.len();
        let mut i: usize = 0;
        while i < n
            invariant
                n == self.proposals@.len(),
                i <= n,
                forall|a: int|
                    0 <= a < i ==> self.proposals@[a].votes@.len()
                        == self.proposals@[a].data.num_validators
                        && self.proposals@[a].data.validator_keys@.len()
                        == self.proposals@[a].data.num_validators,
                forall|a: int, b: int|
                    0 <= a < i && a < b < n ==> self.proposals@[a].cfg_hash
                        != self.proposals@[b].cfg_hash,
            decreases n - i,
        {
            if self.proposals[i].votes.len() as u64 != self.proposals[i].data.num_validators {
                return false;
            }
            if self.proposals[i].data.validator_keys.len() as u64
                != self.proposals[i].data.num_validators {
                return false;
            }
            let mut j: usize = i + 1;
            while j < n
                invariant
                    n == self.proposals@.len(),
                    i < n,
                    i < j <= n,
                    forall|b: int|
                        i < b < j ==> self.proposals@[i as int].cfg_hash
                            != self.proposals@[b].cfg_hash,
                decreases n - j,
            {
                if self.proposals[i].cfg_hash == self.proposals[j].cfg_hash {
                    return false;
                }
                j += 1;
            }
            i += 1;
        }
        true
    }

    /// The position of the proposal with hash `cfg_hash`, if any.
    pub fn find(&self, cfg_hash: &Digest) -> (r: Option<usize>)
        ensures
            r is None <==> !self.has_proposal(*cfg_hash),
            r matches Some(i) ==> self.is_index_of(*cfg_hash, i as int) && self.index_of(*cfg_hash)
                == i,
    {
        let mut i: usize = 0;
        while i < self.proposals.len()
            invariant
                i <= self.proposals@.len(),
                forall|j: int| 0 <= j < i ==> self.proposals@[j].cfg_hash != *cfg_hash,
            decreases self.proposals.len() - i,
        {
            if self.proposals[i].cfg_hash == *cfg_hash {
                proof {
                    self.lemma_index_of(*cfg_hash, i as int);
                }
                return Some(i);
            }
            i += 1;
        }
        None
    }

    /// The proposal with hash `cfg_hash`, if any.
    pub fn propose(&self, cfg_hash: &Digest) -> (r: Option<&Propose>)
        ensures
            r is None <==> !self.has_proposal(*cfg_hash),
            r matches Some(p) ==> *p == self.proposals@[self.index_of(*cfg_hash)].data.tx_propose,
    {
        match self.find(cfg_hash) {
            Some(i) => Some(&self.proposals[i].data.tx_propose),
            None => None,
        }
    }

    /// The vote ledger of the proposal with hash `cfg_hash`, if any.
    pub fn votes_by_config_hash(&self, cfg_hash: &Digest) -> (r: Option<&Vec<MaybeVote>>)
        ensures
            r is None <==> !self.has_proposal(*cfg_hash),
            r matches Some(v) ==> v@ == self.ledger(*cfg_hash),
    {
        match self.find(cfg_hash) {
            Some(i) => Some(&self.proposals[i].votes),
            None => None,
        }
    }

    /// The hash of the proposal submitted in position `ordinal`.
    pub fn config_hash_by_ordinal(&self, ordinal: usize) -> (r: Option<Digest>)
        ensures
            ordinal < self.proposals@.len() ==> r == Some(self.proposals@[ordinal as int].cfg_hash),
            ordinal >= self.proposals@.len() ==> r is None,
    {
        if ordinal < self.proposals.len() {
            Some(self.proposals[ordinal].cfg_hash)
        } else {
            None
        }
    }

    /// Records `root` as the merkle root of the ledger of the proposal with
    /// hash `cfg_hash`; returns whether there is such a proposal.
    pub fn set_votes_root(&mut self, cfg_hash: &Digest, root: Digest) -> (r: bool)
        ensures
            r == old(self).has_proposal(*cfg_hash),
            !r ==> *final(self) == *old(self),
            r ==> {
                let i = old(self).index_of(*cfg_hash);
                &&& final(self).proposals@.len() == old(self).proposals@.len()
                &&& forall|j: int|
                    0 <= j < old(self).proposals@.len() && j != i ==> final(self).proposals@[j]
                        == old(self).proposals@[j]
                &&& final(self).proposals@[i].cfg_hash == old(self).proposals@[i].cfg_hash
                &&& final(self).proposals@[i].votes == old(self).proposals@[i].votes
                &&& final(self).proposals@[i].data.tx_propose == old(self).proposals@[i].data.tx_propose
                &&& final(self).proposals@[i].data.config == old(self).proposals@[i].data.config
                &&& final(self).proposals@[i].data.validator_keys == old(self).proposals@[i].data.validator_keys
                &&& final(self).proposals@[i].data.num_validators == old(self).proposals@[i].data.num_validators
                &&& final(self).proposals@[i].data.votes_root == Some(root)
            },
            old(self).wf() ==> final(self).wf(),
    {
        match self.find(cfg_hash) {
            Some(i) => {
                let ghost before = *self;
                self.proposals[i].data.votes_root = Some(root);
                proof {
                    assert forall|a: int, b: int|
                        0 <= a < b < self.proposals@.len() implies self.proposals@[a].cfg_hash
                        == before.proposals@[a].cfg_hash && self.proposals@[b].cfg_hash
                        == before.proposals@[b].cfg_hash by {}
                }
                true
            },
            None => false,
        }
    }

    /// The number of proposals submitted.
    pub fn len(&self) -> (r: usize)
        ensures
            r == self.proposals@.len(),
    {
        self.proposals.len()
    }
}

} // verus!
