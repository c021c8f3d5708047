//! Configurations, the Byzantine majority rule and the configuration registry.

use vstd::prelude::*;

use crate::primitives::{Digest, PublicKey};

verus! {

/// The keys of one validator.
#[derive(Clone, Copy, Debug)]
pub struct ValidatorKeys {
    pub consensus_key: PublicKey,
    pub service_key: PublicKey,
}

/// The settings of one service, as JSON text.
#[derive(Debug)]
pub struct ServiceSettings {
    pub name: String,
    pub settings: String,
}

/// A network configuration: its validators, the height from which it is in
/// force, the configuration it supersedes, the consensus settings and each
/// service's settings as JSON text, and the majority override that the
/// configuration service's own settings hold, if any.
#[derive(Debug)]
pub struct StoredConfiguration {
    pub previous_cfg_hash: Digest,
    pub actual_from: u64,
    pub validator_keys: Vec<ValidatorKeys>,
    pub consensus: String,
    pub services: Vec<ServiceSettings>,
    pub majority_count: Option<u16>,
}

/// The mathematical value of a configuration.
pub struct ConfigView {
    pub previous_cfg_hash: Digest,
    pub actual_from: u64,
    pub validator_keys: Seq<ValidatorKeys>,
    pub consensus: Seq<char>,
    pub services: Seq<ServiceSettings>,
    pub majority_count: Option<u16>,
}

impl View for StoredConfiguration {
    type V = ConfigView;

    open spec fn view(&self) -> ConfigView {
        ConfigView {
            previous_cfg_hash: self.previous_cfg_hash,
            actual_from: self.actual_from,
            validator_keys: self.validator_keys@,
            consensus: self.consensus@,
            services: self.services@,
            majority_count: self.majority_count,
        }
    }
}

/// A copy of a list of validators.
pub fn copy_validator_keys(v: &Vec<ValidatorKeys>) -> (r: Vec<ValidatorKeys>)
    ensures
        r@ == v@,
{
    let mut out: Vec<ValidatorKeys> = Vec::new();
    let mut i: usize = 0;
    while i < v.len()
        invariant
            i <= v.len(),
            out@ == v@.subrange(0, i as int),
        decreases v.len() - i,
    {
        out.push(v[i]);
        i += 1;
        assert(out@ =~= v@.subrange(0, i as int));
    }
    assert(v@.subrange(0, v.len() as int) =~= v@);
    out
}

fn copy_services(v: &Vec<ServiceSettings>) -> (r: Vec<ServiceSettings>)
    ensures
        r@ == v@,
{
    let mut out: Vec<ServiceSettings> = Vec::new();
    let mut i: usize = 0;
    while i < v.len()
        invariant
            i <= v.len(),
            out@ == v@.subrange(0, i as int),
        decreases v.len() - i,
    {
        out.push(ServiceSettings { name: v[i].name.clone(), settings: v[i].settings.clone() });
        i += 1;
        assert(out@ =~= v@.subrange(0, i as int));
    }
    assert(v@.subrange(0, v.len() as int) =~= v@);
    out
}

impl StoredConfiguration {
    /// A copy with the same value.
    pub fn duplicate(&self) -> (r: StoredConfiguration)
        ensures
            r@ == self@,
    {
        StoredConfiguration {
            previous_cfg_hash: self.previous_cfg_hash,
            actual_from: self.actual_from,
            validator_keys: copy_validator_keys(&self.validator_keys),
            consensus: self.consensus.clone(),
            services: copy_services(&self.services),
            majority_count: self.majority_count,
        }
    }
}

/// The least number of votes that a Byzantine-fault-tolerant decision among
/// `n` validators needs: the least integer above two thirds of `n`.
pub open spec fn byzantine_majority(n: int) -> int {
    n * 2 / 3 + 1
}

/// The Byzantine majority for `total` validators.
pub fn byzantine_majority_count(total: usize) -> (r: usize)
    ensures
        r as int == byzantine_majority(total as int),
{
    total / 3 * 2 + (total % 3) * 2 / 3 + 1
}

/// The configuration registry: the configuration in force, its hash, the
/// configuration scheduled to follow it if any, and the current height.
#[derive(Debug)]
pub struct CoreSchema {
    pub actual_configuration: StoredConfiguration,
    pub actual_hash: Digest,
    pub following_configuration: Option<StoredConfiguration>,
    pub height: u64,
}

impl CoreSchema {
    /// The height of the next block.
    pub open spec fn next_height(&self) -> int {
        self.height + 1
    }

    /// The validators of the configuration in force.
    pub open spec fn validators(&self) -> Seq<ValidatorKeys> {
        self.actual_configuration.validator_keys@
    }

    /// Schedules `cfg` to follow the configuration in force; does nothing
    /// where a configuration is already scheduled.
    pub fn commit_configuration(&mut self, cfg: StoredConfiguration)
        ensures
            final(self).actual_configuration == old(self).actual_configuration,
            final(self).actual_hash == old(self).actual_hash,
            final(self).height == old(self).height,
            old(self).following_configuration is Some ==> final(self).following_configuration
                == old(self).following_configuration,
            old(self).following_configuration is None ==> final(self).following_configuration
                == Some(cfg),
    {
        if self.following_configuration.is_none() {
            self.following_configuration = Some(cfg);
        }
    }
}

} // verus!
