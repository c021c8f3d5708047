//! Why a configuration transaction is rejected.

use vstd::prelude::*;

use crate::config::StoredConfiguration;
use crate::primitives::Digest;
use crate::transactions::Propose;

verus! {

/// The kind of a rejection, without its diagnostic data.
#[derive(Clone, Copy, Debug, PartialEq, Eq, Structural)]
pub enum ErrorCode {
    AlreadyScheduled,
    UnknownSender,
    InvalidConfig,
    InvalidConfigRef,
    ActivationInPast,
    InvalidMajorityCount,
    AlreadyProposed,
    UnknownConfigRef,
    AlreadyVoted,
}

/// A rejection of a configuration transaction, with its diagnostic data.
#[derive(Debug)]
pub enum ServiceError {
    /// A configuration is already scheduled; it is carried here.
    AlreadyScheduled(StoredConfiguration),
    /// The author is not a validator that may act here.
    UnknownSender,
    /// The payload is not a well-formed configuration; the parse error.
    InvalidConfig(String),
    /// The candidate does not supersede the configuration in force, carried here.
    InvalidConfigRef(StoredConfiguration),
    /// The candidate would come into force too early; the next height.
    ActivationInPast(u64),
    /// The majority override lies outside `min ..= max`.
    InvalidMajorityCount { min: usize, max: usize, proposed: usize },
    /// The same configuration was proposed before; that proposal.
    AlreadyProposed(Propose),
    /// No proposal has this configuration hash.
    UnknownConfigRef(Digest),
    /// The author has already voted on this proposal.
    AlreadyVoted,
}

impl ServiceError {
    pub open spec fn spec_code(&self) -> ErrorCode {
        match self {
            ServiceError::AlreadyScheduled(_) => ErrorCode::AlreadyScheduled,
            ServiceError::UnknownSender => ErrorCode::UnknownSender,
            ServiceError::InvalidConfig(_) => ErrorCode::InvalidConfig,
            ServiceError::InvalidConfigRef(_) => ErrorCode::InvalidConfigRef,
            ServiceError::ActivationInPast(_) => ErrorCode::ActivationInPast,
            ServiceError::InvalidMajorityCount { .. } => ErrorCode::InvalidMajorityCount,
            ServiceError::AlreadyProposed(_) => ErrorCode::AlreadyProposed,
            ServiceError::UnknownConfigRef(_) => ErrorCode::UnknownConfigRef,
            ServiceError::AlreadyVoted => ErrorCode::AlreadyVoted,
        }
    }

    /// The kind of this rejection.
    pub fn code(&self) -> (r: ErrorCode)
        ensures
            r == self.spec_code(),
    {
        match self {
            ServiceError::AlreadyScheduled(_) => ErrorCode::AlreadyScheduled,
            ServiceError::UnknownSender => ErrorCode::UnknownSender,
            ServiceError::InvalidConfig(_) => ErrorCode::InvalidConfig,
            ServiceError::InvalidConfigRef(_) => ErrorCode::InvalidConfigRef,
            ServiceError::ActivationInPast(_) => ErrorCode::ActivationInPast,
            ServiceError::InvalidMajorityCount { .. } => ErrorCode::InvalidMajorityCount,
            ServiceError::AlreadyProposed(_) => ErrorCode::AlreadyProposed,
            ServiceError::UnknownConfigRef(_) => ErrorCode::UnknownConfigRef,
            ServiceError::AlreadyVoted => ErrorCode::AlreadyVoted,
        }
    }
}

} // verus!
