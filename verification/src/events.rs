//! What a successful operation reports to the audit log.
//!
//! Each operation that succeeds hands back one event; a rejected operation
//! hands back none.

use vstd::prelude::*;
use crate::key::Identity;

verus! {

/// A profile was created.
#[derive(Clone, Debug, PartialEq, Eq)]
pub struct AgentRegistered {
    pub wallet: Identity,
    pub name: String,
    pub timestamp: i64,
}

/// An owner changed its profile.
#[derive(Clone, Copy, Debug, PartialEq, Eq)]
pub struct ProfileUpdated {
    pub wallet: Identity,
    pub timestamp: i64,
}

/// An endorsement was given.
#[derive(Clone, Debug, PartialEq, Eq)]
pub struct SkillEndorsed {
    pub endorser: Identity,
    pub target: Identity,
    pub skill: String,
    pub timestamp: i64,
}

/// An endorsement was withdrawn.
#[derive(Clone, Debug, PartialEq, Eq)]
pub struct EndorsementRevoked {
    pub endorser: Identity,
    pub target: Identity,
    pub skill: String,
    pub timestamp: i64,
}

} // verus!
