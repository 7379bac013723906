//! The three kinds of record that the registry keeps.

use vstd::prelude::*;
use vstd::utf8::encode_utf8;
use crate::key::Identity;
use crate::reputation::MAX_REPUTATION;

verus! {

/// The most bytes that a name may have.
pub const MAX_NAME_LEN: usize = 32;

/// The most bytes that a metadata URI may have.
pub const MAX_METADATA_URI_LEN: usize = 200;

/// The most skills that a profile may declare.
pub const MAX_SKILLS: usize = 10;

/// The most bytes that a skill may have.
pub const MAX_SKILL_LEN: usize = 32;

/// How many bytes a string takes, which is what its limit counts.
pub open spec fn byte_len(text: Seq<char>) -> nat {
    encode_utf8(text).len()
}

/// Counts the bytes of a string.
pub fn text_len(text: &str) -> (n: usize)
    ensures
        n == byte_len(text@),
{
    text.as_bytes().len()
}

/// The counters of the whole registry. There is one such record; it is
/// created once and never destroyed.
#[derive(Clone, Copy, Debug, PartialEq, Eq)]
pub struct RegistryStats {
    /// How many agents have registered.
    pub total_agents: u64,
    /// Kept for the record's layout; no operation changes it.
    pub total_endorsements: u64,
    /// Who created the counters. No operation asks for this identity.
    pub authority: Identity,
}

impl View for RegistryStats {
    type V = RegistryStats;

    open spec fn view(&self) -> RegistryStats {
        *self
    }
}

/// What an agent has published about itself, and what its peers think.
#[derive(Clone, Debug, PartialEq, Eq)]
pub struct AgentProfile {
    /// The owner: the one identity that may change the profile.
    pub wallet: Identity,
    /// At most 32 bytes; never changes.
    pub name: String,
    /// At most 200 bytes.
    pub metadata_uri: String,
    /// At most 10 skills, in the order in which the owner declared them.
    pub skills: Vec<String>,
    /// From 0 to 100.
    pub reputation: u8,
    /// How many endorsements stand for this agent.
    pub endorsements_received: u32,
    /// When the profile was created.
    pub registered_at: i64,
    /// When the owner last acted or was last endorsed.
    pub last_active: i64,
}

/// A profile as a mathematical value.
pub struct AgentProfileView {
    pub wallet: Identity,
    pub name: Seq<char>,
    pub metadata_uri: Seq<char>,
    pub skills: Seq<Seq<char>>,
    pub reputation: u8,
    pub endorsements_received: u32,
    pub registered_at: i64,
    pub last_active: i64,
}

impl View for AgentProfile {
    type V = AgentProfileView;

    open spec fn view(&self) -> AgentProfileView {
        AgentProfileView {
            wallet: self.wallet,
            name: self.name@,
            metadata_uri: self.metadata_uri@,
            skills: self.skills.deep_view(),
            reputation: self.reputation,
            endorsements_received: self.endorsements_received,
            registered_at: self.registered_at,
            last_active: self.last_active,
        }
    }
}

impl AgentProfileView {
    /// The limits that every stored profile keeps: the sizes of its texts,
    /// the number of its skills, and the scale of its reputation.
    pub open spec fn within_limits(self) -> bool {
        &&& byte_len(self.name) <= MAX_NAME_LEN
        &&& byte_len(self.metadata_uri) <= MAX_METADATA_URI_LEN
        &&& self.skills.len() <= MAX_SKILLS
        &&& self.reputation <= MAX_REPUTATION
    }

    /// Whether the profile declares the skill, letter for letter.
    pub open spec fn declares(self, skill: Seq<char>) -> bool {
        self.skills.contains(skill)
    }
}

/// One agent's word that another has a skill.
#[derive(Clone, Debug, PartialEq, Eq)]
pub struct Endorsement {
    /// Who gave the endorsement, and alone may revoke it.
    pub endorser: Identity,
    /// Whose skill it is.
    pub target: Identity,
    /// The endorsed skill.
    pub skill: String,
    /// When it was given.
    pub timestamp: i64,
}

/// An endorsement as a mathematical value.
pub struct EndorsementView {
    pub endorser: Identity,
    pub target: Identity,
    pub skill: Seq<char>,
    pub timestamp: i64,
}

impl View for Endorsement {
    type V = EndorsementView;

    open spec fn view(&self) -> EndorsementView {
        EndorsementView {
            endorser: self.endorser,
            target: self.target,
            skill: self.skill@,
            timestamp: self.timestamp,
        }
    }
}

/// Whether `skill` stands among `skills`, letter for letter.
pub fn declares_skill(skills: &Vec<String>, skill: &String) -> (declared: bool)
    ensures
        declared == skills.deep_view().contains(skill@),
{
    let mut i: usize = 0;
    while i < skills.len()
        invariant
            i <= skills@.len(),
            forall|j: int| 0 <= j < i ==> skills.deep_view()[j] != skill@,
        decreases skills@.len() - i,
    {
        if skills[i] == *skill {
            assert(skills.deep_view()[i as int] == skill@);
            return true;
        }
        i += 1;
    }
    false
}

} // verus!
