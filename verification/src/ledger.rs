//! The whole state of the registry: its counters, profiles and endorsements.

use vstd::prelude::*;
use crate::key::Address;
use crate::state::AgentProfile;
use crate::state::AgentProfileView;
use crate::state::Endorsement;
use crate::state::EndorsementView;
use crate::state::RegistryStats;
use crate::store::RecordStore;

verus! {

/// The records of the registry, each kind in a store of its own.
///
/// A ledger starts empty and changes only through the operations of this
/// crate, each of which either takes effect as a whole or changes nothing.
pub struct Ledger {
    pub(crate) stats: RecordStore<RegistryStats>,
    pub(crate) profiles: RecordStore<AgentProfile>,
    pub(crate) endorsements: RecordStore<Endorsement>,
}

/// A ledger as a mathematical value: three maps from address to record.
pub struct LedgerView {
    pub stats: Map<Address, RegistryStats>,
    pub profiles: Map<Address, AgentProfileView>,
    pub endorsements: Map<Address, EndorsementView>,
}

impl LedgerView {
    /// Every profile keeps its limits; in particular every reputation lies
    /// between 0 and 100.
    pub open spec fn wf(self) -> bool {
        forall|a: Address| #[trigger]
            self.profiles.contains_key(a) ==> self.profiles[a].within_limits()
    }

    /// The counters at the address, if they exist.
    pub open spec fn stats_at(self, a: Address) -> Option<RegistryStats> {
        if self.stats.contains_key(a) {
            Some(self.stats[a])
        } else {
            None
        }
    }

    /// The profile at the address, if one exists.
    pub open spec fn profile_at(self, a: Address) -> Option<AgentProfileView> {
        if self.profiles.contains_key(a) {
            Some(self.profiles[a])
        } else {
            None
        }
    }

    /// The endorsement at the address, if one exists.
    pub open spec fn endorsement_at(self, a: Address) -> Option<EndorsementView> {
        if self.endorsements.contains_key(a) {
            Some(self.endorsements[a])
        } else {
            None
        }
    }

    /// The ledger without any record.
    pub open spec fn empty() -> LedgerView {
        LedgerView { stats: Map::empty(), profiles: Map::empty(), endorsements: Map::empty() }
    }
}

/// What a reading of counters found, as a mathematical value.
pub open spec fn view_of_stats(found: Option<&RegistryStats>) -> Option<RegistryStats> {
    match found {
        Some(stats) => Some(*stats),
        None => None,
    }
}

/// What a reading of a profile found, as a mathematical value.
pub open spec fn view_of_profile(found: Option<&AgentProfile>) -> Option<AgentProfileView> {
    match found {
        Some(profile) => Some(profile@),
        None => None,
    }
}

/// What a reading of an endorsement found, as a mathematical value.
pub open spec fn view_of_endorsement(found: Option<&Endorsement>) -> Option<EndorsementView> {
    match found {
        Some(endorsement) => Some(endorsement@),
        None => None,
    }
}

impl View for Ledger {
    type V = LedgerView;

    open(crate) spec fn view(&self) -> LedgerView {
        LedgerView {
            stats: self.stats@,
            profiles: self.profiles@,
            endorsements: self.endorsements@,
        }
    }
}

impl Ledger {
    /// A ledger without any record.
    pub fn new() -> (ledger: Ledger)
        ensures
            ledger@ == LedgerView::empty(),
            ledger@.wf(),
    {
        Ledger {
            stats: RecordStore::new(),
            profiles: RecordStore::new(),
            endorsements: RecordStore::new(),
        }
    }

    /// The counters at the address, if they exist.
    pub fn stats(&self, address: &Address) -> (found: Option<&RegistryStats>)
        ensures
            view_of_stats(found) == self@.stats_at(*address),
    {
        self.stats.read(address)
    }

    /// The profile at the address, if one exists.
    pub fn profile(&self, address: &Address) -> (found: Option<&AgentProfile>)
        ensures
            view_of_profile(found) == self@.profile_at(*address),
    {
        self.profiles.read(address)
    }

    /// The endorsement at the address, if one exists.
    pub fn endorsement(&self, address: &Address) -> (found: Option<&Endorsement>)
        ensures
            view_of_endorsement(found) == self@.endorsement_at(*address),
    {
        self.endorsements.read(address)
    }
}

} // verus!
