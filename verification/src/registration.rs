//! Setting up the registry's counters and registering agents.

use vstd::prelude::*;
use crate::addressing::agent_address;
use crate::addressing::locate_agent;
use crate::addressing::locate_registry;
use crate::addressing::registry_address;
use crate::error::AgentVaultError;
use crate::events::AgentRegistered;
use crate::history::step;
use crate::history::Operation;
use crate::key::Address;
use crate::key::Identity;
use crate::ledger::Ledger;
use crate::ledger::LedgerView;
use crate::reputation::BASE_REPUTATION;
use crate::state::byte_len;
use crate::state::text_len;
use crate::state::AgentProfile;
use crate::state::AgentProfileView;
use crate::state::RegistryStats;
use crate::state::MAX_METADATA_URI_LEN;
use crate::state::MAX_NAME_LEN;
use crate::state::MAX_SKILLS;

verus! {

/// Who sets up the registry, and where its counters will live.
#[derive(Clone, Copy, Debug)]
pub struct InitializeRegistry {
    /// Where the counters will live.
    pub registry_stats: Address,
    /// The caller.
    pub authority: Identity,
}

/// Who registers, and the records that this touches.
#[derive(Clone, Copy, Debug)]
pub struct RegisterAgent {
    /// Where the profile will live.
    pub agent_profile: Address,
    /// Where the registry's counters live.
    pub registry_stats: Address,
    /// The caller, who will own the profile.
    pub owner: Identity,
}

impl InitializeRegistry {
    /// The records of a set-up by `authority` under the program; nothing
    /// where the address of the counters cannot be derived.
    pub open spec fn resolved(program: Identity, authority: Identity) -> Option<InitializeRegistry> {
        match registry_address(program) {
            Some(registry_stats) => Some(InitializeRegistry { registry_stats, authority }),
            None => None,
        }
    }

    /// Derives the address of the counters.
    pub fn resolve(program: &Identity, authority: Identity) -> (ctx: Option<InitializeRegistry>)
        ensures
            ctx == Self::resolved(*program, authority),
    {
        match locate_registry(program) {
            Some(registry_stats) => Some(InitializeRegistry { registry_stats, authority }),
            None => None,
        }
    }
}

impl RegisterAgent {
    /// The records of a registration of `owner` under the program; nothing
    /// where one of the two addresses cannot be derived.
    pub open spec fn resolved(program: Identity, owner: Identity) -> Option<RegisterAgent> {
        match (agent_address(program, owner), registry_address(program)) {
            (Some(agent_profile), Some(registry_stats)) => Some(
                RegisterAgent { agent_profile, registry_stats, owner },
            ),
            _ => None,
        }
    }

    /// Derives the addresses of the records of a registration.
    pub fn resolve(program: &Identity, owner: Identity) -> (ctx: Option<RegisterAgent>)
        ensures
            ctx == Self::resolved(*program, owner),
    {
        let agent_profile = locate_agent(program, &owner);
        let registry_stats = locate_registry(program);
        match (agent_profile, registry_stats) {
            (Some(agent_profile), Some(registry_stats)) => Some(
                RegisterAgent { agent_profile, registry_stats, owner },
            ),
            _ => None,
        }
    }
}

/// Why a set-up is rejected, if it is: the counters exist already.
pub open spec fn initialize_registry_rejection(s: LedgerView, ctx: InitializeRegistry) -> Option<
    AgentVaultError,
> {
    if s.stats.contains_key(ctx.registry_stats) {
        Some(AgentVaultError::AlreadyInitialized)
    } else {
        None
    }
}

/// The counters of a registry that was just set up.
pub open spec fn fresh_stats(authority: Identity) -> RegistryStats {
    RegistryStats { total_agents: 0, total_endorsements: 0, authority }
}

/// The ledger after a set-up that is not rejected: both counters are 0.
pub open spec fn initialize_registry_effect(s: LedgerView, ctx: InitializeRegistry) -> LedgerView {
    LedgerView { stats: s.stats.insert(ctx.registry_stats, fresh_stats(ctx.authority)), ..s }
}

/// Why what an agent says of itself is refused, if it is. The checks are
/// made in this order, and the first that fails decides. The length of each
/// skill is not among them.
pub open spec fn registration_refusal(
    name: Seq<char>,
    metadata_uri: Seq<char>,
    skills: Seq<Seq<char>>,
) -> Option<AgentVaultError> {
    if byte_len(name) > MAX_NAME_LEN {
        Some(AgentVaultError::NameTooLong)
    } else if byte_len(metadata_uri) > MAX_METADATA_URI_LEN {
        Some(AgentVaultError::MetadataUriTooLong)
    } else if skills.len() > MAX_SKILLS {
        Some(AgentVaultError::TooManySkills)
    } else {
        None
    }
}

/// Why a registration is rejected, if it is: for one of the reasons of
/// [`registration_refusal`], or else because the owner has a profile
/// already, or else because the registry has no counters yet.
pub open spec fn register_agent_rejection(
    s: LedgerView,
    ctx: RegisterAgent,
    name: Seq<char>,
    metadata_uri: Seq<char>,
    skills: Seq<Seq<char>>,
) -> Option<AgentVaultError> {
    let refusal = registration_refusal(name, metadata_uri, skills);
    if refusal is Some {
        refusal
    } else if s.profiles.contains_key(ctx.agent_profile) {
        Some(AgentVaultError::AlreadyRegistered)
    } else if !s.stats.contains_key(ctx.registry_stats) {
        Some(AgentVaultError::RecordNotFound)
    } else {
        None
    }
}

/// The profile of an agent that was just registered: reputation 50 and no
/// endorsement.
pub open spec fn fresh_profile(
    owner: Identity,
    name: Seq<char>,
    metadata_uri: Seq<char>,
    skills: Seq<Seq<char>>,
    now: i64,
) -> AgentProfileView {
    AgentProfileView {
        wallet: owner,
        name,
        metadata_uri,
        skills,
        reputation: BASE_REPUTATION,
        endorsements_received: 0,
        registered_at: now,
        last_active: now,
    }
}

/// The counters after one more agent registered; the count stops at the top
/// of `u64`.
pub open spec fn counted(stats: RegistryStats) -> RegistryStats {
    RegistryStats {
        total_agents: if stats.total_agents < u64::MAX {
            (stats.total_agents + 1) as u64
        } else {
            stats.total_agents
        },
        ..stats
    }
}

/// The ledger after a registration that is not rejected: the profile exists
/// and the registry counts one agent more.
pub open spec fn register_agent_effect(
    s: LedgerView,
    ctx: RegisterAgent,
    name: Seq<char>,
    metadata_uri: Seq<char>,
    skills: Seq<Seq<char>>,
    now: i64,
) -> LedgerView {
    LedgerView {
        stats: s.stats.insert(ctx.registry_stats, counted(s.stats[ctx.registry_stats])),
        profiles: s.profiles.insert(
            ctx.agent_profile,
            fresh_profile(ctx.owner, name, metadata_uri, skills, now),
        ),
        endorsements: s.endorsements,
    }
}

/// Decides whether a profile may say this of its agent.
pub fn validate_registration(
    name: &String,
    metadata_uri: &String,
    skills: &Vec<String>,
) -> (verdict: Result<(), AgentVaultError>)
    ensures
        (match verdict {
            Ok(_) => registration_refusal(name@, metadata_uri@, skills.deep_view()) is None,
            Err(e) => registration_refusal(name@, metadata_uri@, skills.deep_view()) == Some(e),
        }),
{
    if text_len(name.as_str()) > MAX_NAME_LEN {
        Err(AgentVaultError::NameTooLong)
    } else if text_len(metadata_uri.as_str()) > MAX_METADATA_URI_LEN {
        Err(AgentVaultError::MetadataUriTooLong)
    } else if skills.len() > MAX_SKILLS {
        Err(AgentVaultError::TooManySkills)
    } else {
        Ok(())
    }
}

/// The counters of a registry that `authority` sets up.
pub fn new_stats(authority: Identity) -> (stats: RegistryStats)
    ensures
        stats == fresh_stats(authority),
{
    RegistryStats { total_agents: 0, total_endorsements: 0, authority }
}

/// The profile of an agent that registers at `now`.
pub fn new_profile(
    owner: Identity,
    name: String,
    metadata_uri: String,
    skills: Vec<String>,
    now: i64,
) -> (profile: AgentProfile)
    ensures
        profile@ == fresh_profile(owner, name@, metadata_uri@, skills.deep_view(), now),
{
    AgentProfile {
        wallet: owner,
        name,
        metadata_uri,
        skills,
        reputation: BASE_REPUTATION,
        endorsements_received: 0,
        registered_at: now,
        last_active: now,
    }
}

/// Counts one agent more.
pub fn count_agent(stats: &mut RegistryStats)
    ensures
        *final(stats) == counted(*old(stats)),
{
    stats.total_agents = stats.total_agents.saturating_add(1);
}

/// Creates the registry's counters, once.
pub fn initialize_registry(
    ledger: &mut Ledger,
    ctx: &InitializeRegistry,
) -> (outcome: Result<(), AgentVaultError>)
    ensures
        (match outcome {
            Ok(_) => {
                &&& initialize_registry_rejection(old(ledger)@, *ctx) is None
                &&& final(ledger)@ == initialize_registry_effect(old(ledger)@, *ctx)
            },
            Err(e) => {
                &&& initialize_registry_rejection(old(ledger)@, *ctx) == Some(e)
                &&& final(ledger)@ == old(ledger)@
            },
        }),
        old(ledger)@.wf() ==> final(ledger)@.wf(),
        final(ledger)@ == step(old(ledger)@, (Operation::Initialize { ctx: *ctx })),
{
    if !ledger.stats.create(ctx.registry_stats, new_stats(ctx.authority)) {
        return Err(AgentVaultError::AlreadyInitialized);
    }
    Ok(())
}

/// Creates the profile of `ctx.owner`, who may have one profile only.
pub fn register_agent(
    ledger: &mut Ledger,
    ctx: &RegisterAgent,
    name: String,
    metadata_uri: String,
    skills: Vec<String>,
    now: i64,
) -> (outcome: Result<AgentRegistered, AgentVaultError>)
    ensures
        (match outcome {
            Ok(event) => {
                &&& register_agent_rejection(
                    old(ledger)@,
                    *ctx,
                    name@,
                    metadata_uri@,
                    skills.deep_view(),
                ) is None
                &&& final(ledger)@ == register_agent_effect(
                    old(ledger)@,
                    *ctx,
                    name@,
                    metadata_uri@,
                    skills.deep_view(),
                    now,
                )
                &&& event.wallet == ctx.owner
                &&& event.name@ == name@
                &&& event.timestamp == now
            },
            Err(e) => {
                &&& register_agent_rejection(
                    old(ledger)@,
                    *ctx,
                    name@,
                    metadata_uri@,
                    skills.deep_view(),
                ) == Some(e)
                &&& final(ledger)@ == old(ledger)@
            },
        }),
        old(ledger)@.wf() ==> final(ledger)@.wf(),
        final(ledger)@ == step(
            old(ledger)@,
            (Operation::Register {
                ctx: *ctx,
                name: name@,
                metadata_uri: metadata_uri@,
                skills: skills.deep_view(),
                now,
            }),
        ),
{
    match validate_registration(&name, &metadata_uri, &skills) {
        Err(e) => {
            return Err(e);
        },
        Ok(_) => {},
    }
    if ledger.profiles.contains(&ctx.agent_profile) {
        return Err(AgentVaultError::AlreadyRegistered);
    }
    let mut stats = match ledger.stats.read(&ctx.registry_stats) {
        None => {
            return Err(AgentVaultError::RecordNotFound);
        },
        Some(stats) => *stats,
    };
    count_agent(&mut stats);
    let event = AgentRegistered { wallet: ctx.owner, name: name.clone(), timestamp: now };
    ledger.profiles.create(ctx.agent_profile, new_profile(ctx.owner, name, metadata_uri, skills, now));
    ledger.stats.update(&ctx.registry_stats, stats);
    Ok(event)
}

/// A new profile has reputation 50 and no endorsement, and its owner cannot
/// register again: a second registration of inputs that keep the limits is
/// rejected as `AlreadyRegistered` where it asks for the same profile
/// address, as every registration of one owner does.
pub proof fn lemma_registered_once(
    s: LedgerView,
    ctx: RegisterAgent,
    name: Seq<char>,
    metadata_uri: Seq<char>,
    skills: Seq<Seq<char>>,
    now: i64,
    again: RegisterAgent,
    name_again: Seq<char>,
    metadata_uri_again: Seq<char>,
    skills_again: Seq<Seq<char>>,
)
    requires
        register_agent_rejection(s, ctx, name, metadata_uri, skills) is None,
        again.agent_profile == ctx.agent_profile,
        byte_len(name_again) <= MAX_NAME_LEN,
        byte_len(metadata_uri_again) <= MAX_METADATA_URI_LEN,
        skills_again.len() <= MAX_SKILLS,
    ensures
        ({
            let after = register_agent_effect(s, ctx, name, metadata_uri, skills, now);
            &&& after.profiles.contains_key(ctx.agent_profile)
            &&& after.profiles[ctx.agent_profile].reputation == BASE_REPUTATION
            &&& after.profiles[ctx.agent_profile].endorsements_received == 0
            &&& register_agent_rejection(
                after,
                again,
                name_again,
                metadata_uri_again,
                skills_again,
            ) == Some(AgentVaultError::AlreadyRegistered)
        }),
{
}

/// Two registrations of one owner under one program ask for the same
/// profile address and the same counters.
pub proof fn lemma_one_profile_per_owner(program: Identity, owner: Identity)
    ensures
        match (RegisterAgent::resolved(program, owner), agent_address(program, owner)) {
            (Some(ctx), Some(address)) => ctx.agent_profile == address && ctx.owner == owner
                && Some(ctx.registry_stats) == registry_address(program),
            (Some(_), None) => false,
            _ => true,
        },
{
}

/// Setting up the registry and registering an agent keep every profile
/// within its limits; a registration changes no profile but the new one.
pub proof fn lemma_registration_keeps_limits(
    s: LedgerView,
    setup: InitializeRegistry,
    ctx: RegisterAgent,
    name: Seq<char>,
    metadata_uri: Seq<char>,
    skills: Seq<Seq<char>>,
    now: i64,
)
    requires
        s.wf(),
    ensures
        initialize_registry_effect(s, setup).wf(),
        register_agent_rejection(s, ctx, name, metadata_uri, skills) is None ==> register_agent_effect(
            s,
            ctx,
            name,
            metadata_uri,
            skills,
            now,
        ).wf(),
{
    if register_agent_rejection(s, ctx, name, metadata_uri, skills) is None {
        let after = register_agent_effect(s, ctx, name, metadata_uri, skills, now);
        assert forall|a: Address| #[trigger]
        after.profiles.contains_key(a) implies after.profiles[a].within_limits() by {
            if a != ctx.agent_profile {
                assert(s.profiles.contains_key(a));
            }
        }
    }
}

} // verus!
