//! Changing a profile.

use vstd::prelude::*;
use crate::addressing::agent_address;
use crate::addressing::locate_agent;
use crate::error::AgentVaultError;
use crate::events::ProfileUpdated;
use crate::history::step;
use crate::history::Operation;
use crate::key::Address;
use crate::key::Identity;
use crate::ledger::Ledger;
use crate::ledger::view_of_profile;
use crate::ledger::LedgerView;
use crate::state::byte_len;
use crate::state::text_len;
use crate::state::AgentProfile;
use crate::state::AgentProfileView;
use crate::state::MAX_METADATA_URI_LEN;
use crate::state::MAX_SKILLS;

verus! {

/// Who changes which profile.
#[derive(Clone, Copy, Debug)]
pub struct UpdateProfile {
    /// Where the profile lives.
    pub agent_profile: Address,
    /// The caller.
    pub owner: Identity,
}

impl UpdateProfile {
    /// The records of a change that `owner` makes to its profile under the
    /// program; nothing where the address cannot be derived.
    pub open spec fn resolved(program: Identity, owner: Identity) -> Option<UpdateProfile> {
        match agent_address(program, owner) {
            Some(agent_profile) => Some(UpdateProfile { agent_profile, owner }),
            None => None,
        }
    }

    /// Derives the address of the profile of `owner`.
    pub fn resolve(program: &Identity, owner: Identity) -> (ctx: Option<UpdateProfile>)
        ensures
            ctx == Self::resolved(*program, owner),
    {
        match locate_agent(program, &owner) {
            Some(agent_profile) => Some(UpdateProfile { agent_profile, owner }),
            None => None,
        }
    }
}

/// The new metadata URI as a mathematical value, if one is given.
pub open spec fn given_text(text: Option<String>) -> Option<Seq<char>> {
    match text {
        Some(t) => Some(t@),
        None => None,
    }
}

/// The new skills as a mathematical value, if any are given.
pub open spec fn given_skills(skills: Option<Vec<String>>) -> Option<Seq<Seq<char>>> {
    match skills {
        Some(k) => Some(k.deep_view()),
        None => None,
    }
}

/// Why a change is refused, if it is. The checks are made in this order,
/// and the first that fails decides: the profile exists, the caller owns it,
/// and what is given keeps the limits of a registration.
pub open spec fn update_refusal(
    profile: Option<AgentProfileView>,
    caller: Identity,
    metadata_uri: Option<Seq<char>>,
    skills: Option<Seq<Seq<char>>>,
) -> Option<AgentVaultError> {
    if profile is None {
        Some(AgentVaultError::RecordNotFound)
    } else if profile->Some_0.wallet != caller {
        Some(AgentVaultError::Unauthorized)
    } else if metadata_uri is Some && byte_len(metadata_uri->Some_0) > MAX_METADATA_URI_LEN {
        Some(AgentVaultError::MetadataUriTooLong)
    } else if skills is Some && skills->Some_0.len() > MAX_SKILLS {
        Some(AgentVaultError::TooManySkills)
    } else {
        None
    }
}

/// Why a change is rejected, if it is.
pub open spec fn update_profile_rejection(
    s: LedgerView,
    ctx: UpdateProfile,
    metadata_uri: Option<Seq<char>>,
    skills: Option<Seq<Seq<char>>>,
) -> Option<AgentVaultError> {
    update_refusal(s.profile_at(ctx.agent_profile), ctx.owner, metadata_uri, skills)
}

/// A profile after a change: what is given replaces what was there, what is
/// not given stays, and the owner was active at `now`.
pub open spec fn updated(
    profile: AgentProfileView,
    metadata_uri: Option<Seq<char>>,
    skills: Option<Seq<Seq<char>>>,
    now: i64,
) -> AgentProfileView {
    AgentProfileView {
        metadata_uri: match metadata_uri {
            Some(uri) => uri,
            None => profile.metadata_uri,
        },
        skills: match skills {
            Some(k) => k,
            None => profile.skills,
        },
        last_active: now,
        ..profile
    }
}

/// The ledger after a change that is not rejected.
pub open spec fn update_profile_effect(
    s: LedgerView,
    ctx: UpdateProfile,
    metadata_uri: Option<Seq<char>>,
    skills: Option<Seq<Seq<char>>>,
    now: i64,
) -> LedgerView {
    LedgerView {
        profiles: s.profiles.insert(
            ctx.agent_profile,
            updated(s.profiles[ctx.agent_profile], metadata_uri, skills, now),
        ),
        ..s
    }
}

/// Decides whether `caller` may make this change to `profile`.
pub fn validate_update(
    profile: Option<&AgentProfile>,
    caller: &Identity,
    metadata_uri: &Option<String>,
    skills: &Option<Vec<String>>,
) -> (verdict: Result<(), AgentVaultError>)
    ensures
        (match verdict {
            Ok(_) => update_refusal(
                view_of_profile(profile),
                *caller,
                given_text(*metadata_uri),
                given_skills(*skills),
            ) is None,
            Err(e) => update_refusal(
                view_of_profile(profile),
                *caller,
                given_text(*metadata_uri),
                given_skills(*skills),
            ) == Some(e),
        }),
{
    match profile {
        None => {
            return Err(AgentVaultError::RecordNotFound);
        },
        Some(found) => {
            if found.wallet != *caller {
                return Err(AgentVaultError::Unauthorized);
            }
        },
    }
    if let Some(uri) = metadata_uri {
        if text_len(uri.as_str()) > MAX_METADATA_URI_LEN {
            return Err(AgentVaultError::MetadataUriTooLong);
        }
    }
    if let Some(new_skills) = skills {
        if new_skills.len() > MAX_SKILLS {
            return Err(AgentVaultError::TooManySkills);
        }
    }
    Ok(())
}

/// Makes a change to a profile at `now`.
pub fn apply_update(
    profile: &mut AgentProfile,
    metadata_uri: Option<String>,
    skills: Option<Vec<String>>,
    now: i64,
)
    ensures
        final(profile)@ == updated(old(profile)@, given_text(metadata_uri), given_skills(skills), now),
{
    if let Some(uri) = metadata_uri {
        profile.metadata_uri = uri;
    }
    if let Some(new_skills) = skills {
        profile.skills = new_skills;
    }
    profile.last_active = now;
}

/// Replaces the metadata URI, the skills, or both, of the caller's profile.
pub fn update_profile(
    ledger: &mut Ledger,
    ctx: &UpdateProfile,
    metadata_uri: Option<String>,
    skills: Option<Vec<String>>,
    now: i64,
) -> (outcome: Result<ProfileUpdated, AgentVaultError>)
    ensures
        (match outcome {
            Ok(event) => {
                &&& update_profile_rejection(
                    old(ledger)@,
                    *ctx,
                    given_text(metadata_uri),
                    given_skills(skills),
                ) is None
                &&& final(ledger)@ == update_profile_effect(
                    old(ledger)@,
                    *ctx,
                    given_text(metadata_uri),
                    given_skills(skills),
                    now,
                )
                &&& event.wallet == ctx.owner
                &&& event.timestamp == now
            },
            Err(e) => {
                &&& update_profile_rejection(
                    old(ledger)@,
                    *ctx,
                    given_text(metadata_uri),
                    given_skills(skills),
                ) == Some(e)
                &&& final(ledger)@ == old(ledger)@
            },
        }),
        old(ledger)@.wf() ==> final(ledger)@.wf(),
        final(ledger)@ == step(
            old(ledger)@,
            (Operation::Update {
                ctx: *ctx,
                metadata_uri: given_text(metadata_uri),
                skills: given_skills(skills),
                now,
            }),
        ),
{
    match validate_update(ledger.profiles.read(&ctx.agent_profile), &ctx.owner, &metadata_uri, &skills) {
        Err(e) => {
            return Err(e);
        },
        Ok(_) => {},
    }
    let mut profile = ledger.profiles.destroy(&ctx.agent_profile).unwrap();
    apply_update(&mut profile, metadata_uri, skills, now);
    let wallet = profile.wallet;
    ledger.profiles.create(ctx.agent_profile, profile);
    assert(ledger@.profiles =~= update_profile_effect(
        old(ledger)@,
        *ctx,
        given_text(metadata_uri),
        given_skills(skills),
        now,
    ).profiles);
    Ok(ProfileUpdated { wallet, timestamp: now })
}

/// A change that gives a metadata URI and no skills leaves the skills as
/// they were: it replaces the URI, sets the time of the last activity, and
/// changes nothing else in the profile nor any other record.
pub proof fn lemma_update_replaces_what_is_given(
    s: LedgerView,
    ctx: UpdateProfile,
    metadata_uri: Seq<char>,
    now: i64,
)
    requires
        update_profile_rejection(s, ctx, Some(metadata_uri), None) is None,
    ensures
        ({
            let before = s.profiles[ctx.agent_profile];
            let after = update_profile_effect(s, ctx, Some(metadata_uri), None, now);
            &&& after.profiles[ctx.agent_profile] == AgentProfileView {
                metadata_uri,
                last_active: now,
                ..before
            }
            &&& after.profiles[ctx.agent_profile].skills == before.skills
            &&& after.profiles == s.profiles.insert(ctx.agent_profile, after.profiles[ctx.agent_profile])
            &&& after.stats == s.stats
            &&& after.endorsements == s.endorsements
        }),
{
}

/// A change keeps every profile within its limits.
pub proof fn lemma_update_keeps_limits(
    s: LedgerView,
    ctx: UpdateProfile,
    metadata_uri: Option<Seq<char>>,
    skills: Option<Seq<Seq<char>>>,
    now: i64,
)
    requires
        s.wf(),
        update_profile_rejection(s, ctx, metadata_uri, skills) is None,
    ensures
        update_profile_effect(s, ctx, metadata_uri, skills, now).wf(),
{
    let after = update_profile_effect(s, ctx, metadata_uri, skills, now);
    assert forall|a: Address| #[trigger]
        after.profiles.contains_key(a) implies after.profiles[a].within_limits() by {
        assert(s.profiles.contains_key(ctx.agent_profile));
        if a != ctx.agent_profile {
            assert(s.profiles.contains_key(a));
        }
    }
}

} // verus!
