//! Giving and withdrawing endorsements.
//!
//! An endorsement is a record at the address derived from its endorser, its
//! target and its skill. That record is all that keeps an endorsement from
//! being given twice: it cannot be created where it exists already, and once
//! it is destroyed it can be created anew.

use vstd::prelude::*;
use crate::addressing::agent_address;
use crate::addressing::endorsement_address;
use crate::addressing::locate_agent;
use crate::addressing::locate_endorsement;
use crate::error::AgentVaultError;
use crate::events::EndorsementRevoked;
use crate::events::SkillEndorsed;
use crate::history::step;
use crate::history::Operation;
use crate::key::Address;
use crate::key::Identity;
use crate::ledger::Ledger;
use crate::ledger::view_of_endorsement;
use crate::ledger::view_of_profile;
use crate::ledger::LedgerView;
use crate::reputation::after_endorsement;
use crate::reputation::after_revocation;
use crate::reputation::lowered;
use crate::reputation::one_less;
use crate::reputation::one_more;
use crate::reputation::raised;
use crate::reputation::MAX_REPUTATION;
use crate::state::byte_len;
use crate::state::declares_skill;
use crate::state::text_len;
use crate::state::AgentProfile;
use crate::state::AgentProfileView;
use crate::state::Endorsement;
use crate::state::EndorsementView;
use crate::state::MAX_SKILL_LEN;

verus! {

/// Who endorses whom, and the records that this touches.
#[derive(Clone, Copy, Debug)]
pub struct EndorseSkill {
    /// Where the endorsement will live.
    pub endorsement: Address,
    /// The profile of the endorser.
    pub endorser_profile: Address,
    /// The profile of the target.
    pub target_agent: Address,
    /// The caller.
    pub endorser: Identity,
    /// The identity whose skill is endorsed.
    pub target_wallet: Identity,
}

/// Who withdraws which endorsement, and the records that this touches.
#[derive(Clone, Copy, Debug)]
pub struct RevokeEndorsement {
    /// Where the endorsement lives.
    pub endorsement: Address,
    /// The profile of the target.
    pub target_agent: Address,
    /// The caller.
    pub endorser: Identity,
}

impl EndorseSkill {
    /// The records of an endorsement of `skill` that `endorser` gives
    /// `target_wallet` under the program; nothing where one of the three
    /// addresses cannot be derived.
    pub open spec fn resolved(
        program: Identity,
        endorser: Identity,
        target_wallet: Identity,
        skill: Seq<char>,
    ) -> Option<EndorseSkill> {
        match (
            endorsement_address(program, endorser, target_wallet, skill),
            agent_address(program, endorser),
            agent_address(program, target_wallet),
        ) {
            (Some(endorsement), Some(endorser_profile), Some(target_agent)) => Some(
                EndorseSkill {
                    endorsement,
                    endorser_profile,
                    target_agent,
                    endorser,
                    target_wallet,
                },
            ),
            _ => None,
        }
    }

    /// Derives the addresses of the records of an endorsement.
    pub fn resolve(
        program: &Identity,
        endorser: Identity,
        target_wallet: Identity,
        skill: &str,
    ) -> (ctx: Option<EndorseSkill>)
        ensures
            ctx == Self::resolved(*program, endorser, target_wallet, skill@),
    {
        let endorsement = locate_endorsement(program, &endorser, &target_wallet, skill);
        let endorser_profile = locate_agent(program, &endorser);
        let target_agent = locate_agent(program, &target_wallet);
        match (endorsement, endorser_profile, target_agent) {
            (Some(endorsement), Some(endorser_profile), Some(target_agent)) => Some(
                EndorseSkill {
                    endorsement,
                    endorser_profile,
                    target_agent,
                    endorser,
                    target_wallet,
                },
            ),
            _ => None,
        }
    }
}

impl RevokeEndorsement {
    /// The records of the endorsement of `skill` that `endorser` gave
    /// `target_wallet` under the program; nothing where one of the two
    /// addresses cannot be derived.
    pub open spec fn resolved(
        program: Identity,
        endorser: Identity,
        target_wallet: Identity,
        skill: Seq<char>,
    ) -> Option<RevokeEndorsement> {
        match (
            endorsement_address(program, endorser, target_wallet, skill),
            agent_address(program, target_wallet),
        ) {
            (Some(endorsement), Some(target_agent)) => Some(
                RevokeEndorsement { endorsement, target_agent, endorser },
            ),
            _ => None,
        }
    }

    /// Derives the addresses of the records of a revocation.
    pub fn resolve(
        program: &Identity,
        endorser: Identity,
        target_wallet: Identity,
        skill: &str,
    ) -> (ctx: Option<RevokeEndorsement>)
        ensures
            ctx == Self::resolved(*program, endorser, target_wallet, skill@),
    {
        let endorsement = locate_endorsement(program, &endorser, &target_wallet, skill);
        let target_agent = locate_agent(program, &target_wallet);
        match (endorsement, target_agent) {
            (Some(endorsement), Some(target_agent)) => Some(
                RevokeEndorsement { endorsement, target_agent, endorser },
            ),
            _ => None,
        }
    }
}

/// Why an endorsement is refused before any record is created, if it is.
/// The checks are made in this order, and the first that fails decides: the
/// skill has at most 32 bytes, nobody endorses itself, the target has a
/// profile, and that profile declares the skill.
pub open spec fn endorsement_refusal(
    endorser: Identity,
    target_wallet: Identity,
    target: Option<AgentProfileView>,
    skill: Seq<char>,
) -> Option<AgentVaultError> {
    if byte_len(skill) > MAX_SKILL_LEN {
        Some(AgentVaultError::SkillNameTooLong)
    } else if endorser == target_wallet {
        Some(AgentVaultError::CannotEndorseSelf)
    } else if target is None {
        Some(AgentVaultError::RecordNotFound)
    } else if !target->Some_0.declares(skill) {
        Some(AgentVaultError::SkillNotDeclared)
    } else {
        None
    }
}

/// Why an endorsement is rejected, if it is: for one of the reasons of
/// [`endorsement_refusal`], or else because the endorser has no profile, or
/// else because the endorsement exists already.
pub open spec fn endorse_skill_rejection(s: LedgerView, ctx: EndorseSkill, skill: Seq<char>) -> Option<
    AgentVaultError,
> {
    let refusal = endorsement_refusal(
        ctx.endorser,
        ctx.target_wallet,
        s.profile_at(ctx.target_agent),
        skill,
    );
    if refusal is Some {
        refusal
    } else if !s.profiles.contains_key(ctx.endorser_profile) {
        Some(AgentVaultError::RecordNotFound)
    } else if s.endorsements.contains_key(ctx.endorsement) {
        Some(AgentVaultError::DuplicateEndorsement)
    } else {
        None
    }
}

/// A profile after it received an endorsement at time `now`.
pub open spec fn endorsed(profile: AgentProfileView, now: i64) -> AgentProfileView {
    AgentProfileView {
        endorsements_received: one_more(profile.endorsements_received),
        reputation: raised(profile.reputation),
        last_active: now,
        ..profile
    }
}

/// A profile after its owner acted at time `now`.
pub open spec fn touched(profile: AgentProfileView, now: i64) -> AgentProfileView {
    AgentProfileView { last_active: now, ..profile }
}

/// A profile after an endorsement of it was withdrawn.
pub open spec fn unendorsed(profile: AgentProfileView) -> AgentProfileView {
    AgentProfileView {
        endorsements_received: one_less(profile.endorsements_received),
        reputation: lowered(profile.reputation),
        ..profile
    }
}

/// The ledger after an endorsement that is not rejected: the endorsement
/// exists, the target has one endorsement and 2 points of reputation more,
/// and both profiles were active at `now`. The counters of the registry stay
/// as they are.
pub open spec fn endorse_skill_effect(
    s: LedgerView,
    ctx: EndorseSkill,
    skill: Seq<char>,
    now: i64,
) -> LedgerView {
    let with_target = s.profiles.insert(
        ctx.target_agent,
        endorsed(s.profiles[ctx.target_agent], now),
    );
    let with_both = with_target.insert(
        ctx.endorser_profile,
        touched(with_target[ctx.endorser_profile], now),
    );
    LedgerView {
        stats: s.stats,
        profiles: with_both,
        endorsements: s.endorsements.insert(
            ctx.endorsement,
            EndorsementView {
                endorser: ctx.endorser,
                target: ctx.target_wallet,
                skill,
                timestamp: now,
            },
        ),
    }
}

/// Why a revocation is refused, if it is: the endorsement does not exist,
/// or the caller did not give it, or the target has no profile.
pub open spec fn revocation_refusal(
    record: Option<EndorsementView>,
    caller: Identity,
    target: Option<AgentProfileView>,
) -> Option<AgentVaultError> {
    if record is None {
        Some(AgentVaultError::RecordNotFound)
    } else if record->Some_0.endorser != caller {
        Some(AgentVaultError::Unauthorized)
    } else if target is None {
        Some(AgentVaultError::RecordNotFound)
    } else {
        None
    }
}

/// Why a revocation is rejected, if it is.
pub open spec fn revoke_endorsement_rejection(s: LedgerView, ctx: RevokeEndorsement) -> Option<
    AgentVaultError,
> {
    revocation_refusal(
        s.endorsement_at(ctx.endorsement),
        ctx.endorser,
        s.profile_at(ctx.target_agent),
    )
}

/// The ledger after a revocation that is not rejected: the endorsement is
/// gone and the target has one endorsement and 2 points of reputation less,
/// neither below 0. When the target was last active does not change.
pub open spec fn revoke_endorsement_effect(s: LedgerView, ctx: RevokeEndorsement) -> LedgerView {
    LedgerView {
        stats: s.stats,
        profiles: s.profiles.insert(ctx.target_agent, unendorsed(s.profiles[ctx.target_agent])),
        endorsements: s.endorsements.remove(ctx.endorsement),
    }
}

/// Decides whether `endorser` may endorse `skill` of `target_wallet`, whose
/// profile is `target` where it has one.
pub fn validate_endorsement(
    endorser: &Identity,
    target_wallet: &Identity,
    target: Option<&AgentProfile>,
    skill: &String,
) -> (verdict: Result<(), AgentVaultError>)
    ensures
        (match verdict {
            Ok(_) => endorsement_refusal(*endorser, *target_wallet, view_of_profile(target), skill@)
                is None,
            Err(e) => endorsement_refusal(*endorser, *target_wallet, view_of_profile(target), skill@)
                == Some(e),
        }),
{
    if text_len(skill.as_str()) > MAX_SKILL_LEN {
        return Err(AgentVaultError::SkillNameTooLong);
    }
    if *endorser == *target_wallet {
        return Err(AgentVaultError::CannotEndorseSelf);
    }
    match target {
        None => Err(AgentVaultError::RecordNotFound),
        Some(profile) => {
            if declares_skill(&profile.skills, skill) {
                Ok(())
            } else {
                Err(AgentVaultError::SkillNotDeclared)
            }
        },
    }
}

/// Decides whether `caller` may revoke the endorsement `record`, given to
/// the agent whose profile is `target`.
pub fn validate_revocation(
    record: Option<&Endorsement>,
    caller: &Identity,
    target: Option<&AgentProfile>,
) -> (verdict: Result<(), AgentVaultError>)
    ensures
        (match verdict {
            Ok(_) => revocation_refusal(view_of_endorsement(record), *caller, view_of_profile(target))
                is None,
            Err(e) => revocation_refusal(
                view_of_endorsement(record),
                *caller,
                view_of_profile(target),
            ) == Some(e),
        }),
{
    match record {
        None => Err(AgentVaultError::RecordNotFound),
        Some(endorsement) => {
            if endorsement.endorser != *caller {
                Err(AgentVaultError::Unauthorized)
            } else if target.is_none() {
                Err(AgentVaultError::RecordNotFound)
            } else {
                Ok(())
            }
        },
    }
}

/// Counts an endorsement that the profile received at `now`.
pub fn receive_endorsement(profile: &mut AgentProfile, now: i64)
    ensures
        final(profile)@ == endorsed(old(profile)@, now),
{
    profile.endorsements_received = profile.endorsements_received.saturating_add(1);
    profile.reputation = after_endorsement(profile.reputation);
    profile.last_active = now;
}

/// Notes that the owner of the profile acted at `now`.
pub fn record_activity(profile: &mut AgentProfile, now: i64)
    ensures
        final(profile)@ == touched(old(profile)@, now),
{
    profile.last_active = now;
}

/// Takes back an endorsement that the profile had received.
pub fn lose_endorsement(profile: &mut AgentProfile)
    ensures
        final(profile)@ == unendorsed(old(profile)@),
{
    profile.endorsements_received = profile.endorsements_received.saturating_sub(1);
    profile.reputation = after_revocation(profile.reputation);
}

/// Records that `ctx.endorser` endorses `skill` of `ctx.target_wallet`,
/// where `ctx` holds the records of an endorsement of that skill.
///
/// The skill has at most 32 bytes, nobody endorses itself, the target has
/// declared the skill, and the endorsement does not exist yet: creating its
/// record is what tests the last. The counters of the registry are not
/// touched.
pub fn endorse_skill(
    ledger: &mut Ledger,
    ctx: &EndorseSkill,
    skill: String,
    now: i64,
) -> (outcome: Result<SkillEndorsed, AgentVaultError>)
    ensures
        (match outcome {
            Ok(event) => {
                &&& endorse_skill_rejection(old(ledger)@, *ctx, skill@) is None
                &&& final(ledger)@ == endorse_skill_effect(old(ledger)@, *ctx, skill@, now)
                &&& event.endorser == ctx.endorser
                &&& event.target == ctx.target_wallet
                &&& event.skill@ == skill@
                &&& event.timestamp == now
            },
            Err(e) => {
                &&& endorse_skill_rejection(old(ledger)@, *ctx, skill@) == Some(e)
                &&& final(ledger)@ == old(ledger)@
            },
        }),
        old(ledger)@.wf() ==> final(ledger)@.wf(),
        final(ledger)@ == step(old(ledger)@, (Operation::Endorse { ctx: *ctx, skill: skill@, now })),
{
    match validate_endorsement(
        &ctx.endorser,
        &ctx.target_wallet,
        ledger.profiles.read(&ctx.target_agent),
        &skill,
    ) {
        Err(e) => {
            return Err(e);
        },
        Ok(_) => {},
    }
    if !ledger.profiles.contains(&ctx.endorser_profile) {
        return Err(AgentVaultError::RecordNotFound);
    }
    let record = Endorsement {
        endorser: ctx.endorser,
        target: ctx.target_wallet,
        skill: skill.clone(),
        timestamp: now,
    };
    if !ledger.endorsements.create(ctx.endorsement, record) {
        return Err(AgentVaultError::DuplicateEndorsement);
    }
    let mut target = ledger.profiles.destroy(&ctx.target_agent).unwrap();
    receive_endorsement(&mut target, now);
    ledger.profiles.create(ctx.target_agent, target);
    let mut endorser = ledger.profiles.destroy(&ctx.endorser_profile).unwrap();
    record_activity(&mut endorser, now);
    ledger.profiles.create(ctx.endorser_profile, endorser);
    assert(ledger@.profiles =~= endorse_skill_effect(old(ledger)@, *ctx, skill@, now).profiles);
    Ok(SkillEndorsed { endorser: ctx.endorser, target: ctx.target_wallet, skill, timestamp: now })
}

/// Withdraws the endorsement at `ctx.endorsement`, which only its endorser
/// may do. The event carries what the record held before it was destroyed.
pub fn revoke_endorsement(
    ledger: &mut Ledger,
    ctx: &RevokeEndorsement,
    now: i64,
) -> (outcome: Result<EndorsementRevoked, AgentVaultError>)
    ensures
        (match outcome {
            Ok(event) => {
                &&& revoke_endorsement_rejection(old(ledger)@, *ctx) is None
                &&& final(ledger)@ == revoke_endorsement_effect(old(ledger)@, *ctx)
                &&& event.endorser == old(ledger)@.endorsements[ctx.endorsement].endorser
                &&& event.target == old(ledger)@.endorsements[ctx.endorsement].target
                &&& event.skill@ == old(ledger)@.endorsements[ctx.endorsement].skill
                &&& event.timestamp == now
            },
            Err(e) => {
                &&& revoke_endorsement_rejection(old(ledger)@, *ctx) == Some(e)
                &&& final(ledger)@ == old(ledger)@
            },
        }),
        old(ledger)@.wf() ==> final(ledger)@.wf(),
        final(ledger)@ == step(old(ledger)@, (Operation::Revoke { ctx: *ctx })),
{
    match validate_revocation(
        ledger.endorsements.read(&ctx.endorsement),
        &ctx.endorser,
        ledger.profiles.read(&ctx.target_agent),
    ) {
        Err(e) => {
            return Err(e);
        },
        Ok(_) => {},
    }
    let mut target = ledger.profiles.destroy(&ctx.target_agent).unwrap();
    lose_endorsement(&mut target);
    ledger.profiles.create(ctx.target_agent, target);
    let record = ledger.endorsements.destroy(&ctx.endorsement).unwrap();
    assert(ledger@.profiles =~= revoke_endorsement_effect(old(ledger)@, *ctx).profiles);
    Ok(
        EndorsementRevoked {
            endorser: record.endorser,
            target: record.target,
            skill: record.skill,
            timestamp: now,
        },
    )
}

/// While an endorsement stands, it cannot be given again: an endorsement
/// whose record exists is rejected, whatever else holds.
pub proof fn lemma_standing_endorsement_blocks(s: LedgerView, ctx: EndorseSkill, skill: Seq<char>)
    requires
        s.endorsements.contains_key(ctx.endorsement),
    ensures
        endorse_skill_rejection(s, ctx, skill) is Some,
{
}

/// After an endorsement was given, the same endorsement is rejected as a
/// duplicate, and so is any other that would live at the same address and
/// passes the checks before the creation of the record.
pub proof fn lemma_second_endorsement_is_duplicate(
    s: LedgerView,
    ctx: EndorseSkill,
    skill: Seq<char>,
    now: i64,
)
    requires
        endorse_skill_rejection(s, ctx, skill) is None,
    ensures
        endorse_skill_rejection(endorse_skill_effect(s, ctx, skill, now), ctx, skill) == Some(
            AgentVaultError::DuplicateEndorsement,
        ),
{
    let after = endorse_skill_effect(s, ctx, skill, now);
    assert(after.profiles.contains_key(ctx.target_agent));
    assert(after.profiles[ctx.target_agent].skills == s.profiles[ctx.target_agent].skills);
}

/// After an endorsement was given and its endorser has revoked it, the
/// record is gone and the same endorsement can be given again.
pub proof fn lemma_endorsement_after_revocation(
    s: LedgerView,
    ctx: EndorseSkill,
    skill: Seq<char>,
    given_at: i64,
    revoke: RevokeEndorsement,
)
    requires
        endorse_skill_rejection(s, ctx, skill) is None,
        revoke.endorsement == ctx.endorsement,
        revoke.target_agent == ctx.target_agent,
        revoke.endorser == ctx.endorser,
    ensures
        revoke_endorsement_rejection(endorse_skill_effect(s, ctx, skill, given_at), revoke) is None,
        !revoke_endorsement_effect(
            endorse_skill_effect(s, ctx, skill, given_at),
            revoke,
        ).endorsements.contains_key(ctx.endorsement),
        endorse_skill_rejection(
            revoke_endorsement_effect(endorse_skill_effect(s, ctx, skill, given_at), revoke),
            ctx,
            skill,
        ) is None,
{
    let given = endorse_skill_effect(s, ctx, skill, given_at);
    assert(given.profiles.contains_key(ctx.target_agent));
    assert(given.profiles.contains_key(ctx.endorser_profile));
    assert(given.profiles[ctx.target_agent].skills == s.profiles[ctx.target_agent].skills);
    let revoked = revoke_endorsement_effect(given, revoke);
    assert(revoked.profiles[ctx.target_agent].skills == s.profiles[ctx.target_agent].skills);
}

/// Giving and withdrawing endorsements keep every reputation between 0 and
/// 100, and every profile within its other limits. A target at 100 stays at
/// 100 when it is endorsed; a target at 0 or 1 is at 0 after a revocation.
pub proof fn lemma_reputation_bounded(
    s: LedgerView,
    given: EndorseSkill,
    skill: Seq<char>,
    now: i64,
    withdrawn: RevokeEndorsement,
)
    requires
        s.wf(),
    ensures
        endorse_skill_rejection(s, given, skill) is None ==> ({
            let after = endorse_skill_effect(s, given, skill, now);
            &&& after.wf()
            &&& after.profiles[given.target_agent].reputation == raised(
                s.profiles[given.target_agent].reputation,
            )
            &&& s.profiles[given.target_agent].reputation == MAX_REPUTATION
                ==> after.profiles[given.target_agent].reputation == MAX_REPUTATION
        }),
        revoke_endorsement_rejection(s, withdrawn) is None ==> ({
            let after = revoke_endorsement_effect(s, withdrawn);
            &&& after.wf()
            &&& after.profiles[withdrawn.target_agent].reputation == lowered(
                s.profiles[withdrawn.target_agent].reputation,
            )
            &&& s.profiles[withdrawn.target_agent].reputation <= 1
                ==> after.profiles[withdrawn.target_agent].reputation == 0
        }),
{
    if endorse_skill_rejection(s, given, skill) is None {
        let after = endorse_skill_effect(s, given, skill, now);
        assert forall|a: Address| #[trigger]
            after.profiles.contains_key(a) implies after.profiles[a].within_limits() by {
            assert(s.profiles.contains_key(given.target_agent));
            assert(s.profiles.contains_key(given.endorser_profile));
            if a != given.target_agent && a != given.endorser_profile {
                assert(s.profiles.contains_key(a));
            }
        }
    }
    if revoke_endorsement_rejection(s, withdrawn) is None {
        let after = revoke_endorsement_effect(s, withdrawn);
        assert forall|a: Address| #[trigger]
            after.profiles.contains_key(a) implies after.profiles[a].within_limits() by {
            assert(s.profiles.contains_key(withdrawn.target_agent));
            if a != withdrawn.target_agent {
                assert(s.profiles.contains_key(a));
            }
        }
    }
}

/// The count of endorsements never goes below 0: a revocation at a target
/// that counts none leaves the count at 0, and at any other target takes
/// exactly one away.
pub proof fn lemma_count_bounded(s: LedgerView, withdrawn: RevokeEndorsement)
    requires
        revoke_endorsement_rejection(s, withdrawn) is None,
    ensures
        ({
            let before = s.profiles[withdrawn.target_agent].endorsements_received;
            let after = revoke_endorsement_effect(
                s,
                withdrawn,
            ).profiles[withdrawn.target_agent].endorsements_received;
            &&& before == 0 ==> after == 0
            &&& before > 0 ==> after == before - 1
        }),
{
}

/// An endorsement of a skill that the target has not declared, letter for
/// letter, is rejected for that reason, where the skill is short enough,
/// endorser and target differ and the target has a profile.
pub proof fn lemma_undeclared_skill_rejected(s: LedgerView, ctx: EndorseSkill, skill: Seq<char>)
    requires
        byte_len(skill) <= MAX_SKILL_LEN,
        ctx.endorser != ctx.target_wallet,
        s.profiles.contains_key(ctx.target_agent),
        !s.profiles[ctx.target_agent].skills.contains(skill),
    ensures
        endorse_skill_rejection(s, ctx, skill) == Some(AgentVaultError::SkillNotDeclared),
{
}

/// Nobody endorses itself: where endorser and target are one identity, an
/// endorsement of a skill of at most 32 bytes is rejected for that reason,
/// whether or not the skill is declared.
pub proof fn lemma_self_endorsement_rejected(s: LedgerView, ctx: EndorseSkill, skill: Seq<char>)
    requires
        byte_len(skill) <= MAX_SKILL_LEN,
        ctx.endorser == ctx.target_wallet,
    ensures
        endorse_skill_rejection(s, ctx, skill) == Some(AgentVaultError::CannotEndorseSelf),
{
}

/// The records of two endorsements with the same endorser, target and skill
/// are the same: one triple has one address.
pub proof fn lemma_one_address_per_endorsement(
    program: Identity,
    endorser: Identity,
    target_wallet: Identity,
    skill: Seq<char>,
)
    ensures
        EndorseSkill::resolved(program, endorser, target_wallet, skill) matches Some(give) ==> ({
            &&& RevokeEndorsement::resolved(program, endorser, target_wallet, skill) matches Some(
                withdraw,
            )
            &&& withdraw.endorsement == give.endorsement
            &&& withdraw.target_agent == give.target_agent
            &&& withdraw.endorser == give.endorser
        }),
{
}

} // verus!
