//! Histories of the registry: what holds after any number of operations.
//!
//! An operation that is rejected changes nothing, so a history is a sequence
//! of operations of which each takes effect or is skipped. Each operation of
//! the crate takes the ledger one [`step`] further.

use vstd::prelude::*;
use crate::endorsement::endorse_skill_effect;
use crate::endorsement::endorse_skill_rejection;
use crate::endorsement::revoke_endorsement_effect;
use crate::endorsement::revoke_endorsement_rejection;
use crate::endorsement::EndorseSkill;
use crate::endorsement::RevokeEndorsement;
use crate::error::AgentVaultError;
use crate::key::Address;
use crate::ledger::LedgerView;
use crate::profile::update_profile_effect;
use crate::profile::update_profile_rejection;
use crate::profile::UpdateProfile;
use crate::registration::initialize_registry_effect;
use crate::registration::initialize_registry_rejection;
use crate::registration::register_agent_effect;
use crate::registration::register_agent_rejection;
use crate::registration::InitializeRegistry;
use crate::registration::RegisterAgent;

verus! {

/// One request to the registry, with all that it was called with.
pub enum Operation {
    Initialize { ctx: InitializeRegistry },
    Register {
        ctx: RegisterAgent,
        name: Seq<char>,
        metadata_uri: Seq<char>,
        skills: Seq<Seq<char>>,
        now: i64,
    },
    Update {
        ctx: UpdateProfile,
        metadata_uri: Option<Seq<char>>,
        skills: Option<Seq<Seq<char>>>,
        now: i64,
    },
    Endorse { ctx: EndorseSkill, skill: Seq<char>, now: i64 },
    Revoke { ctx: RevokeEndorsement },
}

impl Operation {
    /// Whether the operation destroys the endorsement at `a` when it takes
    /// effect.
    pub open spec fn revokes(self, a: Address) -> bool {
        self matches Operation::Revoke { ctx } && ctx.endorsement == a
    }
}

/// Why the ledger rejects the operation, if it does.
pub open spec fn rejection(s: LedgerView, op: Operation) -> Option<AgentVaultError> {
    match op {
        Operation::Initialize { ctx } => initialize_registry_rejection(s, ctx),
        Operation::Register { ctx, name, metadata_uri, skills, now } => register_agent_rejection(
            s,
            ctx,
            name,
            metadata_uri,
            skills,
        ),
        Operation::Update { ctx, metadata_uri, skills, now } => update_profile_rejection(
            s,
            ctx,
            metadata_uri,
            skills,
        ),
        Operation::Endorse { ctx, skill, now } => endorse_skill_rejection(s, ctx, skill),
        Operation::Revoke { ctx } => revoke_endorsement_rejection(s, ctx),
    }
}

/// The ledger after the operation: changed where the operation takes
/// effect, the same where it is rejected.
pub open spec fn step(s: LedgerView, op: Operation) -> LedgerView {
    if rejection(s, op) is Some {
        s
    } else {
        match op {
            Operation::Initialize { ctx } => initialize_registry_effect(s, ctx),
            Operation::Register { ctx, name, metadata_uri, skills, now } => register_agent_effect(
                s,
                ctx,
                name,
                metadata_uri,
                skills,
                now,
            ),
            Operation::Update { ctx, metadata_uri, skills, now } => update_profile_effect(
                s,
                ctx,
                metadata_uri,
                skills,
                now,
            ),
            Operation::Endorse { ctx, skill, now } => endorse_skill_effect(s, ctx, skill, now),
            Operation::Revoke { ctx } => revoke_endorsement_effect(s, ctx),
        }
    }
}

/// The ledger after the operations, from first to last.
pub open spec fn run(s: LedgerView, ops: Seq<Operation>) -> LedgerView
    decreases ops.len(),
{
    if ops.len() == 0 {
        s
    } else {
        step(run(s, ops.drop_last()), ops.last())
    }
}

/// One operation keeps every profile within its limits.
pub proof fn lemma_step_keeps_limits(s: LedgerView, op: Operation)
    requires
        s.wf(),
    ensures
        step(s, op).wf(),
{
    let after = step(s, op);
    assert forall|a: Address| #[trigger]
        after.profiles.contains_key(a) implies after.profiles[a].within_limits() by {
        if rejection(s, op) is None {
            match op {
                Operation::Initialize { ctx } => {
                    assert(s.profiles.contains_key(a));
                },
                Operation::Register { ctx, name, metadata_uri, skills, now } => {
                    if a != ctx.agent_profile {
                        assert(s.profiles.contains_key(a));
                    }
                },
                Operation::Update { ctx, metadata_uri, skills, now } => {
                    assert(s.profiles.contains_key(ctx.agent_profile));
                    if a != ctx.agent_profile {
                        assert(s.profiles.contains_key(a));
                    }
                },
                Operation::Endorse { ctx, skill, now } => {
                    assert(s.profiles.contains_key(ctx.target_agent));
                    assert(s.profiles.contains_key(ctx.endorser_profile));
                    if a != ctx.target_agent && a != ctx.endorser_profile {
                        assert(s.profiles.contains_key(a));
                    }
                },
                Operation::Revoke { ctx } => {
                    assert(s.profiles.contains_key(ctx.target_agent));
                    if a != ctx.target_agent {
                        assert(s.profiles.contains_key(a));
                    }
                },
            }
        } else {
            assert(s.profiles.contains_key(a));
        }
    }
}

/// In every state that the registry can reach from the empty ledger, each
/// profile is within its limits: its reputation lies between 0 and 100, its
/// name and metadata URI have at most 32 and 200 bytes, and it declares at
/// most 10 skills.
pub proof fn lemma_limits_always_kept(ops: Seq<Operation>)
    ensures
        run(LedgerView::empty(), ops).wf(),
    decreases ops.len(),
{
    if ops.len() > 0 {
        lemma_limits_always_kept(ops.drop_last());
        lemma_step_keeps_limits(run(LedgerView::empty(), ops.drop_last()), ops.last());
    }
}

/// An endorsement stands until it is revoked: no operation but the
/// revocation of that endorsement destroys its record.
pub proof fn lemma_endorsement_stands_until_revoked(s: LedgerView, ops: Seq<Operation>, a: Address)
    requires
        s.endorsements.contains_key(a),
        forall|i: int| 0 <= i < ops.len() ==> !(#[trigger] ops[i]).revokes(a),
    ensures
        run(s, ops).endorsements.contains_key(a),
    decreases ops.len(),
{
    if ops.len() > 0 {
        let earlier = ops.drop_last();
        assert forall|i: int| 0 <= i < earlier.len() implies !(#[trigger] earlier[i]).revokes(a) by {
            assert(earlier[i] == ops[i]);
        }
        lemma_endorsement_stands_until_revoked(s, earlier, a);
        assert(!ops[ops.len() - 1].revokes(a));
    }
}

/// Of the endorsements of one endorser for one skill of one target, at most
/// one succeeds unless a revocation comes between them: once one has taken
/// effect, whatever else happens, every endorsement that would live at the
/// same address is rejected until that address is revoked.
pub proof fn lemma_one_endorsement_at_a_time(
    s: LedgerView,
    ctx: EndorseSkill,
    skill: Seq<char>,
    now: i64,
    ops: Seq<Operation>,
    again: EndorseSkill,
    skill_again: Seq<char>,
)
    requires
        endorse_skill_rejection(s, ctx, skill) is None,
        forall|i: int| 0 <= i < ops.len() ==> !(#[trigger] ops[i]).revokes(ctx.endorsement),
        again.endorsement == ctx.endorsement,
    ensures
        endorse_skill_rejection(
            run(endorse_skill_effect(s, ctx, skill, now), ops),
            again,
            skill_again,
        ) is Some,
{
    lemma_endorsement_stands_until_revoked(
        endorse_skill_effect(s, ctx, skill, now),
        ops,
        ctx.endorsement,
    );
}

/// What is fixed when a record is created stays fixed: an operation destroys
/// neither counters nor profiles, never lowers the count of agents, leaves
/// the count of endorsements and the authority of the counters alone, and
/// keeps the owner, the name and the time of registration of every profile.
pub proof fn lemma_created_once(s: LedgerView, op: Operation, a: Address)
    ensures
        s.stats.contains_key(a) ==> ({
            &&& step(s, op).stats.contains_key(a)
            &&& step(s, op).stats[a].total_agents >= s.stats[a].total_agents
            &&& step(s, op).stats[a].total_endorsements == s.stats[a].total_endorsements
            &&& step(s, op).stats[a].authority == s.stats[a].authority
        }),
        s.profiles.contains_key(a) ==> ({
            &&& step(s, op).profiles.contains_key(a)
            &&& step(s, op).profiles[a].wallet == s.profiles[a].wallet
            &&& step(s, op).profiles[a].name == s.profiles[a].name
            &&& step(s, op).profiles[a].registered_at == s.profiles[a].registered_at
        }),
{
}

} // verus!
