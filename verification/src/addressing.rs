//! Deterministic addresses of records.
//!
//! A record has no index entry: its address is derived from a tag for its
//! kind and from the identities and strings that define it, and the same
//! derivation finds the record again. The derivation is the program-derived
//! address of `anchor_lang`'s `Pubkey`, under the identity of the registry
//! program.

use vstd::prelude::*;
use vstd::slice::slice_to_vec;
use vstd::string::StrSliceExecFns;
use vstd::utf8::encode_utf8;
use anchor_lang::prelude::Pubkey;
use crate::key::Address;
use crate::key::Identity;

verus! {

/// The bytes of the identity of the registry program, which in base 58 read
/// `AgntVLT1111111111111111111111111111111111111`.
pub const PROGRAM_ID: [u8; 32] = [
    143, 234, 184, 37, 35, 250, 196, 29, 215, 185, 20, 127, 131, 236, 70, 138, 200, 206, 95, 200,
    176, 10, 238, 14, 66, 244, 216, 0, 0, 0, 0, 0,
];

/// The identity of the registry program, under which the addresses of its
/// records are derived.
pub fn program_id() -> (program: Identity)
    ensures
        program.bytes == PROGRAM_ID,
{
    Identity { bytes: PROGRAM_ID }
}

/// What `Pubkey::try_find_program_address` returns for the seeds and the
/// program's 32 bytes: the bytes of the derived address with its bump seed,
/// or nothing where no address can be derived.
pub uninterp spec fn program_address(seeds: Seq<Seq<u8>>, program: Seq<u8>) -> Option<
    ([u8; 32], u8),
>;

/// Calls `Pubkey::try_find_program_address` of `anchor_lang` on the seeds
/// and on the program's bytes. The function hashes its arguments and reads
/// nothing else, so its answer is `program_address` of them; nothing more
/// is claimed of it.
#[verifier::external_body]
fn try_find_program_address(seeds: &Vec<Vec<u8>>, program: &Identity) -> (found: Option<
    ([u8; 32], u8),
>)
    ensures
        found == program_address(seeds.deep_view(), program.bytes@),
{
    let parts: Vec<&[u8]> = seeds.iter().map(|seed| seed.as_slice()).collect();
    Pubkey::try_find_program_address(&parts, &Pubkey::new_from_array(program.bytes)).map(
        |(key, bump)| (key.to_bytes(), bump),
    )
}

/// The address derived from the seeds under the program, without its bump
/// seed.
pub open spec fn derived(seeds: Seq<Seq<u8>>, program: Identity) -> Option<Address> {
    match program_address(seeds, program.bytes@) {
        Some((bytes, _)) => Some(Address { bytes }),
        None => None,
    }
}

/// The seeds of the registry's counters: the tag `registry_stats`.
pub open spec fn registry_seeds() -> Seq<Seq<u8>> {
    seq![encode_utf8("registry_stats"@)]
}

/// The seeds of an agent's profile: the tag `agent`, then the owner.
pub open spec fn agent_seeds(owner: Identity) -> Seq<Seq<u8>> {
    seq![encode_utf8("agent"@), owner.bytes@]
}

/// The seeds of an endorsement: the tag `endorsement`, then the endorser,
/// the target and the skill.
pub open spec fn endorsement_seeds(endorser: Identity, target: Identity, skill: Seq<char>) -> Seq<
    Seq<u8>,
> {
    seq![encode_utf8("endorsement"@), endorser.bytes@, target.bytes@, encode_utf8(skill)]
}

/// The address of the registry's counters under the program.
pub open spec fn registry_address(program: Identity) -> Option<Address> {
    derived(registry_seeds(), program)
}

/// The address of the profile that `owner` has under the program.
pub open spec fn agent_address(program: Identity, owner: Identity) -> Option<Address> {
    derived(agent_seeds(owner), program)
}

/// The address of the endorsement that `endorser` gives `target` for
/// `skill` under the program.
pub open spec fn endorsement_address(
    program: Identity,
    endorser: Identity,
    target: Identity,
    skill: Seq<char>,
) -> Option<Address> {
    derived(endorsement_seeds(endorser, target, skill), program)
}

/// Derives the address that belongs to the seeds under the program.
pub fn derive_address(seeds: &Vec<Vec<u8>>, program: &Identity) -> (address: Option<Address>)
    ensures
        address == derived(seeds.deep_view(), *program),
{
    match try_find_program_address(seeds, program) {
        Some((bytes, _)) => Some(Address { bytes }),
        None => None,
    }
}

/// Finds the address of the registry's counters.
pub fn locate_registry(program: &Identity) -> (address: Option<Address>)
    ensures
        address == registry_address(*program),
{
    let mut seeds: Vec<Vec<u8>> = Vec::new();
    seeds.push("registry_stats".as_bytes_vec());
    assert(seeds.deep_view() =~~= registry_seeds());
    derive_address(&seeds, program)
}

/// Finds the address of the profile of `owner`.
pub fn locate_agent(program: &Identity, owner: &Identity) -> (address: Option<Address>)
    ensures
        address == agent_address(*program, *owner),
{
    let mut seeds: Vec<Vec<u8>> = Vec::new();
    seeds.push("agent".as_bytes_vec());
    seeds.push(slice_to_vec(owner.bytes.as_slice()));
    assert(seeds.deep_view() =~~= agent_seeds(*owner));
    derive_address(&seeds, program)
}

/// Finds the address of the endorsement that `endorser` gives `target` for
/// `skill`.
pub fn locate_endorsement(
    program: &Identity,
    endorser: &Identity,
    target: &Identity,
    skill: &str,
) -> (address: Option<Address>)
    ensures
        address == endorsement_address(*program, *endorser, *target, skill@),
{
    let mut seeds: Vec<Vec<u8>> = Vec::new();
    seeds.push("endorsement".as_bytes_vec());
    seeds.push(slice_to_vec(endorser.bytes.as_slice()));
    seeds.push(slice_to_vec(target.bytes.as_slice()));
    seeds.push(skill.as_bytes_vec());
    assert(seeds.deep_view() =~~= endorsement_seeds(*endorser, *target, skill@));
    derive_address(&seeds, program)
}

} // verus!
