use std::str::FromStr;

use agentvault::addressing::derive_address;
use agentvault::addressing::locate_agent;
use agentvault::addressing::locate_endorsement;
use agentvault::addressing::locate_registry;
use agentvault::addressing::program_id;
use agentvault::addressing::PROGRAM_ID;
use agentvault::key::Address;
use agentvault::key::Identity;
use anchor_lang::prelude::Pubkey;

fn identity(byte: u8) -> Identity {
    Identity { bytes: [byte; 32] }
}

#[test]
fn program_id_is_the_declared_key() {
    let declared = Pubkey::from_str("AgntVLT1111111111111111111111111111111111111").unwrap();
    assert_eq!(PROGRAM_ID, declared.to_bytes());
    assert_eq!(program_id().bytes, declared.to_bytes());
}

#[test]
fn registry_address_is_the_program_derived_address() {
    let program = program_id();
    let (expected, _) =
        Pubkey::find_program_address(&[b"registry_stats"], &Pubkey::new_from_array(program.bytes));
    assert_eq!(locate_registry(&program), Some(Address { bytes: expected.to_bytes() }));
}

#[test]
fn agent_address_is_the_program_derived_address() {
    let program = program_id();
    let owner = identity(7);
    let (expected, _) = Pubkey::find_program_address(
        &[b"agent", &owner.bytes],
        &Pubkey::new_from_array(program.bytes),
    );
    let found = locate_agent(&program, &owner);
    assert_eq!(found, Some(Address { bytes: expected.to_bytes() }));
    assert_ne!(found.unwrap().bytes, owner.bytes);
    assert_ne!(found.unwrap().bytes, program.bytes);
}

#[test]
fn endorsement_address_is_the_program_derived_address() {
    let program = program_id();
    let endorser = identity(1);
    let target = identity(2);
    let (expected, _) = Pubkey::find_program_address(
        &[b"endorsement", &endorser.bytes, &target.bytes, "rust".as_bytes()],
        &Pubkey::new_from_array(program.bytes),
    );
    assert_eq!(
        locate_endorsement(&program, &endorser, &target, "rust"),
        Some(Address { bytes: expected.to_bytes() })
    );
}

#[test]
fn derive_follows_the_seeds_and_the_program() {
    let program = program_id();
    let seeds = vec![b"agent".to_vec(), vec![9u8; 32]];
    let (expected, _) = Pubkey::find_program_address(
        &[b"agent", &[9u8; 32]],
        &Pubkey::new_from_array(program.bytes),
    );
    assert_eq!(derive_address(&seeds, &program), Some(Address { bytes: expected.to_bytes() }));
    assert_eq!(derive_address(&seeds, &program), locate_agent(&program, &identity(9)));
    assert_ne!(derive_address(&seeds, &program), derive_address(&seeds, &identity(3)));
}

#[test]
fn addresses_are_reproducible_and_differ_by_component() {
    let program = program_id();
    let a = identity(1);
    let b = identity(2);
    assert_eq!(locate_agent(&program, &a), locate_agent(&program, &a));
    assert_ne!(locate_agent(&program, &a), locate_agent(&program, &b));
    assert_ne!(
        locate_endorsement(&program, &a, &b, "rust"),
        locate_endorsement(&program, &b, &a, "rust")
    );
    assert_ne!(
        locate_endorsement(&program, &a, &b, "rust"),
        locate_endorsement(&program, &a, &b, "go")
    );
    assert_ne!(locate_agent(&program, &a), locate_registry(&program));
}

#[test]
fn no_address_for_a_seed_longer_than_32_bytes() {
    let program = program_id();
    let long = "x".repeat(33);
    assert_eq!(locate_endorsement(&program, &identity(1), &identity(2), &long), None);
    let longest = "x".repeat(32);
    assert!(locate_endorsement(&program, &identity(1), &identity(2), &longest).is_some());
}

#[test]
fn no_address_for_sixteen_seeds() {
    let program = program_id();
    let fifteen: Vec<Vec<u8>> = (0..15u8).map(|i| vec![i]).collect();
    let sixteen: Vec<Vec<u8>> = (0..16u8).map(|i| vec![i]).collect();
    assert!(derive_address(&fifteen, &program).is_some());
    assert_eq!(derive_address(&sixteen, &program), None);
}
