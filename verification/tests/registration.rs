use agentvault::addressing::locate_agent;
use agentvault::addressing::locate_registry;
use agentvault::addressing::program_id;
use agentvault::error::AgentVaultError;
use agentvault::events::AgentRegistered;
use agentvault::key::Address;
use agentvault::key::Identity;
use agentvault::ledger::Ledger;
use agentvault::registration::count_agent;
use agentvault::registration::initialize_registry;
use agentvault::registration::new_profile;
use agentvault::registration::new_stats;
use agentvault::registration::register_agent;
use agentvault::registration::validate_registration;
use agentvault::registration::InitializeRegistry;
use agentvault::registration::RegisterAgent;
use agentvault::state::RegistryStats;

fn identity(byte: u8) -> Identity {
    Identity { bytes: [byte; 32] }
}

fn texts(items: &[&str]) -> Vec<String> {
    items.iter().map(|item| item.to_string()).collect()
}

fn initialized() -> Ledger {
    let mut ledger = Ledger::new();
    let ctx = InitializeRegistry::resolve(&program_id(), identity(100)).unwrap();
    assert_eq!(initialize_registry(&mut ledger, &ctx), Ok(()));
    ledger
}

fn registration_of(owner: Identity) -> RegisterAgent {
    RegisterAgent::resolve(&program_id(), owner).unwrap()
}

#[test]
fn a_new_ledger_holds_nothing() {
    let ledger = Ledger::new();
    let program = program_id();
    assert_eq!(ledger.stats(&locate_registry(&program).unwrap()), None);
    assert_eq!(ledger.profile(&locate_agent(&program, &identity(1)).unwrap()), None);
    assert_eq!(ledger.endorsement(&Address { bytes: [0; 32] }), None);
}

#[test]
fn registration_contexts_hold_the_derived_addresses() {
    let program = program_id();
    let setup = InitializeRegistry::resolve(&program, identity(100)).unwrap();
    assert_eq!(Some(setup.registry_stats), locate_registry(&program));
    assert_eq!(setup.authority, identity(100));
    let ctx = registration_of(identity(1));
    assert_eq!(Some(ctx.agent_profile), locate_agent(&program, &identity(1)));
    assert_eq!(Some(ctx.registry_stats), locate_registry(&program));
    assert_eq!(ctx.owner, identity(1));
}

#[test]
fn initialize_sets_both_counters_to_zero() {
    let ledger = initialized();
    let address = locate_registry(&program_id()).unwrap();
    assert_eq!(
        ledger.stats(&address),
        Some(&RegistryStats { total_agents: 0, total_endorsements: 0, authority: identity(100) })
    );
}

#[test]
fn initialize_twice_is_rejected() {
    let mut ledger = initialized();
    let again = InitializeRegistry::resolve(&program_id(), identity(101)).unwrap();
    assert_eq!(initialize_registry(&mut ledger, &again), Err(AgentVaultError::AlreadyInitialized));
    let address = locate_registry(&program_id()).unwrap();
    assert_eq!(ledger.stats(&address).unwrap().authority, identity(100));
}

#[test]
fn register_creates_the_profile_and_counts_the_agent() {
    let mut ledger = initialized();
    let ctx = registration_of(identity(1));
    let event = register_agent(
        &mut ledger,
        &ctx,
        "alice".to_string(),
        "ipfs://alice".to_string(),
        texts(&["rust", "verus"]),
        1_700_000_000,
    );
    assert_eq!(
        event,
        Ok(AgentRegistered {
            wallet: identity(1),
            name: "alice".to_string(),
            timestamp: 1_700_000_000
        })
    );
    let profile = ledger.profile(&ctx.agent_profile).unwrap();
    assert_eq!(profile.wallet, identity(1));
    assert_eq!(profile.name, "alice");
    assert_eq!(profile.metadata_uri, "ipfs://alice");
    assert_eq!(profile.skills, texts(&["rust", "verus"]));
    assert_eq!(profile.reputation, 50);
    assert_eq!(profile.endorsements_received, 0);
    assert_eq!(profile.registered_at, 1_700_000_000);
    assert_eq!(profile.last_active, 1_700_000_000);
    let stats = ledger.stats(&ctx.registry_stats).unwrap();
    assert_eq!(stats.total_agents, 1);
    assert_eq!(stats.total_endorsements, 0);
}

#[test]
fn register_twice_with_the_same_owner_is_rejected() {
    let mut ledger = initialized();
    let ctx = registration_of(identity(1));
    assert!(register_agent(&mut ledger, &ctx, "alice".to_string(), String::new(), vec![], 10).is_ok());
    let again = registration_of(identity(1));
    assert_eq!(
        register_agent(&mut ledger, &again, "other".to_string(), "uri".to_string(), texts(&["go"]), 20),
        Err(AgentVaultError::AlreadyRegistered)
    );
    let profile = ledger.profile(&ctx.agent_profile).unwrap();
    assert_eq!(profile.name, "alice");
    assert_eq!(profile.last_active, 10);
    assert_eq!(ledger.stats(&ctx.registry_stats).unwrap().total_agents, 1);
}

#[test]
fn register_counts_each_owner() {
    let mut ledger = initialized();
    for owner in 1..=5u8 {
        let ctx = registration_of(identity(owner));
        assert!(register_agent(&mut ledger, &ctx, format!("agent{owner}"), String::new(), vec![], 10)
            .is_ok());
    }
    let address = locate_registry(&program_id()).unwrap();
    assert_eq!(ledger.stats(&address).unwrap().total_agents, 5);
    assert_eq!(ledger.stats(&address).unwrap().total_endorsements, 0);
}

#[test]
fn register_rejects_a_name_of_33_bytes() {
    let mut ledger = initialized();
    let ctx = registration_of(identity(1));
    assert_eq!(
        register_agent(&mut ledger, &ctx, "n".repeat(33), String::new(), vec![], 10),
        Err(AgentVaultError::NameTooLong)
    );
    assert_eq!(ledger.profile(&ctx.agent_profile), None);
    assert_eq!(ledger.stats(&ctx.registry_stats).unwrap().total_agents, 0);
    assert!(register_agent(&mut ledger, &ctx, "n".repeat(32), String::new(), vec![], 10).is_ok());
}

#[test]
fn register_counts_bytes_not_letters() {
    let mut ledger = initialized();
    let ctx = registration_of(identity(1));
    let seventeen_letters = "\u{e9}".repeat(17);
    assert_eq!(seventeen_letters.len(), 34);
    assert_eq!(
        register_agent(&mut ledger, &ctx, seventeen_letters, String::new(), vec![], 10),
        Err(AgentVaultError::NameTooLong)
    );
    assert!(register_agent(&mut ledger, &ctx, "\u{e9}".repeat(16), String::new(), vec![], 10).is_ok());
}

#[test]
fn register_rejects_a_metadata_uri_of_201_bytes() {
    let mut ledger = initialized();
    let ctx = registration_of(identity(1));
    assert_eq!(
        register_agent(&mut ledger, &ctx, "alice".to_string(), "u".repeat(201), vec![], 10),
        Err(AgentVaultError::MetadataUriTooLong)
    );
    assert!(
        register_agent(&mut ledger, &ctx, "alice".to_string(), "u".repeat(200), vec![], 10).is_ok()
    );
}

#[test]
fn register_rejects_eleven_skills() {
    let mut ledger = initialized();
    let ctx = registration_of(identity(1));
    let eleven: Vec<String> = (0..11).map(|i| format!("skill{i}")).collect();
    let ten: Vec<String> = (0..10).map(|i| format!("skill{i}")).collect();
    assert_eq!(
        register_agent(&mut ledger, &ctx, "alice".to_string(), String::new(), eleven, 10),
        Err(AgentVaultError::TooManySkills)
    );
    assert!(register_agent(&mut ledger, &ctx, "alice".to_string(), String::new(), ten, 10).is_ok());
}

#[test]
fn register_does_not_check_the_length_of_a_skill() {
    let mut ledger = initialized();
    let ctx = registration_of(identity(1));
    let long_skill = vec!["s".repeat(40)];
    assert!(
        register_agent(&mut ledger, &ctx, "alice".to_string(), String::new(), long_skill, 10).is_ok()
    );
}

#[test]
fn register_checks_the_name_first() {
    let mut ledger = initialized();
    let ctx = registration_of(identity(1));
    let eleven: Vec<String> = (0..11).map(|i| format!("skill{i}")).collect();
    assert_eq!(
        register_agent(&mut ledger, &ctx, "n".repeat(33), "u".repeat(201), eleven.clone(), 10),
        Err(AgentVaultError::NameTooLong)
    );
    assert_eq!(
        register_agent(&mut ledger, &ctx, "alice".to_string(), "u".repeat(201), eleven, 10),
        Err(AgentVaultError::MetadataUriTooLong)
    );
}

#[test]
fn register_without_counters_is_rejected() {
    let mut ledger = Ledger::new();
    let ctx = registration_of(identity(1));
    assert_eq!(
        register_agent(&mut ledger, &ctx, "alice".to_string(), String::new(), vec![], 10),
        Err(AgentVaultError::RecordNotFound)
    );
    assert_eq!(ledger.profile(&ctx.agent_profile), None);
}

#[test]
fn validate_registration_names_the_first_limit_that_is_broken() {
    let ten: Vec<String> = (0..10).map(|i| format!("skill{i}")).collect();
    let eleven: Vec<String> = (0..11).map(|i| format!("skill{i}")).collect();
    assert_eq!(validate_registration(&"n".repeat(32), &"u".repeat(200), &ten), Ok(()));
    assert_eq!(
        validate_registration(&"n".repeat(33), &"u".repeat(200), &ten),
        Err(AgentVaultError::NameTooLong)
    );
    assert_eq!(
        validate_registration(&"n".repeat(32), &"u".repeat(201), &ten),
        Err(AgentVaultError::MetadataUriTooLong)
    );
    assert_eq!(
        validate_registration(&"n".repeat(32), &"u".repeat(200), &eleven),
        Err(AgentVaultError::TooManySkills)
    );
}

#[test]
fn new_records_start_from_their_base_values() {
    assert_eq!(
        new_stats(identity(3)),
        RegistryStats { total_agents: 0, total_endorsements: 0, authority: identity(3) }
    );
    let profile = new_profile(identity(4), "bob".to_string(), "uri".to_string(), texts(&["go"]), 77);
    assert_eq!(profile.wallet, identity(4));
    assert_eq!(profile.name, "bob");
    assert_eq!(profile.metadata_uri, "uri");
    assert_eq!(profile.skills, texts(&["go"]));
    assert_eq!(profile.reputation, 50);
    assert_eq!(profile.endorsements_received, 0);
    assert_eq!(profile.registered_at, 77);
    assert_eq!(profile.last_active, 77);
}

#[test]
fn count_agent_stops_at_the_top() {
    let mut stats = RegistryStats { total_agents: 41, total_endorsements: 5, authority: identity(3) };
    count_agent(&mut stats);
    assert_eq!(
        stats,
        RegistryStats { total_agents: 42, total_endorsements: 5, authority: identity(3) }
    );
    stats.total_agents = u64::MAX;
    count_agent(&mut stats);
    assert_eq!(stats.total_agents, u64::MAX);
}
