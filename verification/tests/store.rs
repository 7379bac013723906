use agentvault::key::Address;
use agentvault::key::Identity;
use agentvault::state::RegistryStats;
use agentvault::store::RecordStore;

fn address(byte: u8) -> Address {
    Address { bytes: [byte; 32] }
}

fn stats(total_agents: u64) -> RegistryStats {
    RegistryStats { total_agents, total_endorsements: 0, authority: Identity { bytes: [0; 32] } }
}

#[test]
fn keys_compare_by_their_bytes() {
    let mut other = [5u8; 32];
    assert_eq!(Address { bytes: [5; 32] }, Address { bytes: other });
    other[31] = 6;
    assert_ne!(Address { bytes: [5; 32] }, Address { bytes: other });
    assert_eq!(Identity { bytes: [5; 32] }, Identity { bytes: [5; 32] });
    assert_ne!(Identity { bytes: [5; 32] }, Identity { bytes: other });
    assert!(agentvault::key::bytes_equal(&[1; 32], &[1; 32]));
    assert!(!agentvault::key::bytes_equal(&[1; 32], &other));
}

#[test]
fn a_new_store_is_empty() {
    let store: RecordStore<RegistryStats> = RecordStore::new();
    assert!(!store.contains(&address(1)));
    assert_eq!(store.read(&address(1)), None);
}

#[test]
fn create_fails_at_an_occupied_address() {
    let mut store: RecordStore<RegistryStats> = RecordStore::new();
    assert!(store.create(address(1), stats(1)));
    assert!(!store.create(address(1), stats(2)));
    assert_eq!(store.read(&address(1)), Some(&stats(1)));
    assert!(store.create(address(2), stats(2)));
    assert_eq!(store.read(&address(2)), Some(&stats(2)));
    assert_eq!(store.read(&address(1)), Some(&stats(1)));
}

#[test]
fn update_replaces_only_what_exists() {
    let mut store: RecordStore<RegistryStats> = RecordStore::new();
    assert!(!store.update(&address(1), stats(9)));
    assert!(!store.contains(&address(1)));
    assert!(store.create(address(1), stats(1)));
    assert!(store.create(address(2), stats(2)));
    assert!(store.update(&address(1), stats(9)));
    assert_eq!(store.read(&address(1)), Some(&stats(9)));
    assert_eq!(store.read(&address(2)), Some(&stats(2)));
}

#[test]
fn destroy_frees_the_address() {
    let mut store: RecordStore<RegistryStats> = RecordStore::new();
    assert_eq!(store.destroy(&address(1)), None);
    assert!(store.create(address(1), stats(1)));
    assert!(store.create(address(2), stats(2)));
    assert!(store.create(address(3), stats(3)));
    assert_eq!(store.destroy(&address(2)), Some(stats(2)));
    assert!(!store.contains(&address(2)));
    assert_eq!(store.read(&address(1)), Some(&stats(1)));
    assert_eq!(store.read(&address(3)), Some(&stats(3)));
    assert_eq!(store.destroy(&address(2)), None);
    assert!(store.create(address(2), stats(20)));
    assert_eq!(store.read(&address(2)), Some(&stats(20)));
}
