use mint_lock::{
    recorded, DelegateKey, DelegateRegistry, KeyedStore, MinterConfig, MinterStats, Principal,
    PrincipalKind, QuotaEntry, QuotaKey, QuotaLedger, StorageKey, StoreKey,
};

fn token() -> Principal {
    Principal::contract(0, 7)
}

fn bob() -> Principal {
    Principal::account(1, 2)
}

fn carol() -> Principal {
    Principal::account(1, 3)
}

fn key(epoch: u32) -> QuotaKey {
    QuotaKey { contract: token(), minter: bob(), epoch_length: 100, epoch }
}

#[test]
fn principals_differ_by_kind_and_by_key() {
    assert_eq!(Principal::account(1, 2), Principal::account(1, 2));
    assert_ne!(Principal::account(1, 2), Principal::contract(1, 2));
    assert_ne!(Principal::account(1, 2), Principal::account(2, 1));
    assert_ne!(Principal::account(1, 2), Principal::account(1, 3));
}

#[test]
fn principal_is_read_from_the_32_bytes_of_its_key() {
    let mut key = [0u8; 32];
    key[0] = 1;
    key[15] = 2;
    key[16] = 3;
    key[31] = 4;
    let found = Principal::from_key(PrincipalKind::Contract, &key).unwrap();
    assert_eq!(found.kind, PrincipalKind::Contract);
    assert_eq!(found.head, 1 + (2u128 << 120));
    assert_eq!(found.tail, 3 + (4u128 << 120));
    assert_eq!(found, Principal::contract(1 + (2u128 << 120), 3 + (4u128 << 120)));
    assert_ne!(found, Principal::from_key(PrincipalKind::Account, &key).unwrap());
}

#[test]
fn principal_key_reads_back_byte_by_byte() {
    let key: Vec<u8> = (1u8..=32).collect();
    let found = Principal::from_key(PrincipalKind::Account, &key).unwrap();
    assert_eq!(found.key(), key);
    assert_eq!(Principal::account(0, 0).key(), vec![0u8; 32]);
    assert_eq!(Principal::account(u128::MAX, 0).key()[..16], [0xffu8; 16]);
    assert_eq!(Principal::account(u128::MAX, 0).key()[16..], [0u8; 16]);
    assert_eq!(Principal::account(0x0102, 0).key()[..2], [2u8, 1]);
}

#[test]
fn principal_needs_a_key_of_32_bytes() {
    assert_eq!(Principal::from_key(PrincipalKind::Account, &[]), None);
    assert_eq!(Principal::from_key(PrincipalKind::Account, &[7u8; 31]), None);
    assert_eq!(Principal::from_key(PrincipalKind::Account, &[7u8; 33]), None);
    assert!(Principal::from_key(PrincipalKind::Account, &[7u8; 32]).is_some());
}

#[test]
fn keys_are_the_same_when_every_part_is() {
    let a = DelegateKey { contract: token(), minter: bob() };
    assert!(a.same(&DelegateKey { contract: token(), minter: bob() }));
    assert!(!a.same(&DelegateKey { contract: token(), minter: carol() }));
    assert!(!a.same(&DelegateKey { contract: bob(), minter: bob() }));
    assert!(key(2).same(&key(2)));
    assert!(!key(2).same(&key(3)));
    assert!(!key(2).same(&QuotaKey { epoch_length: 99, ..key(2) }));
    assert!(!key(2).same(&QuotaKey { minter: carol(), ..key(2) }));
    assert!(!key(2).same(&QuotaKey { contract: carol(), ..key(2) }));
}

#[test]
fn storage_keys_keep_the_shape_of_their_tuples() {
    let delegate = DelegateKey { contract: token(), minter: bob() };
    assert_eq!(delegate.storage_key(), StorageKey::Minter(token(), bob()));
    assert_eq!(key(2).storage_key(), StorageKey::MinterStats(token(), bob(), 100, 2));
    assert_ne!(key(2).storage_key(), key(3).storage_key());
}

#[test]
fn keyed_store_holds_each_key_once() {
    let mut store: KeyedStore<QuotaKey, u32> = KeyedStore::new();
    assert_eq!(store.get(&key(1)), None);
    store.insert(key(1), 10);
    store.insert(key(2), 20);
    assert_eq!(store.get(&key(1)), Some(10));
    assert_eq!(store.get(&key(2)), Some(20));
    store.insert(key(1), 11);
    assert_eq!(store.get(&key(1)), Some(11));
    assert_eq!(store.get(&key(2)), Some(20));
    store.remove(&key(1));
    assert_eq!(store.get(&key(1)), None);
    assert_eq!(store.get(&key(2)), Some(20));
    store.remove(&key(1));
    assert_eq!(store.get(&key(2)), Some(20));
}

#[test]
fn registry_without_delegates_finds_nobody() {
    let registry = DelegateRegistry::new();
    assert_eq!(registry.lookup(token(), bob()), None);
}

#[test]
fn registered_config_reads_back_field_by_field() {
    let mut registry = DelegateRegistry::new();
    registry.register(token(), bob(), MinterConfig { limit: 1000, epoch_length: 100 });
    let read = registry.lookup(token(), bob()).unwrap();
    assert_eq!(read.limit, 1000);
    assert_eq!(read.epoch_length, 100);
    assert_eq!(registry.lookup(token(), carol()), None);
    assert_eq!(registry.lookup(bob(), token()), None);
}

#[test]
fn registering_again_replaces_the_config() {
    let mut registry = DelegateRegistry::new();
    registry.register(token(), bob(), MinterConfig { limit: 1000, epoch_length: 100 });
    registry.register(token(), carol(), MinterConfig { limit: 5, epoch_length: 7 });
    registry.register(token(), bob(), MinterConfig { limit: -3, epoch_length: 1 });
    assert_eq!(
        registry.lookup(token(), bob()),
        Some(MinterConfig { limit: -3, epoch_length: 1 })
    );
    assert_eq!(
        registry.lookup(token(), carol()),
        Some(MinterConfig { limit: 5, epoch_length: 7 })
    );
}

#[test]
fn default_stats_are_zero() {
    assert_eq!(MinterStats::default(), MinterStats { consumed_limit: 0 });
    assert_eq!(recorded(None), MinterStats { consumed_limit: 0 });
    assert_eq!(
        recorded(Some(MinterStats { consumed_limit: 9 })),
        MinterStats { consumed_limit: 9 }
    );
}

#[test]
fn ledger_reads_zero_for_a_key_never_written() {
    let ledger = QuotaLedger::new();
    assert_eq!(ledger.read(key(2), 250), MinterStats { consumed_limit: 0 });
    assert_eq!(ledger.find(key(2), 250), None);
    assert_eq!(ledger.entry(key(2)), None);
}

#[test]
fn ledger_keeps_a_record_until_it_expires() {
    let mut ledger = QuotaLedger::new();
    ledger.commit(key(2), MinterStats { consumed_limit: 1500 }, 250, 50);
    assert_eq!(
        ledger.entry(key(2)),
        Some(QuotaEntry { stats: MinterStats { consumed_limit: 1500 }, expires_at: 300 })
    );
    assert_eq!(ledger.read(key(2), 250), MinterStats { consumed_limit: 1500 });
    assert_eq!(ledger.read(key(2), 299), MinterStats { consumed_limit: 1500 });
    assert_eq!(ledger.find(key(2), 299), Some(MinterStats { consumed_limit: 1500 }));
    assert_eq!(ledger.read(key(2), 300), MinterStats { consumed_limit: 0 });
    assert_eq!(ledger.find(key(2), 300), None);
    assert_eq!(ledger.read(key(3), 250), MinterStats { consumed_limit: 0 });
}

#[test]
fn ledger_commit_replaces_record_and_expiry() {
    let mut ledger = QuotaLedger::new();
    ledger.commit(key(2), MinterStats { consumed_limit: 1 }, 210, 5);
    ledger.commit(key(2), MinterStats { consumed_limit: 2 }, 220, 80);
    assert_eq!(
        ledger.entry(key(2)),
        Some(QuotaEntry { stats: MinterStats { consumed_limit: 2 }, expires_at: 300 })
    );
    assert_eq!(ledger.read(key(2), 216), MinterStats { consumed_limit: 2 });
}

#[test]
fn ledger_expiry_is_counted_past_the_largest_tick() {
    let mut ledger = QuotaLedger::new();
    ledger.commit(key(2), MinterStats { consumed_limit: 4 }, u32::MAX, u32::MAX);
    assert_eq!(
        ledger.entry(key(2)),
        Some(QuotaEntry {
            stats: MinterStats { consumed_limit: 4 },
            expires_at: 2 * (u32::MAX as u64),
        })
    );
    assert_eq!(ledger.read(key(2), u32::MAX), MinterStats { consumed_limit: 4 });
}

#[test]
fn ledger_restore_undoes_a_commit() {
    let mut ledger = QuotaLedger::new();
    let nothing = ledger.entry(key(2));
    ledger.commit(key(2), MinterStats { consumed_limit: 10 }, 250, 50);
    ledger.restore(key(2), nothing);
    assert_eq!(ledger.entry(key(2)), None);

    ledger.commit(key(2), MinterStats { consumed_limit: 10 }, 250, 50);
    let first = ledger.entry(key(2));
    ledger.commit(key(2), MinterStats { consumed_limit: 25 }, 260, 40);
    ledger.restore(key(2), first);
    assert_eq!(
        ledger.entry(key(2)),
        Some(QuotaEntry { stats: MinterStats { consumed_limit: 10 }, expires_at: 300 })
    );
}
