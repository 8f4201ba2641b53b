use dewey_lib::error::categories::ErrorCategory;
use dewey_lib::error_subcategories::{
    KeyGenerationSubcategory, KeyManagementSubcategory, KeyringSubcategory,
};
use dewey_lib::services::key_management::{
    decode_key, encode_key, generate_key, CustodyAction, CustodyEvent, KeyManager, KeyStore,
    Lookup, MasterKey,
};

const RECORD_0_TO_31: &str = "AAECAwQFBgcICQoLDA0ODxAREhMUFRYXGBkaGxwdHh8=";

/// Two stores in memory, and a source of keys.
struct World {
    primary: Option<String>,
    primary_accepts: bool,
    fallback: Option<String>,
    fallback_accepts: bool,
    fresh: Option<Vec<u8>>,
    actions: usize,
}

impl World {
    fn empty() -> World {
        World {
            primary: None,
            primary_accepts: true,
            fallback: None,
            fallback_accepts: true,
            fresh: Some((100u8..132).collect()),
            actions: 0,
        }
    }

    fn has_key_in_primary_store(&self) -> bool {
        self.lookup(KeyStore::Primary).has_key()
    }

    fn has_key_in_fallback_store(&self) -> bool {
        self.lookup(KeyStore::Fallback).has_key()
    }

    fn lookup(&self, store: KeyStore) -> Lookup {
        let record = match store {
            KeyStore::Primary => &self.primary,
            KeyStore::Fallback => &self.fallback,
        };
        match record {
            Some(record) => Lookup::Found(record.clone()),
            None => Lookup::Absent,
        }
    }

    fn get_or_create_key(&mut self) -> Result<MasterKey, ErrorCategory> {
        let mut manager = KeyManager::new();
        let mut event = CustodyEvent::Begin;
        loop {
            let (next, action) = manager.step(event);
            manager = next;
            self.actions += 1;
            event = match action {
                CustodyAction::Lookup(store) => CustodyEvent::Looked(self.lookup(store)),
                CustodyAction::Generate => CustodyEvent::Generated(
                    self.fresh.clone().map(|bytes| MasterKey::from_bytes(bytes).unwrap()),
                ),
                CustodyAction::Store(store, record) => {
                    let (slot, accepts) = match store {
                        KeyStore::Primary => (&mut self.primary, self.primary_accepts),
                        KeyStore::Fallback => (&mut self.fallback, self.fallback_accepts),
                    };
                    if accepts {
                        *slot = Some(record);
                    }
                    CustodyEvent::Stored(accepts)
                }
                CustodyAction::Resolved(key) => return Ok(key),
                CustodyAction::Failed(error) => return Err(error.category),
            };
        }
    }
}

#[test]
fn a_key_is_32_bytes() {
    assert!(MasterKey::from_bytes(vec![0; 31]).is_none());
    assert!(MasterKey::from_bytes(vec![0; 33]).is_none());
    assert!(MasterKey::from_bytes(vec![]).is_none());
    let key = MasterKey::from_bytes((0u8..32).collect()).unwrap();
    assert_eq!(key.as_bytes().len(), 32);
    assert_eq!(key.duplicate().as_bytes(), key.as_bytes());
}

#[test]
fn a_key_is_written_as_base64() {
    let key = MasterKey::from_bytes((0u8..32).collect()).unwrap();
    assert_eq!(encode_key(&key), RECORD_0_TO_31);
    let zero = MasterKey::from_bytes(vec![0; 32]).unwrap();
    assert_eq!(encode_key(&zero), "AAAAAAAAAAAAAAAAAAAAAAAAAAAAAAAAAAAAAAAAAAA=");
}

#[test]
fn a_record_is_read_as_a_key() {
    let key = decode_key(RECORD_0_TO_31).unwrap();
    assert_eq!(key.as_bytes(), (0u8..32).collect::<Vec<u8>>().as_slice());
}

#[test]
fn a_record_that_is_no_key_is_refused() {
    // 31 and 33 bytes, text that is no base64, padding that is not canonical.
    assert!(decode_key("AAAAAAAAAAAAAAAAAAAAAAAAAAAAAAAAAAAAAAAAAA==").is_none());
    assert!(decode_key("AAAAAAAAAAAAAAAAAAAAAAAAAAAAAAAAAAAAAAAAAAAA").is_none());
    assert!(decode_key("").is_none());
    assert!(decode_key("not base64 at all!").is_none());
    assert!(decode_key("AAECAwQFBgcICQoLDA0ODxAREhMUFRYXGBkaGxwdHh8").is_none());
    assert!(decode_key("AAECAwQFBgcICQoLDA0ODxAREhMUFRYXGBkaGxwdHh9=").is_none());
    assert!(decode_key(" AAECAwQFBgcICQoLDA0ODxAREhMUFRYXGBkaGxwdHh8=").is_none());
}

#[test]
fn generated_keys_have_32_bytes_and_differ() {
    let first = generate_key().unwrap();
    let second = generate_key().unwrap();
    assert_eq!(first.as_bytes().len(), 32);
    assert_ne!(first.as_bytes(), second.as_bytes());
}

#[test]
fn the_primary_store_is_asked_first() {
    let mut world = World::empty();
    world.primary = Some(RECORD_0_TO_31.to_string());
    world.fallback = Some(encode_key(&MasterKey::from_bytes(vec![9; 32]).unwrap()));
    let key = world.get_or_create_key().ok().unwrap();
    assert_eq!(key.as_bytes(), (0u8..32).collect::<Vec<u8>>().as_slice());
    assert_eq!(world.actions, 2);
}

#[test]
fn the_key_file_is_asked_second_and_trimmed() {
    let mut world = World::empty();
    world.fallback = Some(format!("\n {}\r\n", RECORD_0_TO_31));
    let key = world.get_or_create_key().ok().unwrap();
    assert_eq!(key.as_bytes(), (0u8..32).collect::<Vec<u8>>().as_slice());
    assert!(world.primary.is_none());
}

#[test]
fn the_credential_store_is_not_trimmed() {
    let mut world = World::empty();
    world.primary = Some(format!("{}\n", RECORD_0_TO_31));
    assert_eq!(
        world.get_or_create_key().err().unwrap(),
        ErrorCategory::Keyring(KeyringSubcategory::InvalidKey)
    );
}

#[test]
fn a_corrupt_record_is_reported_and_not_replaced() {
    let short = "AAAAAAAAAAAAAAAAAAAAAAAAAAAAAAAAAAAAAAAAAA==";
    let mut world = World::empty();
    world.primary = Some(short.to_string());
    assert_eq!(
        world.get_or_create_key().err().unwrap(),
        ErrorCategory::Keyring(KeyringSubcategory::InvalidKey)
    );
    assert_eq!(world.primary.as_deref(), Some(short));
    assert!(world.fallback.is_none());

    let mut world = World::empty();
    world.fallback = Some("garbage".to_string());
    assert_eq!(
        world.get_or_create_key().err().unwrap(),
        ErrorCategory::KeyGeneration(KeyGenerationSubcategory::InvalidLength)
    );
    assert_eq!(world.fallback.as_deref(), Some("garbage"));
    assert!(world.primary.is_none());
}

#[test]
fn a_key_is_generated_where_both_stores_are_empty() {
    let mut world = World::empty();
    let key = world.get_or_create_key().ok().unwrap();
    assert_eq!(key.as_bytes(), (100u8..132).collect::<Vec<u8>>().as_slice());
    assert_eq!(world.primary, Some(encode_key(&key)));
    assert!(world.fallback.is_none());
    assert!(world.has_key_in_primary_store());
    assert!(!world.has_key_in_fallback_store());
    assert_eq!(world.actions, 5);
}

#[test]
fn the_key_file_takes_the_key_where_the_credential_store_refuses() {
    let mut world = World::empty();
    world.primary_accepts = false;
    let key = world.get_or_create_key().ok().unwrap();
    assert_eq!(key.as_bytes().len(), 32);
    assert!(!world.has_key_in_primary_store());
    assert!(world.has_key_in_fallback_store());
    assert_eq!(world.fallback, Some(encode_key(&key)));
}

#[test]
fn the_second_call_finds_the_key_of_the_first() {
    for primary_accepts in [true, false] {
        let mut world = World::empty();
        world.primary_accepts = primary_accepts;
        let first = world.get_or_create_key().ok().unwrap();
        world.fresh = Some(vec![1; 32]);
        let second = world.get_or_create_key().ok().unwrap();
        assert_eq!(first.as_bytes(), second.as_bytes());
    }
}

#[test]
fn failures_of_generation_and_storage_are_reported() {
    let mut world = World::empty();
    world.fresh = None;
    assert_eq!(
        world.get_or_create_key().err().unwrap(),
        ErrorCategory::KeyManagement(KeyManagementSubcategory::KeyGenerationFailed)
    );
    let mut world = World::empty();
    world.primary_accepts = false;
    world.fallback_accepts = false;
    assert_eq!(
        world.get_or_create_key().err().unwrap(),
        ErrorCategory::KeyGeneration(KeyGenerationSubcategory::StorageFailed)
    );
    assert!(world.primary.is_none() && world.fallback.is_none());
}

#[test]
fn a_store_that_cannot_be_asked_counts_as_empty() {
    let (manager, action) = KeyManager::new().step(CustodyEvent::Begin);
    assert!(matches!(action, CustodyAction::Lookup(KeyStore::Primary)));
    let (manager, action) = manager.step(CustodyEvent::Looked(Lookup::Unavailable));
    assert!(matches!(action, CustodyAction::Lookup(KeyStore::Fallback)));
    let (_, action) = manager.step(CustodyEvent::Looked(Lookup::Unavailable));
    assert!(matches!(action, CustodyAction::Generate));
    assert!(!Lookup::Unavailable.has_key());
    assert!(!Lookup::Absent.has_key());
    assert!(Lookup::Found("anything".to_string()).has_key());
}

#[test]
fn a_report_out_of_turn_ends_the_resolution() {
    let (manager, action) = KeyManager::new().step(CustodyEvent::Stored(true));
    match action {
        CustodyAction::Failed(error) => assert_eq!(
            error.category,
            ErrorCategory::KeyManagement(KeyManagementSubcategory::KeyRetrievalFailed)
        ),
        _ => panic!("the manager went on after a report out of turn"),
    }
    let (_, action) = manager.step(CustodyEvent::Begin);
    assert!(matches!(action, CustodyAction::Failed(_)));
}
