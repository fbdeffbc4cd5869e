use password_manager::key_management::models::{KeyAlgorithm, KeyMetadata, KeyStatus, KeyType};
use password_manager::key_management::plugin::KeyManagementPlugin;
use password_manager::key_management::security::{MockHSM, SecurityModuleInterface};
use password_manager::error::PluginError;
use password_manager::key_management::state::MirrorWrite;
use password_manager::text_map::TextMap;

struct BrokenModule;

impl SecurityModuleInterface for BrokenModule {
    fn generate_key(&self, _algorithm: KeyAlgorithm) -> Result<Vec<u8>, String> {
        Err("module unavailable".to_string())
    }

    fn store_key(&self, _key_id: &str, _key_data: &[u8]) -> Result<(), String> {
        Err("module unavailable".to_string())
    }

    fn retrieve_key(&self, _key_id: &str) -> Result<Vec<u8>, String> {
        Err("module unavailable".to_string())
    }

    fn delete_key(&self, _key_id: &str) -> Result<(), String> {
        Err("module unavailable".to_string())
    }

    fn sign_data(&self, _key_id: &str, _data: &[u8]) -> Result<Vec<u8>, String> {
        Err("module unavailable".to_string())
    }

    fn verify_signature(&self, _key_id: &str, _data: &[u8], _signature: &[u8]) -> Result<bool, String> {
        Err("module unavailable".to_string())
    }

    fn encrypt_data(&self, _key_id: &str, _data: &[u8]) -> Result<Vec<u8>, String> {
        Err("module unavailable".to_string())
    }

    fn decrypt_data(&self, _key_id: &str, _encrypted_data: &[u8]) -> Result<Vec<u8>, String> {
        Err("module unavailable".to_string())
    }
}

fn make_key(
    engine: &mut KeyManagementPlugin<MockHSM>,
    name: &str,
    algorithm: KeyAlgorithm,
    owner: &str,
    requires_approval: bool,
    tags: Option<TextMap>,
) -> KeyMetadata {
    engine
        .create_key(
            name.to_string(),
            String::new(),
            KeyType::Symmetric,
            algorithm,
            owner.to_string(),
            requires_approval,
            tags,
            None,
        )
        .unwrap()
}

#[test]
fn create_rotate_list_scenario() {
    let mut engine = KeyManagementPlugin::new();
    let created = make_key(&mut engine, "k1", KeyAlgorithm::AES256, "alice", false, None);
    assert_eq!(created.version, 1);
    assert_eq!(created.status, KeyStatus::Active);
    let rotated = engine.rotate_key(&created.id, "alice").unwrap();
    assert_eq!(rotated.version, 2);
    assert_eq!(rotated.id, created.id);
    let mut filters = TextMap::new();
    filters.insert("owner".to_string(), "alice".to_string());
    let listed = engine.list_keys(Some(&filters));
    assert_eq!(listed.len(), 1);
    assert_eq!(listed[0].version, 2);
}

#[test]
fn created_key_is_listed_once_for_every_algorithm() {
    let algorithms = vec![
        KeyAlgorithm::AES256,
        KeyAlgorithm::RSA2048,
        KeyAlgorithm::RSA4096,
        KeyAlgorithm::ECDSA,
        KeyAlgorithm::ED25519,
    ];
    for algorithm in algorithms {
        let mut engine = KeyManagementPlugin::new();
        let created = make_key(&mut engine, "k", algorithm, "alice", false, None);
        let empty = TextMap::new();
        let listed = engine.list_keys(Some(&empty));
        let matching: Vec<&KeyMetadata> = listed.iter().filter(|k| k.id == created.id).collect();
        assert_eq!(matching.len(), 1);
        assert_eq!(matching[0].version, 1);
        assert_eq!(matching[0].status, KeyStatus::Active);
        assert_eq!(matching[0].algorithm, algorithm);
        assert_eq!(engine.list_keys(None).len(), 1);
    }
}

#[test]
fn new_key_has_fresh_identifier_and_one_audit_entry() {
    let mut engine = KeyManagementPlugin::new();
    let a = make_key(&mut engine, "a", KeyAlgorithm::AES256, "alice", false, None);
    let b = make_key(&mut engine, "b", KeyAlgorithm::AES256, "alice", false, None);
    assert_eq!(a.id.len(), 36);
    assert_ne!(a.id, b.id);
    assert_eq!(a.created_at, a.updated_at);
    assert!(a.expiration_date.is_none());
    assert_eq!(engine.keys().len(), 2);
    assert_eq!(engine.audit_log().len(), 2);
    let entry = &engine.audit_log()[0];
    assert_eq!(entry.action, "CREATE_KEY");
    assert_eq!(entry.user, "alice");
    assert_eq!(entry.key_id, Some(a.id.clone()));
    assert_eq!(entry.details, "Created key: a");
    assert!(entry.success);
    assert!(entry.error.is_none());
}

#[test]
fn rotation_bumps_version_and_keeps_identity() {
    let mut engine = KeyManagementPlugin::new();
    let created = make_key(&mut engine, "k", KeyAlgorithm::RSA2048, "alice", false, None);
    let rotated = engine.rotate_key(&created.id, "bob").unwrap();
    assert_eq!(rotated.version, created.version + 1);
    assert!(rotated.updated_at >= created.updated_at);
    assert_eq!(rotated.id, created.id);
    assert_eq!(rotated.algorithm, created.algorithm);
    assert_eq!(rotated.created_at, created.created_at);
    assert_eq!(engine.audit_log().len(), 2);
    assert_eq!(engine.audit_log()[1].action, "ROTATE_KEY");
    assert_eq!(engine.audit_log()[1].user, "bob");
    assert_eq!(engine.audit_log()[1].details, "Rotated key: k");
}

#[test]
fn rotation_sets_the_time_given() {
    let mut engine = KeyManagementPlugin::new();
    let created = engine
        .create_key_with(
            "k".to_string(),
            "d".to_string(),
            KeyType::HMAC,
            KeyAlgorithm::ECDSA,
            "alice".to_string(),
            false,
            None,
            Some(99),
            "key-1".to_string(),
            1_000,
            "entry-1".to_string(),
            1_001,
            Ok(()),
        )
        .unwrap();
    assert_eq!(created.id, "key-1");
    assert_eq!(created.created_at, 1_000);
    assert_eq!(created.expiration_date, Some(99));
    let rotated = engine
        .rotate_key_with("key-1", "bob", 2_000, "entry-2".to_string(), 2_001, "op-1".to_string(), Ok(()))
        .unwrap();
    assert_eq!(rotated.version, 2);
    assert_eq!(rotated.updated_at, 2_000);
    assert!(rotated.updated_at > created.updated_at);
    assert_eq!(rotated.created_at, 1_000);
    assert_eq!(engine.keys()[0].version, 2);
    assert_eq!(engine.audit_log()[1].id, "entry-2");
    assert_eq!(engine.audit_log()[1].timestamp, 2_001);
    assert!(engine.pending_approvals().is_empty());
}

#[test]
fn guarded_rotation_awaits_approval() {
    let mut engine = KeyManagementPlugin::new();
    let created = make_key(&mut engine, "k", KeyAlgorithm::AES256, "alice", true, None);
    let first = engine.rotate_key(&created.id, "alice");
    let second = engine.rotate_key(&created.id, "alice");
    let first_id = match first {
        Err(PluginError::ApprovalRequired(id)) => id,
        _ => panic!("approval was not asked for"),
    };
    let second_id = match second {
        Err(PluginError::ApprovalRequired(id)) => id,
        _ => panic!("approval was not asked for"),
    };
    assert_ne!(first_id, second_id);
    assert_eq!(engine.keys()[0].version, 1);
    assert_eq!(engine.pending_approvals().len(), 2);
    assert_eq!(engine.pending_approvals()[0].operation_id, first_id);
    assert_eq!(engine.pending_approvals()[0].key_id, created.id);
    assert_eq!(engine.pending_approvals()[0].operation, "ROTATE");
    assert_eq!(engine.audit_log().len(), 3);
    assert_eq!(engine.audit_log()[1].action, "REQUEST_KEY_ROTATION");
    assert_eq!(
        engine.audit_log()[1].details,
        format!("Requested key rotation, approval ID: {}", first_id)
    );
    assert!(engine.audit_log()[1].success);
}

#[test]
fn approval_error_carries_the_identifier_in_words() {
    let e = PluginError::ApprovalRequired("abc".to_string());
    assert_eq!(e.message(), "Key rotation requires approval. Approval ID: abc");
    assert_eq!(PluginError::NotFound.message(), "Key not found");
    assert_eq!(
        PluginError::InvalidState(KeyStatus::Suspended).message(),
        "Key is not active, current status: Suspended"
    );
    assert_eq!(PluginError::Validation("bad".to_string()).message(), "bad");
    assert_eq!(PluginError::SecurityModule("down".to_string()).message(), "down");
    assert_eq!(PluginError::VersionExhausted.message(), "Key version cannot be increased");
}

#[test]
fn rotating_unknown_key_is_not_found() {
    let mut engine = KeyManagementPlugin::new();
    let r = engine.rotate_key("missing", "bob");
    assert!(matches!(r, Err(PluginError::NotFound)));
    assert_eq!(engine.audit_log().len(), 1);
    let entry = &engine.audit_log()[0];
    assert!(!entry.success);
    assert_eq!(entry.action, "ROTATE_KEY");
    assert_eq!(entry.user, "bob");
    assert_eq!(entry.key_id, Some("missing".to_string()));
    assert_eq!(entry.details, "Rejected key rotation: missing");
    assert_eq!(entry.error, Some("Key not found".to_string()));
    assert!(engine.keys().is_empty());
    assert!(engine.pending_approvals().is_empty());
}

#[test]
fn get_key_finds_only_known_keys() {
    let mut engine = KeyManagementPlugin::new();
    let mut tags = TextMap::new();
    tags.insert("environment".to_string(), "test".to_string());
    engine
        .create_key_with(
            "k".to_string(),
            String::new(),
            KeyType::Symmetric,
            KeyAlgorithm::AES256,
            "alice".to_string(),
            false,
            Some(tags),
            None,
            "key-1".to_string(),
            1,
            "entry-1".to_string(),
            2,
            Ok(()),
        )
        .unwrap();
    let found = engine.get_key("key-1").unwrap();
    assert_eq!(found.status, KeyStatus::Active);
    assert_eq!(found.tags.get("environment"), Some(&"test".to_string()));
    assert!(matches!(engine.get_key("key-2"), Err(PluginError::NotFound)));
    assert!(engine.rotation_obstacle("key-1").is_none());
    assert!(matches!(engine.rotation_obstacle("key-2"), Some(PluginError::NotFound)));
}

#[test]
fn failing_security_module_changes_nothing() {
    let mut engine = KeyManagementPlugin::with_security_module(BrokenModule);
    let r = engine.create_key(
        "k".to_string(),
        String::new(),
        KeyType::Symmetric,
        KeyAlgorithm::AES256,
        "alice".to_string(),
        false,
        None,
        None,
    );
    match r {
        Err(PluginError::SecurityModule(text)) => assert_eq!(text, "module unavailable"),
        _ => panic!("the module's failure was not reported"),
    }
    assert!(engine.keys().is_empty());
    assert!(engine.audit_log().is_empty());
    let made = engine.create_key_with(
        "k".to_string(),
        String::new(),
        KeyType::Symmetric,
        KeyAlgorithm::AES256,
        "alice".to_string(),
        false,
        None,
        None,
        "key-1".to_string(),
        1,
        "entry-1".to_string(),
        2,
        Ok(()),
    );
    assert!(made.is_ok());
    let rotated = engine.rotate_key("key-1", "alice");
    assert!(matches!(rotated, Err(PluginError::SecurityModule(_))));
    assert_eq!(engine.keys()[0].version, 1);
    assert_eq!(engine.audit_log().len(), 1);
}

fn stored_key(id: &str, status: KeyStatus, version: u32) -> KeyMetadata {
    let mut key = KeyMetadata::assemble(
        id.to_string(),
        5,
        "stored".to_string(),
        String::new(),
        KeyType::Symmetric,
        KeyAlgorithm::AES256,
        "alice".to_string(),
        false,
    );
    key.status = status;
    key.version = version;
    key
}

#[test]
fn rotating_inactive_key_is_invalid_state() {
    let statuses = vec![
        KeyStatus::Suspended,
        KeyStatus::Expired,
        KeyStatus::Compromised,
        KeyStatus::Destroyed,
        KeyStatus::PendingDestruction,
    ];
    for status in statuses {
        let mut engine = KeyManagementPlugin::new();
        engine.restore_key(stored_key("key-1", status, 3));
        assert!(engine.audit_log().is_empty());
        let r = engine.rotate_key("key-1", "bob");
        match r {
            Err(PluginError::InvalidState(found)) => assert_eq!(found, status),
            _ => panic!("the key's status was not reported"),
        }
        assert_eq!(engine.keys()[0].version, 3);
        assert_eq!(engine.audit_log().len(), 1);
        let entry = &engine.audit_log()[0];
        assert!(!entry.success);
        assert_eq!(
            entry.error,
            Some(format!("Key is not active, current status: {:?}", status))
        );
    }
}

#[test]
fn exhausted_version_is_refused() {
    let mut engine = KeyManagementPlugin::new();
    engine.restore_key(stored_key("key-1", KeyStatus::Active, u32::MAX));
    assert!(matches!(
        engine.rotation_obstacle("key-1"),
        Some(PluginError::VersionExhausted)
    ));
    assert_eq!(engine.rotation_algorithm("key-1"), None);
    assert_eq!(engine.rotation_algorithm("key-2"), None);
    let r = engine.rotate_key("key-1", "bob");
    assert!(matches!(r, Err(PluginError::VersionExhausted)));
    assert_eq!(engine.keys()[0].version, u32::MAX);
    assert_eq!(engine.audit_log().len(), 1);
    engine.restore_key(stored_key("key-1", KeyStatus::Active, 7));
    assert_eq!(engine.keys().len(), 1);
    assert_eq!(engine.rotation_algorithm("key-1"), Some(KeyAlgorithm::AES256));
    assert_eq!(engine.rotate_key("key-1", "bob").unwrap().version, 8);
}

#[test]
fn failed_provisioning_leaves_the_key_as_it_was() {
    let mut engine = KeyManagementPlugin::new();
    engine
        .create_key_with(
            "k".to_string(),
            String::new(),
            KeyType::Symmetric,
            KeyAlgorithm::AES256,
            "alice".to_string(),
            false,
            None,
            None,
            "key-1".to_string(),
            1,
            "entry-1".to_string(),
            2,
            Ok(()),
        )
        .unwrap();
    assert!(engine.rotation_obstacle("key-1").is_none());
    let r = engine.rotate_key_with("key-1", "a", 3, "e".to_string(), 4, "o".to_string(), Err("x".to_string()));
    assert!(matches!(r, Err(PluginError::SecurityModule(_))));
    assert_eq!(engine.audit_log().len(), 1);
}

#[test]
fn tag_filter_keeps_only_matching_keys() {
    let mut engine = KeyManagementPlugin::new();
    let mut test_tags = TextMap::new();
    test_tags.insert("environment".to_string(), "test".to_string());
    let mut prod_tags = TextMap::new();
    prod_tags.insert("environment".to_string(), "prod".to_string());
    let tagged = make_key(&mut engine, "t", KeyAlgorithm::AES256, "alice", false, Some(test_tags));
    make_key(&mut engine, "p", KeyAlgorithm::AES256, "alice", false, Some(prod_tags));
    make_key(&mut engine, "n", KeyAlgorithm::AES256, "alice", false, None);
    let mut filters = TextMap::new();
    filters.insert("tag.environment".to_string(), "test".to_string());
    let listed = engine.list_keys(Some(&filters));
    assert_eq!(listed.len(), 1);
    assert_eq!(listed[0].id, tagged.id);
    assert_eq!(engine.list_keys(None).len(), 3);
}

#[test]
fn filters_are_anded_and_unknown_names_ignored() {
    let mut engine = KeyManagementPlugin::new();
    make_key(&mut engine, "a", KeyAlgorithm::AES256, "alice", false, None);
    make_key(&mut engine, "b", KeyAlgorithm::RSA2048, "alice", false, None);
    make_key(&mut engine, "c", KeyAlgorithm::RSA2048, "bob", false, None);
    let mut filters = TextMap::new();
    filters.insert("owner".to_string(), "alice".to_string());
    filters.insert("algorithm".to_string(), "RSA-2048".to_string());
    filters.insert("colour".to_string(), "blue".to_string());
    let listed = engine.list_keys(Some(&filters));
    assert_eq!(listed.len(), 1);
    assert_eq!(listed[0].name, "b");
    let mut by_status = TextMap::new();
    by_status.insert("status".to_string(), "ACTIVE".to_string());
    by_status.insert("type".to_string(), "SYMMETRIC".to_string());
    assert_eq!(engine.list_keys(Some(&by_status)).len(), 3);
    let mut none = TextMap::new();
    none.insert("status".to_string(), "Active".to_string());
    assert_eq!(engine.list_keys(Some(&none)).len(), 0);
}

#[test]
fn writes_are_queued_only_with_persistence() {
    let mut plain = KeyManagementPlugin::new();
    make_key(&mut plain, "a", KeyAlgorithm::AES256, "alice", false, None);
    assert!(plain.take_pending_writes().is_empty());
    let mut mirrored = KeyManagementPlugin::new().with_persistence();
    let created = make_key(&mut mirrored, "a", KeyAlgorithm::AES256, "alice", false, None);
    let writes = mirrored.take_pending_writes();
    assert_eq!(writes.len(), 2);
    match &writes[0] {
        MirrorWrite::Key(k) => assert_eq!(k.id, created.id),
        _ => panic!("the key was not queued first"),
    }
    match &writes[1] {
        MirrorWrite::Audit(e) => assert_eq!(e.action, "CREATE_KEY"),
        _ => panic!("the audit entry was not queued second"),
    }
    assert!(mirrored.take_pending_writes().is_empty());
    let _ = mirrored.rotate_key("absent", "bob");
    assert_eq!(mirrored.take_pending_writes().len(), 1);
}

#[test]
fn stand_in_module_answers_with_fixed_values() {
    let m = MockHSM;
    assert_eq!(m.generate_key(KeyAlgorithm::AES256), Ok(vec![0u8; 32]));
    assert_eq!(m.store_key("k", &[1, 2, 3]), Ok(()));
    assert_eq!(m.retrieve_key("k"), Ok(vec![0u8; 32]));
    assert_eq!(m.delete_key("k"), Ok(()));
    assert_eq!(m.sign_data("k", &[1]), Ok(vec![0u8; 64]));
    assert_eq!(m.verify_signature("k", &[1], &[2]), Ok(true));
    assert_eq!(m.encrypt_data("k", &[1, 2, 3]), Ok(vec![1u8, 2, 3]));
    assert_eq!(m.decrypt_data("k", &[4, 5]), Ok(vec![4u8, 5]));
}
