use password_manager::key_management::filters::{
    audit_meets, key_meets, limit_logs, order_newest_first, select_keys, select_logs,
};
use password_manager::key_management::models::{
    AuditLogEntry, KeyAlgorithm, KeyMetadata, KeyStatus, KeyType,
};
use password_manager::persistence::db_persistence::{
    audit_from_parts, audit_from_row, audit_query, audit_row_with, audit_to_row, key_from_parts,
    key_from_row, key_query, key_row_with, key_to_row, AuditRow, KeyRow,
    AUDIT_TABLE_SCHEMA, KEY_TABLE_SCHEMA, SAVE_AUDIT, SAVE_KEY, TAG_TABLE_SCHEMA,
};
use password_manager::error::PluginError;
use password_manager::persistence::file_persistence::FilePersistence;
use password_manager::text_map::TextMap;

fn filters(pairs: &[(&str, &str)]) -> TextMap {
    let mut m = TextMap::new();
    for (k, v) in pairs {
        m.insert(k.to_string(), v.to_string());
    }
    m
}

fn entry(id: &str, timestamp: i64, user: &str, action: &str, key_id: Option<&str>, success: bool) -> AuditLogEntry {
    AuditLogEntry {
        id: id.to_string(),
        timestamp,
        user: user.to_string(),
        action: action.to_string(),
        key_id: key_id.map(|k| k.to_string()),
        details: String::new(),
        success,
        error: if success { None } else { Some("failed".to_string()) },
    }
}

fn key(id: &str, owner: &str) -> KeyMetadata {
    KeyMetadata::assemble(
        id.to_string(),
        1_700_000_000_123_456,
        "name".to_string(),
        "description".to_string(),
        KeyType::AsymmetricPublic,
        KeyAlgorithm::ED25519,
        owner.to_string(),
        true,
    )
}

#[test]
fn key_query_without_filters() {
    let q = key_query(None);
    assert_eq!(q.text, "SELECT * FROM key_metadata");
    assert!(q.params.is_empty());
    let empty = key_query(Some(&TextMap::new()));
    assert_eq!(empty.text, "SELECT * FROM key_metadata");
    let unknown = key_query(Some(&filters(&[("colour", "blue")])));
    assert_eq!(unknown.text, "SELECT * FROM key_metadata");
    assert!(unknown.params.is_empty());
}

#[test]
fn key_query_with_filters() {
    let q = key_query(Some(&filters(&[
        ("status", "ACTIVE"),
        ("colour", "blue"),
        ("tag.environment", "test"),
        ("type", "HMAC"),
        ("algorithm", "ECDSA"),
        ("owner", "alice"),
    ])));
    assert_eq!(
        q.text,
        "SELECT * FROM key_metadata WHERE status = ? AND \
id IN (SELECT key_id FROM key_tags WHERE tag_key = ? AND tag_value = ?) AND \
key_type = ? AND algorithm = ? AND owner = ?"
    );
    assert_eq!(q.params, vec!["ACTIVE", "environment", "test", "HMAC", "ECDSA", "alice"]);
    let one = key_query(Some(&filters(&[("owner", "bob")])));
    assert_eq!(one.text, "SELECT * FROM key_metadata WHERE owner = ?");
    assert_eq!(one.params, vec!["bob"]);
}

#[test]
fn audit_query_orders_and_limits() {
    let plain = audit_query(None, None);
    assert_eq!(plain.text, "SELECT * FROM audit_logs ORDER BY timestamp DESC");
    let limited = audit_query(None, Some(25));
    assert_eq!(limited.text, "SELECT * FROM audit_logs ORDER BY timestamp DESC LIMIT 25");
    let zero = audit_query(None, Some(0));
    assert_eq!(zero.text, "SELECT * FROM audit_logs ORDER BY timestamp DESC LIMIT 0");
    let q = audit_query(
        Some(&filters(&[
            ("action", "ROTATE_KEY"),
            ("user", "alice"),
            ("key_id", "k-1"),
            ("success", "true"),
            ("owner", "x"),
        ])),
        Some(3),
    );
    assert_eq!(
        q.text,
        "SELECT * FROM audit_logs WHERE action = ? AND user = ? AND key_id = ? AND success = ? \
ORDER BY timestamp DESC LIMIT 3"
    );
    assert_eq!(q.params, vec!["ROTATE_KEY", "alice", "k-1", "1"]);
    let failed = audit_query(Some(&filters(&[("success", "no")])), None);
    assert_eq!(failed.params, vec!["0"]);
}

#[test]
fn schema_names_the_tables() {
    assert!(KEY_TABLE_SCHEMA.starts_with("CREATE TABLE IF NOT EXISTS key_metadata"));
    assert!(TAG_TABLE_SCHEMA.contains("ON DELETE CASCADE"));
    assert!(AUDIT_TABLE_SCHEMA.starts_with("CREATE TABLE IF NOT EXISTS audit_logs"));
    assert_eq!(SAVE_KEY.matches('?').count(), 12);
    assert_eq!(SAVE_AUDIT.matches('?').count(), 8);
}

#[test]
fn key_row_round_trip() {
    let mut k = key("id-1", "alice");
    k.expiration_date = Some(0);
    k.version = 4;
    k.tags.insert("a".to_string(), "b".to_string());
    let row = key_to_row(&k).unwrap();
    assert_eq!(row.key_type, "ASYMMETRIC_PUBLIC");
    assert_eq!(row.algorithm, "ED25519");
    assert_eq!(row.status, "ACTIVE");
    assert_eq!(row.created_at, "2023-11-14T22:13:20.123456+00:00");
    assert_eq!(row.expires_at, Some("1970-01-01T00:00:00+00:00".to_string()));
    assert_eq!(row.version, 4);
    assert_eq!(row.requires_approval, 1);
    let back = key_from_row(row, filters(&[("a", "b")])).unwrap();
    assert_eq!(back.id, "id-1");
    assert_eq!(back.key_type, KeyType::AsymmetricPublic);
    assert_eq!(back.algorithm, KeyAlgorithm::ED25519);
    assert_eq!(back.status, KeyStatus::Active);
    assert_eq!(back.created_at, 1_700_000_000_123_456);
    assert_eq!(back.expiration_date, Some(0));
    assert_eq!(back.version, 4);
    assert!(back.requires_approval);
    assert_eq!(back.tags.get("a"), Some(&"b".to_string()));
}

fn row() -> KeyRow {
    KeyRow {
        id: "id".to_string(),
        name: "n".to_string(),
        description: "d".to_string(),
        key_type: "HMAC".to_string(),
        algorithm: "AES-256".to_string(),
        status: "EXPIRED".to_string(),
        owner: "o".to_string(),
        created_at: "2020-01-01T00:00:00Z".to_string(),
        updated_at: "2020-01-01T01:00:00+01:00".to_string(),
        expires_at: None,
        version: 1,
        requires_approval: 0,
    }
}

#[test]
fn key_row_is_read_with_offsets() {
    let k = key_from_row(row(), TextMap::new()).unwrap();
    assert_eq!(k.created_at, 1_577_836_800_000_000);
    assert_eq!(k.updated_at, 1_577_836_800_000_000);
    assert_eq!(k.status, KeyStatus::Expired);
    assert!(!k.requires_approval);
    assert!(k.expiration_date.is_none());
}

#[test]
fn key_row_errors() {
    let mut r = row();
    r.created_at = "yesterday".to_string();
    assert!(key_from_row(r, TextMap::new()).unwrap_err().message().starts_with("解析创建时间失败: "));
    let mut r = row();
    r.updated_at = String::new();
    assert!(key_from_row(r, TextMap::new()).unwrap_err().message().starts_with("解析更新时间失败: "));
    let mut r = row();
    r.expires_at = Some("soon".to_string());
    assert!(key_from_row(r, TextMap::new()).unwrap_err().message().starts_with("解析过期时间失败: "));
    let mut r = row();
    r.key_type = "Hmac".to_string();
    assert_eq!(key_from_row(r, TextMap::new()).unwrap_err().message(), "无效的密钥类型: Hmac");
    let mut r = row();
    r.algorithm = "AES256".to_string();
    assert_eq!(key_from_row(r, TextMap::new()).unwrap_err().message(), "无效的算法: AES256");
    let mut r = row();
    r.status = "GONE".to_string();
    assert_eq!(key_from_row(r, TextMap::new()).unwrap_err().message(), "无效的状态: GONE");
    let mut k = key("id", "o");
    k.updated_at = i64::MIN;
    assert!(key_to_row(&k).is_none());
}

#[test]
fn audit_row_round_trip() {
    let e = entry("e-1", 1_000_000, "alice", "CREATE_KEY", Some("k-1"), false);
    let row = audit_to_row(&e).unwrap();
    assert_eq!(row.timestamp, "1970-01-01T00:00:01+00:00");
    assert_eq!(row.success, 0);
    assert_eq!(row.error, Some("failed".to_string()));
    let back = audit_from_row(row).unwrap();
    assert_eq!(back.id, "e-1");
    assert_eq!(back.timestamp, 1_000_000);
    assert_eq!(back.key_id, Some("k-1".to_string()));
    assert!(!back.success);
    let bad = AuditRow {
        id: "e".to_string(),
        timestamp: "now".to_string(),
        user: "u".to_string(),
        action: "a".to_string(),
        key_id: None,
        details: String::new(),
        success: 7,
        error: None,
    };
    assert!(audit_from_row(bad).unwrap_err().message().starts_with("解析时间戳失败: "));
    let mut late = entry("e", 0, "u", "a", None, true);
    late.timestamp = i64::MAX;
    assert!(audit_to_row(&late).is_none());
}

#[test]
fn file_store_paths() {
    let store = FilePersistence::new("/var/keys");
    assert_eq!(store.metadata_dir(), "/var/keys/metadata");
    assert_eq!(store.audit_log_file(), "/var/keys/audit.log");
    assert_eq!(store.metadata_path("abc"), "/var/keys/metadata/abc.json");
}

#[test]
fn file_store_lists_matching_keys() {
    let store = FilePersistence::new("base");
    let mut tagged = key("k-2", "bob");
    tagged.tags.insert("environment".to_string(), "test".to_string());
    let stored = vec![key("k-1", "alice"), tagged, key("k-3", "bob")];
    let all = store.list_key_metadata(&stored, None);
    assert_eq!(all.len(), 3);
    let bobs = store.list_key_metadata(&stored, Some(&filters(&[("owner", "bob")])));
    assert_eq!(bobs.len(), 2);
    assert_eq!(bobs[0].id, "k-2");
    assert_eq!(bobs[1].id, "k-3");
    let test = store.list_key_metadata(
        &stored,
        Some(&filters(&[("owner", "bob"), ("tag.environment", "test")])),
    );
    assert_eq!(test.len(), 1);
    assert_eq!(test[0].id, "k-2");
    assert!(key_meets(&stored[0], &filters(&[("type", "ASYMMETRIC_PUBLIC")])));
    assert!(!key_meets(&stored[0], &filters(&[("tag.environment", "test")])));
    assert_eq!(select_keys(&stored, Some(&filters(&[("algorithm", "ED25519")]))).len(), 3);
}

#[test]
fn file_store_loads_newest_first() {
    let store = FilePersistence::new("base");
    let stored = vec![
        entry("e-1", 10, "alice", "CREATE_KEY", Some("k-1"), true),
        entry("e-2", 30, "bob", "ROTATE_KEY", Some("k-1"), false),
        entry("e-3", 20, "alice", "ROTATE_KEY", Some("k-2"), true),
        entry("e-4", 30, "alice", "ROTATE_KEY", None, true),
    ];
    let all = store.load_audit_logs(&stored, None, None);
    let ids: Vec<&str> = all.iter().map(|e| e.id.as_str()).collect();
    assert_eq!(ids, vec!["e-2", "e-4", "e-3", "e-1"]);
    let two = store.load_audit_logs(&stored, None, Some(2));
    let ids: Vec<&str> = two.iter().map(|e| e.id.as_str()).collect();
    assert_eq!(ids, vec!["e-2", "e-4"]);
    let many = store.load_audit_logs(&stored, None, Some(9));
    assert_eq!(many.len(), 4);
    let alice = store.load_audit_logs(
        &stored,
        Some(&filters(&[("user", "alice"), ("action", "ROTATE_KEY")])),
        None,
    );
    let ids: Vec<&str> = alice.iter().map(|e| e.id.as_str()).collect();
    assert_eq!(ids, vec!["e-4", "e-3"]);
    let by_key = store.load_audit_logs(&stored, Some(&filters(&[("key_id", "k-1")])), None);
    assert_eq!(by_key.len(), 2);
    let failed = store.load_audit_logs(&stored, Some(&filters(&[("success", "false")])), None);
    assert_eq!(failed.len(), 1);
    assert_eq!(failed[0].id, "e-2");
    let odd = store.load_audit_logs(&stored, Some(&filters(&[("success", "1")])), None);
    assert_eq!(odd.len(), 1);
    let succeeded = store.load_audit_logs(&stored, Some(&filters(&[("success", "true")])), Some(0));
    assert!(succeeded.is_empty());
}

#[test]
fn audit_selection_in_parts() {
    let stored = vec![
        entry("e-1", 5, "alice", "CREATE_KEY", None, true),
        entry("e-2", 7, "bob", "CREATE_KEY", None, true),
    ];
    assert!(audit_meets(&stored[0], &filters(&[("user", "alice"), ("other", "x")])));
    assert!(!audit_meets(&stored[0], &filters(&[("key_id", "k")])));
    assert_eq!(select_logs(&stored, Some(&filters(&[("user", "bob")]))).len(), 1);
    assert_eq!(select_logs(&stored, None).len(), 2);
    let ordered = order_newest_first(&stored);
    assert_eq!(ordered[0].id, "e-2");
    assert_eq!(limit_logs(ordered, Some(1)).len(), 1);
}

#[test]
fn rows_are_built_from_the_times_given() {
    let k = key("id-9", "alice");
    let r = key_row_with(&k, "c".to_string(), "u".to_string(), Some("e".to_string()));
    assert_eq!(r.id, "id-9");
    assert_eq!(r.created_at, "c");
    assert_eq!(r.updated_at, "u");
    assert_eq!(r.expires_at, Some("e".to_string()));
    assert_eq!(r.status, "ACTIVE");
    assert_eq!(r.requires_approval, 1);
    let back = key_from_parts(r, TextMap::new(), Ok(1), Ok(2), Some(Ok(3))).unwrap();
    assert_eq!(back.created_at, 1);
    assert_eq!(back.updated_at, 2);
    assert_eq!(back.expiration_date, Some(3));
    assert_eq!(back.owner, "alice");
    let failed = key_from_parts(row(), TextMap::new(), Ok(1), Err("bad".to_string()), None);
    match failed {
        Err(PluginError::Persistence(text)) => assert_eq!(text, "解析更新时间失败: bad"),
        _ => panic!("the time that is no time was not reported"),
    }
    let first = key_from_parts(
        row(),
        TextMap::new(),
        Err("one".to_string()),
        Err("two".to_string()),
        Some(Err("three".to_string())),
    );
    assert_eq!(first.unwrap_err().message(), "解析创建时间失败: one");
    let last = key_from_parts(row(), TextMap::new(), Ok(1), Ok(2), Some(Err("three".to_string())));
    assert_eq!(last.unwrap_err().message(), "解析过期时间失败: three");
    let e = entry("e-1", 9, "u", "a", None, true);
    let audit = audit_row_with(&e, "t".to_string());
    assert_eq!(audit.timestamp, "t");
    assert_eq!(audit.success, 1);
    let read = audit_from_parts(audit, Ok(77)).unwrap();
    assert_eq!(read.timestamp, 77);
    assert!(read.success);
    let unread = audit_from_parts(audit_row_with(&e, "t".to_string()), Err("bad".to_string()));
    assert_eq!(unread.unwrap_err().message(), "解析时间戳失败: bad");
}
