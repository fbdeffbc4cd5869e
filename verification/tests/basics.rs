use password_manager::decimal::{decimal_text, parse_i32, parse_u32, parse_u64};
use password_manager::key_management::models::{
    AuditLogEntry, KeyAlgorithm, KeyMetadata, KeyStatus, KeyType,
};
use password_manager::plugin_config::PluginConfig;
use password_manager::plugin_info::PluginInfo;
use password_manager::protocol::{
    CommandRequest, CommandResponse, FindPluginRequest, FindPluginResponse, GetPluginByNameRequest,
    GetPluginByNameResponse, HeartbeatRequest, HeartbeatResponse, PluginInfo as RemotePluginInfo,
    StatusRequest, StatusResponse, StopRequest, StopResponse, UpdatePluginRequest,
    UpdatePluginResponse,
};
use password_manager::text::{clone_texts, concat2, concat3, owned, strip_prefix};
use password_manager::text_map::TextMap;

#[test]
fn unsigned_numbers_are_read_as_std_reads_them() {
    let cases = vec!["0", "42", "+7", "007", "4294967295", "4294967296", "", "+", "-1", "-0", "1 ", " 1", "1_0", "٣", "12a", "99999999999999999999999"];
    for s in cases {
        assert_eq!(parse_u32(s), s.parse::<u32>().ok(), "u32 {:?}", s);
        assert_eq!(parse_u64(s), s.parse::<u64>().ok(), "u64 {:?}", s);
        assert_eq!(parse_i32(s), s.parse::<i32>().ok(), "i32 {:?}", s);
    }
    assert_eq!(parse_u32("4294967295"), Some(u32::MAX));
    assert_eq!(parse_u64("18446744073709551615"), Some(u64::MAX));
    assert_eq!(parse_u64("18446744073709551616"), None);
}

#[test]
fn signed_numbers_are_read_as_std_reads_them() {
    let cases = vec!["-2147483648", "-2147483649", "2147483647", "2147483648", "-", "--1", "+-1", "-+1", "-12", "+12", "-007"];
    for s in cases {
        assert_eq!(parse_i32(s), s.parse::<i32>().ok(), "i32 {:?}", s);
    }
    assert_eq!(parse_i32("-2147483648"), Some(i32::MIN));
}

#[test]
fn numbers_are_written_in_digits() {
    assert_eq!(decimal_text(0), "0");
    assert_eq!(decimal_text(7), "7");
    assert_eq!(decimal_text(10), "10");
    assert_eq!(decimal_text(1234567890), "1234567890");
    assert_eq!(decimal_text(u64::MAX), "18446744073709551615");
}

#[test]
fn text_helpers() {
    assert_eq!(owned("a"), "a");
    assert_eq!(concat2("ab", "cd"), "abcd");
    assert_eq!(concat3("a", "", "c"), "ac");
    assert_eq!(strip_prefix("tag.env", "tag."), Some("env"));
    assert_eq!(strip_prefix("tag.", "tag."), Some(""));
    assert_eq!(strip_prefix("tag", "tag."), None);
    assert_eq!(strip_prefix("标签.名", "标签."), Some("名"));
    assert_eq!(clone_texts(&vec!["x".to_string(), "y".to_string()]), vec!["x", "y"]);
}

#[test]
fn text_map_keeps_order_and_overwrites() {
    let mut m = TextMap::new();
    assert!(m.is_empty());
    assert_eq!(m.get("a"), None);
    m.insert("a".to_string(), "1".to_string());
    m.insert("b".to_string(), "2".to_string());
    m.insert("a".to_string(), "3".to_string());
    assert_eq!(m.len(), 2);
    assert_eq!(m.key_at(0), "a");
    assert_eq!(m.value_at(0), "3");
    assert_eq!(m.key_at(1), "b");
    assert_eq!(m.get("a"), Some(&"3".to_string()));
    assert_eq!(m.get("b"), Some(&"2".to_string()));
    assert!(m.contains_key("b"));
    assert!(!m.contains_key("c"));
    let copy = m.clone();
    m.insert("c".to_string(), "4".to_string());
    assert_eq!(copy.len(), 2);
    assert_eq!(copy.duplicate().get("a"), Some(&"3".to_string()));
    assert_eq!(m.len(), 3);
}

#[test]
fn labels_of_the_models() {
    assert_eq!(KeyStatus::Active.to_string(), "ACTIVE");
    assert_eq!(KeyStatus::Suspended.to_string(), "SUSPENDED");
    assert_eq!(KeyStatus::Expired.to_string(), "EXPIRED");
    assert_eq!(KeyStatus::Compromised.to_string(), "COMPROMISED");
    assert_eq!(KeyStatus::Destroyed.to_string(), "DESTROYED");
    assert_eq!(KeyStatus::PendingDestruction.to_string(), "PENDING_DESTRUCTION");
    assert_eq!(KeyStatus::PendingDestruction.variant_name(), "PendingDestruction");
    assert_eq!(KeyType::Symmetric.to_string(), "SYMMETRIC");
    assert_eq!(KeyType::AsymmetricPrivate.to_string(), "ASYMMETRIC_PRIVATE");
    assert_eq!(KeyType::AsymmetricPublic.to_string(), "ASYMMETRIC_PUBLIC");
    assert_eq!(KeyType::HMAC.to_string(), "HMAC");
    assert_eq!(KeyType::Password.to_string(), "PASSWORD");
    assert_eq!(KeyAlgorithm::AES256.to_string(), "AES-256");
    assert_eq!(KeyAlgorithm::RSA2048.to_string(), "RSA-2048");
    assert_eq!(KeyAlgorithm::RSA4096.to_string(), "RSA-4096");
    assert_eq!(KeyAlgorithm::ECDSA.to_string(), "ECDSA");
    assert_eq!(KeyAlgorithm::ED25519.to_string(), "ED25519");
    for s in [KeyStatus::Active, KeyStatus::Suspended, KeyStatus::Expired, KeyStatus::Compromised, KeyStatus::Destroyed, KeyStatus::PendingDestruction] {
        assert_eq!(KeyStatus::from_label(s.as_label()), Some(s));
    }
    for t in [KeyType::Symmetric, KeyType::AsymmetricPrivate, KeyType::AsymmetricPublic, KeyType::HMAC, KeyType::Password] {
        assert_eq!(KeyType::from_label(t.as_label()), Some(t));
    }
    for a in [KeyAlgorithm::AES256, KeyAlgorithm::RSA2048, KeyAlgorithm::RSA4096, KeyAlgorithm::ECDSA, KeyAlgorithm::ED25519] {
        assert_eq!(KeyAlgorithm::from_label(a.as_label()), Some(a));
    }
    assert_eq!(KeyStatus::from_label("active"), None);
    assert_eq!(KeyType::from_label("Symmetric"), None);
    assert_eq!(KeyAlgorithm::from_label("AES256"), None);
}

#[test]
fn new_metadata_and_audit_entries() {
    let k = KeyMetadata::new(
        "n".to_string(),
        "d".to_string(),
        KeyType::Password,
        KeyAlgorithm::RSA4096,
        "o".to_string(),
        true,
    );
    assert_eq!(k.id.len(), 36);
    assert_eq!(k.id.matches('-').count(), 4);
    assert_eq!(k.name, "n");
    assert_eq!(k.description, "d");
    assert_eq!(k.key_type, KeyType::Password);
    assert_eq!(k.algorithm, KeyAlgorithm::RSA4096);
    assert_eq!(k.status, KeyStatus::Active);
    assert_eq!(k.owner, "o");
    assert_eq!(k.created_at, k.updated_at);
    assert!(k.created_at > 1_600_000_000_000_000);
    assert_eq!(k.expiration_date, None);
    assert_eq!(k.version, 1);
    assert!(k.requires_approval);
    assert!(k.tags.is_empty());
    let copy = k.clone();
    assert_eq!(copy.id, k.id);
    let e = AuditLogEntry::new("A".to_string(), "u".to_string(), Some("k".to_string()), "d".to_string(), true);
    assert_eq!(e.id.len(), 36);
    assert_ne!(e.id, k.id);
    assert_eq!(e.action, "A");
    assert_eq!(e.user, "u");
    assert_eq!(e.key_id, Some("k".to_string()));
    assert_eq!(e.details, "d");
    assert!(e.success);
    assert_eq!(e.error, None);
    let f = AuditLogEntry::with_error("A".to_string(), "u".to_string(), None, "d".to_string(), "why".to_string());
    assert!(!f.success);
    assert_eq!(f.error, Some("why".to_string()));
    assert_eq!(f.key_id, None);
    assert_eq!(f.clone().error, Some("why".to_string()));
    let g = AuditLogEntry::assemble(
        "i".to_string(),
        4,
        "A".to_string(),
        "u".to_string(),
        None,
        "d".to_string(),
        false,
        Some("e".to_string()),
    );
    assert_eq!(g.id, "i");
    assert_eq!(g.timestamp, 4);
    assert_eq!(g.action, "A");
    assert_eq!(g.user, "u");
    assert_eq!(g.error, Some("e".to_string()));
}

#[test]
fn configuration_getters_and_setters() {
    let mut c = PluginConfig::new();
    assert_eq!(c.get_server_host(), "");
    assert_eq!(c.get_server_port(), 0);
    assert_eq!(c.get_plugin_id(), "");
    assert_eq!(c.get_plugin_name(), "");
    assert_eq!(c.get_plugin_version(), "");
    assert_eq!(c.get_plugin_type(), "");
    assert_eq!(c.get_plugin_description(), "");
    assert!(c.get_additional_config().is_empty());
    c.set_server_host("h".to_string());
    c.set_server_port(19090);
    c.set_plugin_id("i".to_string());
    c.set_plugin_name("n".to_string());
    c.set_plugin_version("v".to_string());
    c.set_plugin_type("t".to_string());
    c.set_plugin_description("d".to_string());
    c.add_config("k".to_string(), "1".to_string());
    assert_eq!(c.get_server_host(), "h");
    assert_eq!(c.get_server_port(), 19090);
    assert_eq!(c.get_plugin_id(), "i");
    assert_eq!(c.get_plugin_name(), "n");
    assert_eq!(c.get_plugin_version(), "v");
    assert_eq!(c.get_plugin_type(), "t");
    assert_eq!(c.get_plugin_description(), "d");
    assert_eq!(c.get_config("k"), Some(&"1".to_string()));
    assert_eq!(c.get_config("x"), None);
    let mut other = TextMap::new();
    other.insert("x".to_string(), "2".to_string());
    let copy = c.clone();
    c.set_additional_config(other);
    assert_eq!(c.get_config("k"), None);
    assert_eq!(c.get_config("x"), Some(&"2".to_string()));
    assert_eq!(c.get_additional_config().len(), 1);
    assert_eq!(copy.get_config("k"), Some(&"1".to_string()));
    assert_eq!(copy.get_server_port(), 19090);
}

#[test]
fn plugin_info_getters_and_setters() {
    let mut i = PluginInfo::new();
    assert_eq!(i.get_id(), "");
    assert!(i.get_supported_commands().is_empty());
    i.set_id("i".to_string());
    i.set_name("n".to_string());
    i.set_version("v".to_string());
    i.set_type("t".to_string());
    i.set_description("d".to_string());
    i.set_status("s".to_string());
    i.add_supported_command("c1".to_string());
    i.add_supported_command("c2".to_string());
    i.add_supported_event("e1".to_string());
    let copy = i.clone();
    assert_eq!(copy.get_id(), "i");
    assert_eq!(copy.get_name(), "n");
    assert_eq!(copy.get_version(), "v");
    assert_eq!(copy.get_type(), "t");
    assert_eq!(copy.get_description(), "d");
    assert_eq!(copy.get_status(), "s");
    assert_eq!(copy.get_supported_commands(), &vec!["c1".to_string(), "c2".to_string()]);
    assert_eq!(copy.get_supported_events(), &vec!["e1".to_string()]);
}

#[test]
fn protocol_messages_hold_their_fields() {
    let info = RemotePluginInfo {
        plugin_id: "p".to_string(),
        name: "n".to_string(),
        version: "v".to_string(),
        plugin_type: "t".to_string(),
        description: "d".to_string(),
        host: "h".to_string(),
        port: 1,
        status: "s".to_string(),
    };
    let found = FindPluginResponse { found: true, plugin: Some(info.clone()) };
    assert_eq!(found.plugin, Some(info.clone()));
    let by_name = GetPluginByNameResponse { found: false, plugin: None };
    assert_eq!(by_name, GetPluginByNameResponse::default());
    assert_eq!(GetPluginByNameRequest { name: "n".to_string() }.name, "n");
    assert_eq!(FindPluginRequest::default().plugin_type, "");
    assert_eq!(UpdatePluginRequest::default().port, 0);
    assert!(!UpdatePluginResponse::default().success);
    assert_eq!(HeartbeatRequest::default().status_info, "");
    assert_eq!(HeartbeatResponse { received: true, server_time: 5 }.server_time, 5);
    assert_eq!(StatusRequest::default().plugin_id, "");
    assert_eq!(StatusResponse::default().uptime, 0);
    assert_eq!(CommandResponse::default().error_message, "");
    assert_eq!(StopRequest { plugin_id: "p".to_string() }.plugin_id, "p");
    assert_eq!(StopResponse::default().message, "");
    let request = CommandRequest {
        plugin_id: "p".to_string(),
        command: "c".to_string(),
        parameters: TextMap::new(),
    };
    assert!(request.clone().parameters.is_empty());
}
