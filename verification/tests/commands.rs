use password_manager::command_result::CommandResult;
use password_manager::error::PluginError;
use password_manager::example_plugin::ExamplePlugin;
use password_manager::key_management::commands::{create_request, reads_true, tags_of};
use password_manager::key_management::json::{
    frame_array, frame_key, frame_object, join, quote_pairs, write_key, write_keys, write_object, KeyMembers,
};
use password_manager::key_management::models::{KeyAlgorithm, KeyMetadata, KeyStatus, KeyType};
use password_manager::key_management::plugin::KeyManagementPlugin;
use password_manager::text_map::TextMap;

fn params(pairs: &[(&str, &str)]) -> TextMap {
    let mut m = TextMap::new();
    for (k, v) in pairs {
        m.insert(k.to_string(), v.to_string());
    }
    m
}

fn sample_key() -> KeyMetadata {
    let mut key = KeyMetadata::assemble(
        "id-1".to_string(),
        0,
        "k \"1\"".to_string(),
        "line\nbreak".to_string(),
        KeyType::HMAC,
        KeyAlgorithm::AES256,
        "alice".to_string(),
        true,
    );
    key.updated_at = 1_500_000;
    key.version = 12;
    key.tags.insert("env".to_string(), "test".to_string());
    key.tags.insert("team".to_string(), "a\\b".to_string());
    key
}

#[test]
fn key_is_written_as_json() {
    let text = write_key(&sample_key()).unwrap();
    assert_eq!(
        text,
        "{\"id\":\"id-1\",\"name\":\"k \\\"1\\\"\",\"description\":\"line\\nbreak\",\
\"key_type\":\"HMAC\",\"algorithm\":\"AES256\",\"status\":\"Active\",\"owner\":\"alice\",\
\"created_at\":\"1970-01-01T00:00:00Z\",\"updated_at\":\"1970-01-01T00:00:01.500Z\",\
\"expiration_date\":null,\"version\":12,\"requires_approval\":true,\
\"tags\":{\"env\":\"test\",\"team\":\"a\\\\b\"}}"
    );
    let parsed: serde_json::Value = serde_json::from_str(&text).unwrap();
    assert_eq!(parsed["name"], "k \"1\"");
    assert_eq!(parsed["version"], 12);
    assert_eq!(parsed["tags"]["team"], "a\\b");
}

#[test]
fn key_with_expiration_and_unwritable_time() {
    let mut key = sample_key();
    key.expiration_date = Some(86_400_000_000);
    let text = write_key(&key).unwrap();
    assert!(text.contains("\"expiration_date\":\"1970-01-02T00:00:00Z\""));
    key.created_at = i64::MAX;
    assert!(write_key(&key).is_none());
    assert!(write_keys(&vec![sample_key(), key]).is_none());
}

#[test]
fn keys_are_written_as_json_array() {
    assert_eq!(write_keys(&Vec::new()).unwrap(), "[]");
    let one = write_key(&sample_key()).unwrap();
    assert_eq!(write_keys(&vec![sample_key()]).unwrap(), format!("[{}]", one));
    assert_eq!(
        write_keys(&vec![sample_key(), sample_key()]).unwrap(),
        format!("[{},{}]", one, one)
    );
    assert_eq!(write_object(&TextMap::new()), "{}");
    assert_eq!(write_object(&params(&[("a", "1")])), "{\"a\":\"1\"}");
}

#[test]
fn create_key_command_returns_the_key() {
    let mut engine = KeyManagementPlugin::new();
    let r = engine.execute_command(
        "create_key",
        &params(&[
            ("name", "k1"),
            ("key_type", "ASYMMETRIC_PRIVATE"),
            ("algorithm", "RSA-4096"),
            ("user", "alice"),
            ("requires_approval", "TRUE"),
            ("tag.environment", "test"),
            ("description", "first"),
        ]),
    );
    assert!(r.is_success());
    assert_eq!(r.get_error_message(), "");
    let parsed: serde_json::Value = serde_json::from_str(r.get_result()).unwrap();
    assert_eq!(parsed["name"], "k1");
    assert_eq!(parsed["key_type"], "AsymmetricPrivate");
    assert_eq!(parsed["algorithm"], "RSA4096");
    assert_eq!(parsed["owner"], "alice");
    assert_eq!(parsed["version"], 1);
    assert_eq!(parsed["requires_approval"], true);
    assert_eq!(parsed["tags"]["environment"], "test");
    assert_eq!(parsed["description"], "first");
    assert_eq!(engine.keys().len(), 1);
    assert_eq!(engine.keys()[0].status, KeyStatus::Active);
    assert_eq!(engine.audit_log().len(), 1);
}

#[test]
fn create_key_command_defaults() {
    let request = create_request(&params(&[("name", "k")])).unwrap();
    assert_eq!(request.name, "k");
    assert_eq!(request.description, "");
    assert_eq!(request.key_type, KeyType::Symmetric);
    assert_eq!(request.algorithm, KeyAlgorithm::AES256);
    assert_eq!(request.owner, "system");
    assert!(!request.requires_approval);
    assert!(request.tags.is_empty());
    let other = create_request(&params(&[("name", "k"), ("requires_approval", "yes")])).unwrap();
    assert!(!other.requires_approval);
    let lower = create_request(&params(&[("name", "k"), ("requires_approval", "true")])).unwrap();
    assert!(lower.requires_approval);
}

#[test]
fn create_key_command_rejects_bad_parameters() {
    let mut engine = KeyManagementPlugin::new();
    assert!(matches!(
        create_request(&params(&[("user", "alice")])),
        Err(PluginError::Validation(_))
    ));
    let missing = engine.execute_command("create_key", &params(&[("user", "alice")]));
    assert!(!missing.is_success());
    assert_eq!(missing.get_result(), "");
    assert_eq!(missing.get_error_message(), "Missing parameter: name");
    let bad_type = engine.execute_command("create_key", &params(&[("name", "k"), ("key_type", "ROUND")]));
    assert_eq!(bad_type.get_error_message(), "Invalid key type: ROUND");
    let bad_algorithm =
        engine.execute_command("create_key", &params(&[("name", "k"), ("algorithm", "DES")]));
    assert_eq!(bad_algorithm.get_error_message(), "Invalid algorithm: DES");
    assert!(engine.keys().is_empty());
    assert!(engine.audit_log().is_empty());
}

#[test]
fn unknown_command_names_the_command() {
    let mut engine = KeyManagementPlugin::new();
    let r = engine.execute_command("fly", &TextMap::new());
    assert!(!r.is_success());
    assert_eq!(r.get_result(), "");
    assert_eq!(r.get_error_message(), "未知命令: fly");
    assert_eq!(engine.handle_message("ping"), "收到消息: ping");
}

#[test]
fn rotate_get_and_list_commands() {
    let mut engine = KeyManagementPlugin::new();
    let created = engine.execute_command("create_key", &params(&[("name", "k1"), ("user", "alice")]));
    let parsed: serde_json::Value = serde_json::from_str(created.get_result()).unwrap();
    let id = parsed["id"].as_str().unwrap().to_string();
    let missing = engine.execute_command("rotate_key", &params(&[("user", "alice")]));
    assert_eq!(missing.get_error_message(), "Missing parameter: key_id");
    let rotated = engine.execute_command("rotate_key", &params(&[("key_id", &id), ("user", "alice")]));
    assert!(rotated.is_success());
    let parsed: serde_json::Value = serde_json::from_str(rotated.get_result()).unwrap();
    assert_eq!(parsed["version"], 2);
    let absent = engine.execute_command("rotate_key", &params(&[("key_id", "nope")]));
    assert!(!absent.is_success());
    assert_eq!(absent.get_error_message(), "Key not found");
    assert_eq!(engine.audit_log().len(), 3);
    assert_eq!(engine.audit_log()[2].user, "system");
    let got = engine.execute_command("get_key", &params(&[("key_id", &id)]));
    let parsed: serde_json::Value = serde_json::from_str(got.get_result()).unwrap();
    assert_eq!(parsed["version"], 2);
    let not_got = engine.execute_command("get_key", &params(&[("key_id", "nope")]));
    assert_eq!(not_got.get_error_message(), "Key not found");
    let no_id = engine.execute_command("get_key", &TextMap::new());
    assert_eq!(no_id.get_error_message(), "Missing parameter: key_id");
    let listed = engine.execute_command("list_keys", &params(&[("owner", "alice")]));
    let parsed: serde_json::Value = serde_json::from_str(listed.get_result()).unwrap();
    assert_eq!(parsed.as_array().unwrap().len(), 1);
    let none = engine.execute_command("list_keys", &params(&[("owner", "bob")]));
    assert_eq!(none.get_result(), "[]");
    assert_eq!(engine.audit_log().len(), 3);
}

#[test]
fn guarded_rotation_command_reports_the_approval() {
    let mut engine = KeyManagementPlugin::new();
    let created = engine.execute_command(
        "create_key",
        &params(&[("name", "k1"), ("requires_approval", "True")]),
    );
    let parsed: serde_json::Value = serde_json::from_str(created.get_result()).unwrap();
    let id = parsed["id"].as_str().unwrap().to_string();
    let r = engine.execute_command("rotate_key", &params(&[("key_id", &id)]));
    assert!(!r.is_success());
    let approval = engine.pending_approvals()[0].operation_id.clone();
    assert_eq!(
        r.get_error_message(),
        format!("Key rotation requires approval. Approval ID: {}", approval)
    );
    assert_eq!(engine.keys()[0].version, 1);
}

#[test]
fn tags_are_collected_from_parameters() {
    let tags = tags_of(&params(&[
        ("name", "k"),
        ("tag.environment", "test"),
        ("tag.", "empty"),
        ("tagged", "no"),
        ("tag.team", "core"),
    ]));
    assert_eq!(tags.len(), 3);
    assert_eq!(tags.get("environment"), Some(&"test".to_string()));
    assert_eq!(tags.get(""), Some(&"empty".to_string()));
    assert_eq!(tags.get("team"), Some(&"core".to_string()));
    assert_eq!(tags.get("tagged"), None);
}

#[test]
fn command_result_parts() {
    let r = CommandResult::new(true, "payload".to_string(), "note".to_string());
    assert!(r.is_success());
    assert_eq!(r.get_result(), "payload");
    assert_eq!(r.get_error_message(), "note");
    let d = CommandResult::done("x".to_string());
    assert!(d.is_success());
    assert_eq!(d.get_error_message(), "");
    let f = CommandResult::failed("why".to_string());
    assert!(!f.is_success());
    assert_eq!(f.get_result(), "");
    assert_eq!(f.clone().get_error_message(), "why");
}

#[test]
fn example_plugin_answers_its_commands() {
    let plugin = ExamplePlugin::new();
    let hello = plugin.execute_command("hello", &TextMap::new());
    assert!(hello.is_success());
    assert_eq!(hello.get_result(), "Hello, World!");
    let echo = plugin.execute_command("echo", &params(&[("message", "hi")]));
    assert_eq!(echo.get_result(), "Echo: hi");
    let silent = plugin.execute_command("echo", &TextMap::new());
    assert_eq!(silent.get_result(), "Echo: ");
    let get = plugin.execute_command("get_password", &params(&[("username", "u"), ("service", "s")]));
    assert_eq!(get.get_result(), "用户 u 在服务 s 的密码是: ********");
    let save = plugin.execute_command("save_password", &params(&[("username", "u"), ("service", "s")]));
    assert_eq!(save.get_result(), "已保存用户 u 在服务 s 的密码");
    let other = plugin.execute_command("fly", &TextMap::new());
    assert!(!other.is_success());
    assert_eq!(other.get_error_message(), "未知命令: fly");
    assert_eq!(plugin.handle_message("m"), "已收到消息: m");
}

#[test]
fn json_is_framed_from_texts() {
    let none: Vec<String> = Vec::new();
    assert_eq!(join(&none, ","), "");
    assert_eq!(join(&vec!["a".to_string()], ","), "a");
    assert_eq!(join(&vec!["a".to_string(), "b".to_string(), "c".to_string()], ", "), "a, b, c");
    assert_eq!(frame_array(&none), "[]");
    assert_eq!(frame_array(&vec!["1".to_string(), "2".to_string()]), "[1,2]");
    assert_eq!(frame_object(&Vec::new()), "{}");
    assert_eq!(
        frame_object(&vec![
            ("\"a\"".to_string(), "1".to_string()),
            ("\"b\"".to_string(), "null".to_string())
        ]),
        "{\"a\":1,\"b\":null}"
    );
    let quoted = quote_pairs(&params(&[("k\"", "v\t")]));
    assert_eq!(quoted, vec![("\"k\\\"\"".to_string(), "\"v\\t\"".to_string())]);
    let members = KeyMembers {
        id: "A".to_string(),
        name: "B".to_string(),
        description: "C".to_string(),
        key_type: "D".to_string(),
        algorithm: "E".to_string(),
        status: "F".to_string(),
        owner: "G".to_string(),
        created_at: "H".to_string(),
        updated_at: "I".to_string(),
        expiration_date: "J".to_string(),
        tags: "K".to_string(),
    };
    assert_eq!(
        frame_key(&members, 40, false),
        "{\"id\":A,\"name\":B,\"description\":C,\"key_type\":D,\"algorithm\":E,\"status\":F,\
\"owner\":G,\"created_at\":H,\"updated_at\":I,\"expiration_date\":J,\"version\":40,\
\"requires_approval\":false,\"tags\":K}"
    );
}

#[test]
fn only_true_reads_true() {
    assert!(reads_true("true"));
    assert!(!reads_true("TRUE"));
    assert!(!reads_true("yes"));
    assert!(!reads_true(""));
}
