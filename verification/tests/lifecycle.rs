use password_manager::base_plugin::{
    advertised_port, host_address, retry_count, retry_interval, BasePlugin, HeartbeatAction,
    HeartbeatLoop, StartStep, StopStep, HEARTBEAT_INTERVAL_SECONDS, MAX_REREGISTRATIONS,
};
use password_manager::error::PluginError;
use password_manager::example_plugin::ExamplePlugin;
use password_manager::key_management::plugin::KeyManagementPlugin;
use password_manager::plugin_config::PluginConfig;
use password_manager::protocol::{PluginRegistration, RegistrationResponse};
use password_manager::text_map::TextMap;

fn config(retries: &str, interval: &str) -> PluginConfig {
    let mut config = PluginConfig::new();
    config.set_server_host("127.0.0.1".to_string());
    config.set_server_port(1);
    config.set_plugin_name("keys".to_string());
    config.set_plugin_version("0.0.1".to_string());
    config.set_plugin_type("key_management".to_string());
    config.set_plugin_description("key service".to_string());
    config.add_config("register_retry".to_string(), retries.to_string());
    config.add_config("register_retry_interval".to_string(), interval.to_string());
    config
}

#[test]
fn unreachable_orchestrator_scenario() {
    let mut plugin = BasePlugin::new();
    assert!(plugin.initialize(config("3", "1")));
    let mut registrations = 0;
    let mut pauses = Vec::new();
    let mut step = plugin.start();
    let plan = loop {
        match step {
            StartStep::Register(_) => {
                registrations += 1;
                step = plugin.registration_result(Err("connection refused".to_string()));
            }
            StartStep::RetryAfter { seconds, request: _ } => {
                pauses.push(seconds);
                registrations += 1;
                step = plugin.registration_result(Err("connection refused".to_string()));
            }
            StartStep::Heartbeat(plan) => break plan,
            _ => panic!("the start ended without a heartbeat"),
        }
    };
    assert_eq!(registrations, 3);
    assert_eq!(pauses, vec![1, 1]);
    assert!(plugin.is_running());
    let id = plugin.get_info().get_id().to_string();
    assert_eq!(id.len(), 36);
    assert!(!id.is_empty());
    assert_eq!(plan.plugin_id, id);
    assert!(plan.reregister);
    assert_eq!(plan.retries, 0);
    assert_eq!(plan.server_host, "127.0.0.1");
    assert_eq!(plan.server_port, 1);
    assert_eq!(plugin.get_config().unwrap().get_plugin_id(), id);
}

#[test]
fn stop_twice_notifies_once() {
    let mut plugin = BasePlugin::new();
    plugin.initialize(config("1", "1"));
    let _ = plugin.start();
    let step = plugin.registration_result(Ok(RegistrationResponse {
        plugin_id: "srv-7".to_string(),
        success: true,
        message: "welcome".to_string(),
    }));
    assert!(matches!(step, StartStep::Heartbeat(_)));
    let first = plugin.stop();
    assert!(first.succeeded());
    match first {
        StopStep::Shutdown { signal_heartbeat, notify } => {
            assert!(signal_heartbeat);
            assert_eq!(notify.unwrap().plugin_id, "srv-7");
        }
        StopStep::AlreadyStopped => panic!("the plugin was running"),
    }
    assert!(!plugin.is_running());
    let second = plugin.stop();
    assert!(second.succeeded());
    assert!(matches!(second, StopStep::AlreadyStopped));
    assert!(!plugin.is_running());
}

#[test]
fn accepted_registration_adopts_the_identifier() {
    let mut plugin = BasePlugin::new();
    plugin.initialize(config("2", "7"));
    let first = plugin.start();
    let request = match first {
        StartStep::Register(request) => request,
        _ => panic!("no registration was sent"),
    };
    assert_eq!(
        request,
        PluginRegistration {
            name: "keys".to_string(),
            version: "0.0.1".to_string(),
            plugin_type: "key_management".to_string(),
            description: "key service".to_string(),
            host: "localhost".to_string(),
            port: 19091,
        }
    );
    let rejected = plugin.registration_result(Ok(RegistrationResponse {
        plugin_id: "ignored".to_string(),
        success: false,
        message: "busy".to_string(),
    }));
    match rejected {
        StartStep::RetryAfter { seconds, request: again } => {
            assert_eq!(seconds, 7);
            assert_eq!(again, request);
        }
        _ => panic!("no second attempt was asked for"),
    }
    let accepted = plugin.registration_result(Ok(RegistrationResponse {
        plugin_id: "srv-1".to_string(),
        success: true,
        message: String::new(),
    }));
    match accepted {
        StartStep::Heartbeat(plan) => {
            assert_eq!(plan.plugin_id, "srv-1");
            assert!(!plan.reregister);
            assert!(!plan.finished);
        }
        _ => panic!("the heartbeat was not planned"),
    }
    assert_eq!(plugin.get_info().get_id(), "srv-1");
    assert!(matches!(
        plugin.registration_result(Err("late".to_string())),
        StartStep::Ignored
    ));
    assert!(matches!(plugin.start(), StartStep::AlreadyRunning));
    assert_eq!(StartStep::AlreadyRunning.outcome(), Some(true));
    assert_eq!(StartStep::NotInitialized.outcome(), Some(false));
    assert_eq!(StartStep::Ignored.outcome(), None);
}

#[test]
fn start_without_configuration_fails() {
    let mut plugin = BasePlugin::new();
    let step = plugin.start();
    assert!(matches!(step, StartStep::NotInitialized));
    assert_eq!(step.outcome(), Some(false));
    assert!(plugin.registration_request().is_none());
    assert!(plugin.get_config().is_none());
    match plugin.stop() {
        StopStep::Shutdown { signal_heartbeat, notify } => {
            assert!(!signal_heartbeat);
            assert!(notify.is_none());
        }
        StopStep::AlreadyStopped => panic!("the failed start left the plugin running"),
    }
}

#[test]
fn no_attempts_means_local_mode_at_once() {
    let mut plugin = BasePlugin::new();
    plugin.initialize(config("0", "1"));
    match plugin.start_with("local-1".to_string()) {
        StartStep::Heartbeat(plan) => {
            assert_eq!(plan.plugin_id, "local-1");
            assert!(plan.reregister);
        }
        _ => panic!("the heartbeat was not planned"),
    }
    assert_eq!(plugin.info().get_id(), "local-1");
}

#[test]
fn settings_and_their_defaults() {
    let mut c = PluginConfig::new();
    assert_eq!(retry_count(&c), 5);
    assert_eq!(retry_interval(&c), 3);
    assert_eq!(host_address(&c), "localhost");
    assert_eq!(advertised_port(&c), 19091);
    c.add_config("register_retry".to_string(), "x".to_string());
    c.add_config("register_retry_interval".to_string(), "-2".to_string());
    c.add_config("plugin_grpc_port".to_string(), "70000000000".to_string());
    assert_eq!(retry_count(&c), 5);
    assert_eq!(retry_interval(&c), 3);
    assert_eq!(advertised_port(&c), 19091);
    c.add_config("register_retry".to_string(), "+8".to_string());
    c.add_config("register_retry_interval".to_string(), "12".to_string());
    c.add_config("plugin_grpc_port".to_string(), "-9".to_string());
    c.add_config("host_address".to_string(), "10.0.0.2".to_string());
    assert_eq!(retry_count(&c), 8);
    assert_eq!(retry_interval(&c), 12);
    assert_eq!(advertised_port(&c), -9);
    assert_eq!(host_address(&c), "10.0.0.2");
    assert_eq!(HEARTBEAT_INTERVAL_SECONDS, 5);
    assert_eq!(MAX_REREGISTRATIONS, 3);
}

fn heartbeat(reregister: bool) -> HeartbeatLoop {
    HeartbeatLoop {
        plugin_id: "p-1".to_string(),
        status: "READY".to_string(),
        server_host: "h".to_string(),
        server_port: 2,
        reregister,
        retries: 0,
        registration: PluginRegistration {
            name: "n".to_string(),
            version: "v".to_string(),
            plugin_type: "t".to_string(),
            description: "d".to_string(),
            host: "localhost".to_string(),
            port: 19091,
        },
        finished: false,
    }
}

#[test]
fn heartbeat_runs_only_while_the_plugin_runs() {
    let mut task = heartbeat(false);
    match task.on_tick(true) {
        HeartbeatAction::Send(request) => {
            assert_eq!(request.plugin_id, "p-1");
            assert_eq!(request.status_info, "READY");
        }
        HeartbeatAction::Exit => panic!("the task ended while the plugin ran"),
    }
    assert!(task.on_heartbeat(false).is_none());
    assert!(!task.finished);
    assert!(task.on_heartbeat(true).is_none());
    assert!(matches!(task.on_tick(false), HeartbeatAction::Exit));
    assert!(task.finished);
    assert!(matches!(task.on_tick(true), HeartbeatAction::Exit));
    let mut other = heartbeat(false);
    other.on_shutdown();
    assert!(other.finished);
    assert!(matches!(other.on_tick(true), HeartbeatAction::Exit));
}

#[test]
fn local_mode_asks_again_within_its_budget() {
    let mut task = heartbeat(true);
    assert!(task.on_heartbeat(false).is_none());
    assert_eq!(task.retries, 0);
    let mut asked = 0;
    for _ in 0..10 {
        if let Some(request) = task.on_heartbeat(true) {
            assert_eq!(request.name, "n");
            asked += 1;
            task.on_registration(false);
        }
    }
    assert_eq!(asked, 3);
    let mut accepted = heartbeat(true);
    assert!(accepted.on_heartbeat(true).is_some());
    accepted.on_registration(true);
    assert_eq!(accepted.retries, 3);
    assert!(accepted.on_heartbeat(true).is_none());
}

#[test]
fn heartbeat_outside_the_task() {
    let mut plugin = BasePlugin::new();
    let refused = plugin.heartbeat_request().unwrap_err();
    assert!(matches!(refused, PluginError::NotRegistered));
    assert_eq!(refused.message(), "插件未注册，无法发送心跳");
    let mut c = config("0", "1");
    c.set_plugin_id("preset".to_string());
    plugin.initialize(c);
    let stopped = plugin.heartbeat_request().unwrap();
    assert_eq!(stopped.plugin_id, "preset");
    assert_eq!(stopped.status_info, "STOPPED");
    let _ = plugin.start_with("local".to_string());
    let running = plugin.heartbeat_request().unwrap();
    assert_eq!(running.plugin_id, "local");
    assert_eq!(running.status_info, "RUNNING");
    assert!(matches!(BasePlugin::heartbeat_outcome(Ok(())), Ok(true)));
    match BasePlugin::heartbeat_outcome(Err("timeout".to_string())) {
        Err(PluginError::Transport(text)) => assert_eq!(text, "心跳发送失败: timeout"),
        _ => panic!("the transport's error was not reported"),
    }
}

#[test]
fn base_plugin_supports_no_command() {
    let plugin = BasePlugin::new();
    let r = plugin.execute_command("anything", &TextMap::new());
    assert!(!r.is_success());
    assert_eq!(r.get_result(), "");
    assert_eq!(r.get_error_message(), "不支持的命令: anything");
    assert_eq!(plugin.handle_message("m"), "未处理的消息: m");
}

#[test]
fn initialize_takes_identity_from_configuration() {
    let mut plugin = BasePlugin::new();
    let mut c = config("1", "1");
    c.set_plugin_id("given".to_string());
    assert!(plugin.initialize(c));
    let info = plugin.get_info();
    assert_eq!(info.get_id(), "given");
    assert_eq!(info.get_name(), "keys");
    assert_eq!(info.get_version(), "0.0.1");
    assert_eq!(info.get_type(), "key_management");
    assert_eq!(info.get_description(), "key service");
    assert_eq!(info.get_status(), "");
}

#[test]
fn engine_and_example_share_the_life_cycle() {
    let mut engine = KeyManagementPlugin::new();
    assert!(engine.initialize(config("1", "1")));
    assert!(matches!(engine.start(), StartStep::Register(_)));
    assert!(matches!(
        engine.registration_result(Err("down".to_string())),
        StartStep::Heartbeat(_)
    ));
    assert_eq!(engine.get_info().get_id().len(), 36);
    assert!(engine.base().is_running());
    assert!(matches!(engine.stop(), StopStep::Shutdown { .. }));
    assert!(matches!(engine.stop(), StopStep::AlreadyStopped));
    let mut example = ExamplePlugin::new();
    assert!(example.initialize(config("1", "1")));
    assert!(matches!(example.start(), StartStep::Register(_)));
    assert!(matches!(
        example.registration_result(Err("down".to_string())),
        StartStep::Heartbeat(_)
    ));
    assert_eq!(example.get_info().get_name(), "keys");
    assert!(matches!(example.stop(), StopStep::Shutdown { .. }));
    assert!(matches!(example.stop(), StopStep::AlreadyStopped));
}
