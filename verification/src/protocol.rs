//! The messages that a plugin and the orchestrator exchange.
use crate::text_map::TextMap;
use vstd::prelude::*;

verus! {

/// Asks for the plugin with a given name.
#[derive(Clone, Debug, Default, PartialEq, Eq)]
pub struct GetPluginByNameRequest {
    pub name: String,
}

/// Answers `GetPluginByNameRequest`.
#[derive(Clone, Debug, Default, PartialEq, Eq)]
pub struct GetPluginByNameResponse {
    pub found: bool,
    pub plugin: Option<PluginInfo>,
}

/// Asks for a plugin by name and type.
#[derive(Clone, Debug, Default, PartialEq, Eq)]
pub struct FindPluginRequest {
    pub name: String,
    pub plugin_type: String,
}

/// Answers `FindPluginRequest`.
#[derive(Clone, Debug, Default, PartialEq, Eq)]
pub struct FindPluginResponse {
    pub found: bool,
    pub plugin: Option<PluginInfo>,
}

/// A plugin as the orchestrator knows it.
#[derive(Clone, Debug, Default, PartialEq, Eq)]
pub struct PluginInfo {
    pub plugin_id: String,
    pub name: String,
    pub version: String,
    pub plugin_type: String,
    pub description: String,
    pub host: String,
    pub port: i32,
    pub status: String,
}

/// Tells the orchestrator of a plugin's new status and address.
#[derive(Clone, Debug, Default, PartialEq, Eq)]
pub struct UpdatePluginRequest {
    pub plugin_id: String,
    pub status: String,
    pub host: String,
    pub port: i32,
}

/// Answers `UpdatePluginRequest`.
#[derive(Clone, Debug, Default, PartialEq, Eq)]
pub struct UpdatePluginResponse {
    pub success: bool,
    pub message: String,
}

/// Registers a plugin with the orchestrator.
#[derive(Clone, Debug, Default, PartialEq, Eq)]
pub struct PluginRegistration {
    pub name: String,
    pub version: String,
    pub plugin_type: String,
    pub description: String,
    pub host: String,
    pub port: i32,
}

/// Answers `PluginRegistration`: the identifier that the orchestrator
/// issued, whether the plugin was accepted, and a message for the log.
#[derive(Clone, Debug, Default, PartialEq, Eq)]
pub struct RegistrationResponse {
    pub plugin_id: String,
    pub success: bool,
    pub message: String,
}

/// A liveness signal.
#[derive(Clone, Debug, Default, PartialEq, Eq)]
pub struct HeartbeatRequest {
    pub plugin_id: String,
    pub status_info: String,
}

/// Answers `HeartbeatRequest`.
#[derive(Clone, Debug, Default, PartialEq, Eq)]
pub struct HeartbeatResponse {
    pub received: bool,
    pub server_time: i64,
}

/// Asks a plugin for its status.
#[derive(Clone, Debug, Default, PartialEq, Eq)]
pub struct StatusRequest {
    pub plugin_id: String,
}

/// Answers `StatusRequest`.
#[derive(Clone, Debug, Default, PartialEq, Eq)]
pub struct StatusResponse {
    pub status: String,
    pub details: String,
    pub uptime: i64,
}

/// A command for a plugin, with its parameters by name.
#[derive(Clone, Debug)]
pub struct CommandRequest {
    pub plugin_id: String,
    pub command: String,
    pub parameters: TextMap,
}

/// Answers `CommandRequest`.
#[derive(Clone, Debug, Default, PartialEq, Eq)]
pub struct CommandResponse {
    pub success: bool,
    pub result: String,
    pub error_message: String,
}

/// Tells the orchestrator that a plugin stops.
#[derive(Clone, Debug, Default, PartialEq, Eq)]
pub struct StopRequest {
    pub plugin_id: String,
}

/// Answers `StopRequest`.
#[derive(Clone, Debug, Default, PartialEq, Eq)]
pub struct StopResponse {
    pub success: bool,
    pub message: String,
}

/// A `PluginRegistration` as plain values.
pub ghost struct PluginRegistrationView {
    pub name: Seq<char>,
    pub version: Seq<char>,
    pub plugin_type: Seq<char>,
    pub description: Seq<char>,
    pub host: Seq<char>,
    pub port: i32,
}

impl View for PluginRegistration {
    type V = PluginRegistrationView;

    open spec fn view(&self) -> PluginRegistrationView {
        PluginRegistrationView {
            name: self.name@,
            version: self.version@,
            plugin_type: self.plugin_type@,
            description: self.description@,
            host: self.host@,
            port: self.port,
        }
    }
}

/// A `RegistrationResponse` as plain values.
pub ghost struct RegistrationResponseView {
    pub plugin_id: Seq<char>,
    pub success: bool,
    pub message: Seq<char>,
}

impl View for RegistrationResponse {
    type V = RegistrationResponseView;

    open spec fn view(&self) -> RegistrationResponseView {
        RegistrationResponseView {
            plugin_id: self.plugin_id@,
            success: self.success,
            message: self.message@,
        }
    }
}

/// A `HeartbeatRequest` as plain values.
pub ghost struct HeartbeatRequestView {
    pub plugin_id: Seq<char>,
    pub status_info: Seq<char>,
}

impl View for HeartbeatRequest {
    type V = HeartbeatRequestView;

    open spec fn view(&self) -> HeartbeatRequestView {
        HeartbeatRequestView { plugin_id: self.plugin_id@, status_info: self.status_info@ }
    }
}

/// A `StopRequest` as plain values.
pub ghost struct StopRequestView {
    pub plugin_id: Seq<char>,
}

impl View for StopRequest {
    type V = StopRequestView;

    open spec fn view(&self) -> StopRequestView {
        StopRequestView { plugin_id: self.plugin_id@ }
    }
}

} // verus!
