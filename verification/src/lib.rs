//! A plugin that registers with an orchestrator, keeps its registration
//! alive, and manages the life cycle of cryptographic keys.
pub mod base_plugin;
pub mod command_result;
pub mod decimal;
pub mod error;
pub mod example_plugin;
pub mod key_management;
pub mod lifecycle_laws;
pub mod persistence;
pub mod plugin_config;
pub mod plugin_info;
pub mod protocol;
pub mod system;
pub mod text;
pub mod text_map;

pub use base_plugin::BasePlugin;
pub use command_result::CommandResult;
pub use error::PluginError;
pub use example_plugin::ExamplePlugin;
pub use key_management::KeyManagementPlugin;
pub use plugin_config::PluginConfig;
pub use plugin_info::PluginInfo;
