//! What a plugin is configured with before it starts.
use crate::text::{clone_texts, text_views};
use crate::text_map::{lookup, put, Pair, TextMap};
use vstd::prelude::*;

verus! {

/// The configuration of a plugin: where the server is, who the plugin is,
/// and any further named settings.
#[derive(Debug)]
pub struct PluginConfig {
    server_host: String,
    server_port: i32,
    plugin_id: String,
    plugin_name: String,
    plugin_version: String,
    plugin_type: String,
    plugin_description: String,
    additional_config: TextMap,
    pub(crate) name: String,
    supported_commands: Vec<String>,
    supported_events: Vec<String>,
}

/// A `PluginConfig` as plain values.
pub ghost struct PluginConfigView {
    pub server_host: Seq<char>,
    pub server_port: i32,
    pub plugin_id: Seq<char>,
    pub plugin_name: Seq<char>,
    pub plugin_version: Seq<char>,
    pub plugin_type: Seq<char>,
    pub plugin_description: Seq<char>,
    pub additional_config: Seq<Pair>,
    pub name: Seq<char>,
    pub supported_commands: Seq<Seq<char>>,
    pub supported_events: Seq<Seq<char>>,
}

impl PluginConfigView {
    /// The configuration in which every text and list is empty and the port
    /// is 0.
    pub open spec fn blank() -> PluginConfigView {
        PluginConfigView {
            server_host: Seq::empty(),
            server_port: 0,
            plugin_id: Seq::empty(),
            plugin_name: Seq::empty(),
            plugin_version: Seq::empty(),
            plugin_type: Seq::empty(),
            plugin_description: Seq::empty(),
            additional_config: Seq::empty(),
            name: Seq::empty(),
            supported_commands: Seq::empty(),
            supported_events: Seq::empty(),
        }
    }
}

impl View for PluginConfig {
    type V = PluginConfigView;

    closed spec fn view(&self) -> PluginConfigView {
        PluginConfigView {
            server_host: self.server_host@,
            server_port: self.server_port,
            plugin_id: self.plugin_id@,
            plugin_name: self.plugin_name@,
            plugin_version: self.plugin_version@,
            plugin_type: self.plugin_type@,
            plugin_description: self.plugin_description@,
            additional_config: self.additional_config@,
            name: self.name@,
            supported_commands: text_views(self.supported_commands@),
            supported_events: text_views(self.supported_events@),
        }
    }
}

impl PluginConfig {
    /// The blank configuration.
    pub fn new() -> (r: Self)
        ensures
            r@ == PluginConfigView::blank(),
    {
        let r = PluginConfig {
            server_host: String::new(),
            server_port: 0,
            plugin_id: String::new(),
            plugin_name: String::new(),
            plugin_type: String::new(),
            plugin_version: String::new(),
            plugin_description: String::new(),
            additional_config: TextMap::new(),
            supported_commands: Vec::new(),
            supported_events: Vec::new(),
            name: String::new(),
        };
        assert(r@.supported_commands =~= Seq::empty());
        assert(r@.supported_events =~= Seq::empty());
        r
    }

    /// The server's host name.
    pub fn get_server_host(&self) -> (r: &str)
        ensures
            r@ == self@.server_host,
    {
        self.server_host.as_str()
    }

    /// Sets the server's host name.
    pub fn set_server_host(&mut self, server_host: String)
        ensures
            final(self)@ == (PluginConfigView { server_host: server_host@, ..old(self)@ }),
    {
        self.server_host = server_host;
    }

    /// The server's port.
    pub fn get_server_port(&self) -> (r: i32)
        ensures
            r == self@.server_port,
    {
        self.server_port
    }

    /// Sets the server's port.
    pub fn set_server_port(&mut self, server_port: i32)
        ensures
            final(self)@ == (PluginConfigView { server_port, ..old(self)@ }),
    {
        self.server_port = server_port;
    }

    /// The plugin's identifier; empty until one is assigned.
    pub fn get_plugin_id(&self) -> (r: &str)
        ensures
            r@ == self@.plugin_id,
    {
        self.plugin_id.as_str()
    }

    /// Sets the plugin's identifier.
    pub fn set_plugin_id(&mut self, plugin_id: String)
        ensures
            final(self)@ == (PluginConfigView { plugin_id: plugin_id@, ..old(self)@ }),
    {
        self.plugin_id = plugin_id;
    }

    /// The plugin's name.
    pub fn get_plugin_name(&self) -> (r: &str)
        ensures
            r@ == self@.plugin_name,
    {
        self.plugin_name.as_str()
    }

    /// Sets the plugin's name.
    pub fn set_plugin_name(&mut self, plugin_name: String)
        ensures
            final(self)@ == (PluginConfigView { plugin_name: plugin_name@, ..old(self)@ }),
    {
        self.plugin_name = plugin_name;
    }

    /// The plugin's version.
    pub fn get_plugin_version(&self) -> (r: &str)
        ensures
            r@ == self@.plugin_version,
    {
        self.plugin_version.as_str()
    }

    /// Sets the plugin's version.
    pub fn set_plugin_version(&mut self, plugin_version: String)
        ensures
            final(self)@ == (PluginConfigView { plugin_version: plugin_version@, ..old(self)@ }),
    {
        self.plugin_version = plugin_version;
    }

    /// The plugin's type.
    pub fn get_plugin_type(&self) -> (r: &str)
        ensures
            r@ == self@.plugin_type,
    {
        self.plugin_type.as_str()
    }

    /// Sets the plugin's type.
    pub fn set_plugin_type(&mut self, plugin_type: String)
        ensures
            final(self)@ == (PluginConfigView { plugin_type: plugin_type@, ..old(self)@ }),
    {
        self.plugin_type = plugin_type;
    }

    /// The plugin's description.
    pub fn get_plugin_description(&self) -> (r: &str)
        ensures
            r@ == self@.plugin_description,
    {
        self.plugin_description.as_str()
    }

    /// Sets the plugin's description.
    pub fn set_plugin_description(&mut self, plugin_description: String)
        ensures
            final(self)@ == (PluginConfigView { plugin_description: plugin_description@, ..old(self)@ }),
    {
        self.plugin_description = plugin_description;
    }

    /// The further settings, by name.
    pub fn get_additional_config(&self) -> (r: &TextMap)
        ensures
            r@ == self@.additional_config,
    {
        &self.additional_config
    }

    /// Replaces the further settings.
    pub fn set_additional_config(&mut self, additional_config: TextMap)
        ensures
            final(self)@ == (PluginConfigView { additional_config: additional_config@, ..old(self)@ }),
    {
        self.additional_config = additional_config;
    }

    /// Sets the further setting `key` to `value`.
    pub fn add_config(&mut self, key: String, value: String)
        ensures
            final(self)@ == (PluginConfigView {
                additional_config: put(old(self)@.additional_config, key@, value@),
                ..old(self)@
            }),
    {
        self.additional_config.insert(key, value);
    }

    /// The further setting `key`, if it is set.
    pub fn get_config(&self, key: &str) -> (r: Option<&String>)
        ensures
            match r {
                Some(v) => lookup(self@.additional_config, key@) == Some(v@),
                None => lookup(self@.additional_config, key@).is_none(),
            },
    {
        self.additional_config.get(key)
    }
}

impl Clone for PluginConfig {
    fn clone(&self) -> (r: Self)
        ensures
            r@ == self@,
    {
        PluginConfig {
            server_host: self.server_host.clone(),
            server_port: self.server_port,
            plugin_id: self.plugin_id.clone(),
            plugin_name: self.plugin_name.clone(),
            plugin_version: self.plugin_version.clone(),
            plugin_type: self.plugin_type.clone(),
            plugin_description: self.plugin_description.clone(),
            additional_config: self.additional_config.clone(),
            name: self.name.clone(),
            supported_commands: clone_texts(&self.supported_commands),
            supported_events: clone_texts(&self.supported_events),
        }
    }
}

} // verus!
