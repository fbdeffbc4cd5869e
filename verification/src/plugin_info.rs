//! What a plugin tells the world about itself.
use crate::text::{clone_texts, text_views};
use vstd::prelude::*;

verus! {

/// A plugin's identity and state: its identifier, which is empty until
/// one is assigned, its name, version, type and description, its status, and
/// the commands and events it supports.
#[derive(Debug)]
pub struct PluginInfo {
    id: String,
    name: String,
    version: String,
    plugin_type: String,
    description: String,
    status: String,
    supported_commands: Vec<String>,
    supported_events: Vec<String>,
}

/// A `PluginInfo` as plain values.
pub ghost struct PluginInfoView {
    pub id: Seq<char>,
    pub name: Seq<char>,
    pub version: Seq<char>,
    pub plugin_type: Seq<char>,
    pub description: Seq<char>,
    pub status: Seq<char>,
    pub supported_commands: Seq<Seq<char>>,
    pub supported_events: Seq<Seq<char>>,
}

impl PluginInfoView {
    /// The identity in which every text and list is empty.
    pub open spec fn blank() -> PluginInfoView {
        PluginInfoView {
            id: Seq::empty(),
            name: Seq::empty(),
            version: Seq::empty(),
            plugin_type: Seq::empty(),
            description: Seq::empty(),
            status: Seq::empty(),
            supported_commands: Seq::empty(),
            supported_events: Seq::empty(),
        }
    }
}

impl View for PluginInfo {
    type V = PluginInfoView;

    closed spec fn view(&self) -> PluginInfoView {
        PluginInfoView {
            id: self.id@,
            name: self.name@,
            version: self.version@,
            plugin_type: self.plugin_type@,
            description: self.description@,
            status: self.status@,
            supported_commands: text_views(self.supported_commands@),
            supported_events: text_views(self.supported_events@),
        }
    }
}

impl PluginInfo {
    /// The blank identity.
    pub fn new() -> (r: Self)
        ensures
            r@ == PluginInfoView::blank(),
    {
        let r = PluginInfo {
            id: String::new(),
            name: String::new(),
            version: String::new(),
            plugin_type: String::new(),
            description: String::new(),
            status: String::new(),
            supported_commands: Vec::new(),
            supported_events: Vec::new(),
        };
        assert(r@.supported_commands =~= Seq::empty());
        assert(r@.supported_events =~= Seq::empty());
        r
    }

    /// The plugin's identifier; empty until one is assigned.
    pub fn get_id(&self) -> (r: &str)
        ensures
            r@ == self@.id,
    {
        self.id.as_str()
    }

    /// Sets the plugin's identifier.
    pub fn set_id(&mut self, id: String)
        ensures
            final(self)@ == (PluginInfoView { id: id@, ..old(self)@ }),
    {
        self.id = id;
    }

    /// The plugin's name.
    pub fn get_name(&self) -> (r: &str)
        ensures
            r@ == self@.name,
    {
        self.name.as_str()
    }

    /// Sets the plugin's name.
    pub fn set_name(&mut self, name: String)
        ensures
            final(self)@ == (PluginInfoView { name: name@, ..old(self)@ }),
    {
        self.name = name;
    }

    /// The plugin's version.
    pub fn get_version(&self) -> (r: &str)
        ensures
            r@ == self@.version,
    {
        self.version.as_str()
    }

    /// Sets the plugin's version.
    pub fn set_version(&mut self, version: String)
        ensures
            final(self)@ == (PluginInfoView { version: version@, ..old(self)@ }),
    {
        self.version = version;
    }

    /// The plugin's type.
    pub fn get_type(&self) -> (r: &str)
        ensures
            r@ == self@.plugin_type,
    {
        self.plugin_type.as_str()
    }

    /// Sets the plugin's type.
    pub fn set_type(&mut self, plugin_type: String)
        ensures
            final(self)@ == (PluginInfoView { plugin_type: plugin_type@, ..old(self)@ }),
    {
        self.plugin_type = plugin_type;
    }

    /// The plugin's description.
    pub fn get_description(&self) -> (r: &str)
        ensures
            r@ == self@.description,
    {
        self.description.as_str()
    }

    /// Sets the plugin's description.
    pub fn set_description(&mut self, description: String)
        ensures
            final(self)@ == (PluginInfoView { description: description@, ..old(self)@ }),
    {
        self.description = description;
    }

    /// The plugin's status.
    pub fn get_status(&self) -> (r: &str)
        ensures
            r@ == self@.status,
    {
        self.status.as_str()
    }

    /// Sets the plugin's status.
    pub fn set_status(&mut self, status: String)
        ensures
            final(self)@ == (PluginInfoView { status: status@, ..old(self)@ }),
    {
        self.status = status;
    }

    /// The commands that the plugin supports, in the order in which they
    /// were added.
    pub fn get_supported_commands(&self) -> (r: &Vec<String>)
        ensures
            text_views(r@) == self@.supported_commands,
    {
        &self.supported_commands
    }

    /// Adds a command to those that the plugin supports.
    pub fn add_supported_command(&mut self, command: String)
        ensures
            final(self)@ == (PluginInfoView {
                supported_commands: old(self)@.supported_commands.push(command@),
                ..old(self)@
            }),
    {
        self.supported_commands.push(command);
        assert(self@.supported_commands =~= old(self)@.supported_commands.push(command@));
    }

    /// The events that the plugin supports, in the order in which they were
    /// added.
    pub fn get_supported_events(&self) -> (r: &Vec<String>)
        ensures
            text_views(r@) == self@.supported_events,
    {
        &self.supported_events
    }

    /// Adds an event to those that the plugin supports.
    pub fn add_supported_event(&mut self, event: String)
        ensures
            final(self)@ == (PluginInfoView {
                supported_events: old(self)@.supported_events.push(event@),
                ..old(self)@
            }),
    {
        self.supported_events.push(event);
        assert(self@.supported_events =~= old(self)@.supported_events.push(event@));
    }
}

impl Clone for PluginInfo {
    fn clone(&self) -> (r: Self)
        ensures
            r@ == self@,
    {
        PluginInfo {
            id: self.id.clone(),
            name: self.name.clone(),
            version: self.version.clone(),
            plugin_type: self.plugin_type.clone(),
            description: self.description.clone(),
            status: self.status.clone(),
            supported_commands: clone_texts(&self.supported_commands),
            supported_events: clone_texts(&self.supported_events),
        }
    }
}

} // verus!
