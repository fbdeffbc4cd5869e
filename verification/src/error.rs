//! The errors that the plugin's operations end with.
use crate::key_management::models::KeyStatus;
use crate::text::{concat2, owned};
use vstd::prelude::*;

verus! {

/// Why an operation did not take place.
#[derive(Debug)]
pub enum PluginError {
    /// The orchestrator or a store could not be reached, or did not answer
    /// in time; the text says what happened.
    Transport(String),
    /// No key has the identifier given.
    NotFound,
    /// The key's status, given here, does not allow the operation.
    InvalidState(KeyStatus),
    /// The operation waits for approval under the identifier given here.
    ApprovalRequired(String),
    /// A parameter is missing or not valid; the text says which.
    Validation(String),
    /// What a store holds could not be read, or a write to it failed; the
    /// text says what happened.
    Persistence(String),
    /// The security module failed, with this text.
    SecurityModule(String),
    /// The key's version number cannot grow any further.
    VersionExhausted,
    /// The plugin has no identifier yet.
    NotRegistered,
}

/// A `PluginError` as plain values.
pub ghost enum PluginErrorView {
    Transport(Seq<char>),
    NotFound,
    InvalidState(KeyStatus),
    ApprovalRequired(Seq<char>),
    Validation(Seq<char>),
    Persistence(Seq<char>),
    SecurityModule(Seq<char>),
    VersionExhausted,
    NotRegistered,
}

impl View for PluginError {
    type V = PluginErrorView;

    open spec fn view(&self) -> PluginErrorView {
        match self {
            PluginError::Transport(m) => PluginErrorView::Transport(m@),
            PluginError::NotFound => PluginErrorView::NotFound,
            PluginError::InvalidState(s) => PluginErrorView::InvalidState(*s),
            PluginError::ApprovalRequired(id) => PluginErrorView::ApprovalRequired(id@),
            PluginError::Validation(m) => PluginErrorView::Validation(m@),
            PluginError::Persistence(m) => PluginErrorView::Persistence(m@),
            PluginError::SecurityModule(m) => PluginErrorView::SecurityModule(m@),
            PluginError::VersionExhausted => PluginErrorView::VersionExhausted,
            PluginError::NotRegistered => PluginErrorView::NotRegistered,
        }
    }
}

impl PluginErrorView {
    /// The error in words, as it is shown to the caller of a command.
    pub open spec fn text(self) -> Seq<char> {
        match self {
            PluginErrorView::Transport(m) => m,
            PluginErrorView::NotFound => "Key not found"@,
            PluginErrorView::InvalidState(s) => "Key is not active, current status: "@ + s.name(),
            PluginErrorView::ApprovalRequired(id) => "Key rotation requires approval. Approval ID: "@
                + id,
            PluginErrorView::Validation(m) => m,
            PluginErrorView::Persistence(m) => m,
            PluginErrorView::SecurityModule(m) => m,
            PluginErrorView::VersionExhausted => "Key version cannot be increased"@,
            PluginErrorView::NotRegistered => "插件未注册，无法发送心跳"@,
        }
    }
}

impl PluginError {
    /// The error in words.
    pub fn message(&self) -> (r: String)
        ensures
            r@ == self@.text(),
    {
        match self {
            PluginError::Transport(m) => m.clone(),
            PluginError::NotFound => owned("Key not found"),
            PluginError::InvalidState(s) => concat2(
                "Key is not active, current status: ",
                s.variant_name(),
            ),
            PluginError::ApprovalRequired(id) => concat2(
                "Key rotation requires approval. Approval ID: ",
                id.as_str(),
            ),
            PluginError::Validation(m) => m.clone(),
            PluginError::Persistence(m) => m.clone(),
            PluginError::SecurityModule(m) => m.clone(),
            PluginError::VersionExhausted => owned("Key version cannot be increased"),
            PluginError::NotRegistered => owned("插件未注册，无法发送心跳"),
        }
    }
}

} // verus!
