//! A small plugin that shows how commands are answered.
use crate::base_plugin::{
    outcome_view, BasePlugin, BasePluginView, StartStep, StopStep,
};
use crate::command_result::{CommandResult, CommandResultView};
use crate::key_management::commands::parameter_or;
use crate::plugin_config::PluginConfig;
use crate::plugin_info::PluginInfo;
use crate::protocol::RegistrationResponse;
use crate::system::hyphenated;
use crate::text::{concat2, concat3, owned, same_text};
use crate::text_map::{lookup_or, Pair, TextMap};
use vstd::prelude::*;
use vstd::string::*;

verus! {

/// What the example plugin answers to the command `command` with the
/// parameters `params`: a greeting to `hello`, the message back to `echo`, a
/// masked password to `get_password`, a confirmation to `save_password`, and
/// a failure that names the command to any other.
pub open spec fn example_reply(command: Seq<char>, params: Seq<Pair>) -> CommandResultView {
    let username = lookup_or(params, "username"@, ""@);
    let service = lookup_or(params, "service"@, ""@);
    if command == "hello"@ {
        CommandResultView::done("Hello, World!"@)
    } else if command == "echo"@ {
        CommandResultView::done("Echo: "@ + lookup_or(params, "message"@, ""@))
    } else if command == "get_password"@ {
        CommandResultView::done("用户 "@ + username + " 在服务 "@ + service + " 的密码是: ********"@)
    } else if command == "save_password"@ {
        CommandResultView::done("已保存用户 "@ + username + " 在服务 "@ + service + " 的密码"@)
    } else {
        CommandResultView::failed("未知命令: "@ + command)
    }
}

/// A plugin with four commands, for show.
#[derive(Debug)]
pub struct ExamplePlugin {
    base: BasePlugin,
}

impl View for ExamplePlugin {
    type V = BasePluginView;

    closed spec fn view(&self) -> BasePluginView {
        self.base@
    }
}

impl ExamplePlugin {
    /// A plugin that is neither initialized nor running.
    pub fn new() -> (r: Self)
        ensures
            r@ == BasePluginView::blank(),
    {
        ExamplePlugin { base: BasePlugin::new() }
    }

    /// Stores `config` and takes the plugin's identity from it. Never
    /// fails.
    pub fn initialize(&mut self, config: PluginConfig) -> (r: bool)
        ensures
            r,
            final(self)@ == old(self)@.initialized(config@),
    {
        self.base.initialize(config)
    }

    /// Starts the plugin: see `BasePlugin::start`.
    pub fn start(&mut self) -> (r: StartStep)
        ensures
            exists|local_id: Seq<char>|
                hyphenated(local_id) && (final(self)@, r@) == #[trigger] old(self)@.start(local_id),
    {
        let r = self.base.start();
        proof {
            let id = choose|local_id: Seq<char>|
                hyphenated(local_id) && (self.base@, r@) == #[trigger] old(self).base@.start(local_id);
            assert((self@, r@) == old(self)@.start(id));
        }
        r
    }

    /// Takes in the outcome of a registration attempt: see
    /// `BasePlugin::registration_result`.
    pub fn registration_result(&mut self, outcome: Result<RegistrationResponse, String>) -> (r:
        StartStep)
        ensures
            exists|local_id: Seq<char>|
                hyphenated(local_id) && (final(self)@, r@) == #[trigger] old(self)@.registration_result(
                    outcome_view(outcome),
                    local_id,
                ),
    {
        let r = self.base.registration_result(outcome);
        proof {
            let id = choose|local_id: Seq<char>|
                hyphenated(local_id) && (self.base@, r@) == #[trigger] old(
                    self,
                ).base@.registration_result(outcome_view(outcome), local_id);
            assert((self@, r@) == old(self)@.registration_result(outcome_view(outcome), id));
        }
        r
    }

    /// Stops the plugin: see `BasePlugin::stop`.
    pub fn stop(&mut self) -> (r: StopStep)
        ensures
            (final(self)@, r@) == old(self)@.stop(),
    {
        self.base.stop()
    }

    /// The plugin's life cycle.
    pub fn base(&self) -> (r: &BasePlugin)
        ensures
            r@ == self@,
    {
        &self.base
    }

    /// A copy of the plugin's identity.
    pub fn get_info(&self) -> (r: PluginInfo)
        ensures
            r@ == self@.info,
    {
        self.base.get_info()
    }

    /// Answers the command `command` with the parameters `params`.
    pub fn execute_command(&self, command: &str, params: &TextMap) -> (r: CommandResult)
        ensures
            r@ == example_reply(command@, params@),
    {
        if same_text(command, "hello") {
            CommandResult::done(owned("Hello, World!"))
        } else if same_text(command, "echo") {
            let message = parameter_or(params, "message", "");
            CommandResult::done(concat2("Echo: ", message.as_str()))
        } else if same_text(command, "get_password") {
            let username = parameter_or(params, "username", "");
            let service = parameter_or(params, "service", "");
            let mut text = concat3("用户 ", username.as_str(), " 在服务 ");
            text.append(service.as_str());
            text.append(" 的密码是: ********");
            CommandResult::done(text)
        } else if same_text(command, "save_password") {
            let username = parameter_or(params, "username", "");
            let service = parameter_or(params, "service", "");
            let mut text = concat3("已保存用户 ", username.as_str(), " 在服务 ");
            text.append(service.as_str());
            text.append(" 的密码");
            CommandResult::done(text)
        } else {
            CommandResult::failed(concat2("未知命令: ", command))
        }
    }

    /// Answers a message: the answer says that the message arrived and
    /// repeats it.
    pub fn handle_message(&self, message: &str) -> (r: String)
        ensures
            r@ == "已收到消息: "@ + message@,
    {
        concat2("已收到消息: ", message)
    }
}

} // verus!
