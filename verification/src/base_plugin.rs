//! The life cycle of a plugin: registration with the orchestrator, with
//! retries and a fall-back to a local identifier, the heartbeat, and the
//! orderly stop. The plugin decides; whoever drives it sends the messages,
//! sleeps, and reports back what happened.
use crate::command_result::{CommandResult, CommandResultView};
use crate::error::{PluginError, PluginErrorView};
use crate::decimal::{parse_i32, parse_u32, parse_u64, signed_value, unsigned_value};
use crate::plugin_config::{PluginConfig, PluginConfigView};
use crate::plugin_info::{PluginInfo, PluginInfoView};
use crate::protocol::{
    HeartbeatRequest, HeartbeatRequestView, PluginRegistration, PluginRegistrationView,
    RegistrationResponse, RegistrationResponseView, StopRequest, StopRequestView,
};
use crate::system::{fresh_identifier, hyphenated};
use crate::text::{concat2, owned};
use crate::text_map::{lookup, TextMap};
use vstd::prelude::*;

verus! {

/// How many seconds pass between two heartbeats.
pub const HEARTBEAT_INTERVAL_SECONDS: u64 = 5;

/// How often a plugin in local mode asks again to be registered, behind
/// heartbeats that arrived.
pub const MAX_REREGISTRATIONS: u32 = 3;

/// How many registration attempts `start` makes: the setting
/// `register_retry`, or 5 where it is missing or no number.
pub open spec fn retry_count_of(config: PluginConfigView) -> u32 {
    match lookup(config.additional_config, "register_retry"@) {
        Some(s) => match unsigned_value(s, u32::MAX as nat) {
            Some(v) => v as u32,
            None => 5,
        },
        None => 5,
    }
}

/// How many seconds pass between two registration attempts: the setting
/// `register_retry_interval`, or 3 where it is missing or no number.
pub open spec fn retry_interval_of(config: PluginConfigView) -> u64 {
    match lookup(config.additional_config, "register_retry_interval"@) {
        Some(s) => match unsigned_value(s, u64::MAX as nat) {
            Some(v) => v as u64,
            None => 3,
        },
        None => 3,
    }
}

/// The address under which the plugin can be reached: the setting
/// `host_address`, or `localhost`.
pub open spec fn host_address_of(config: PluginConfigView) -> Seq<char> {
    match lookup(config.additional_config, "host_address"@) {
        Some(s) => s,
        None => "localhost"@,
    }
}

/// The port under which the plugin can be reached: the setting
/// `plugin_grpc_port`, or 19091 where it is missing or no number.
pub open spec fn advertised_port_of(config: PluginConfigView) -> i32 {
    match lookup(config.additional_config, "plugin_grpc_port"@) {
        Some(s) => match signed_value(s, i32::MAX as nat) {
            Some(v) => v as i32,
            None => 19091,
        },
        None => 19091,
    }
}

/// The number of registration attempts that `config` asks for.
pub fn retry_count(config: &PluginConfig) -> (r: u32)
    ensures
        r == retry_count_of(config@),
{
    match config.get_config("register_retry") {
        Some(s) => match parse_u32(s.as_str()) {
            Some(v) => v,
            None => 5,
        },
        None => 5,
    }
}

/// The seconds between registration attempts that `config` asks for.
pub fn retry_interval(config: &PluginConfig) -> (r: u64)
    ensures
        r == retry_interval_of(config@),
{
    match config.get_config("register_retry_interval") {
        Some(s) => match parse_u64(s.as_str()) {
            Some(v) => v,
            None => 3,
        },
        None => 3,
    }
}

/// The address that `config` advertises.
pub fn host_address(config: &PluginConfig) -> (r: String)
    ensures
        r@ == host_address_of(config@),
{
    match config.get_config("host_address") {
        Some(s) => s.clone(),
        None => owned("localhost"),
    }
}

/// The port that `config` advertises.
pub fn advertised_port(config: &PluginConfig) -> (r: i32)
    ensures
        r == advertised_port_of(config@),
{
    match config.get_config("plugin_grpc_port") {
        Some(s) => match parse_i32(s.as_str()) {
            Some(v) => v,
            None => 19091,
        },
        None => 19091,
    }
}

/// The state of one heartbeat task.
#[derive(Debug)]
pub struct HeartbeatLoop {
    pub plugin_id: String,
    pub status: String,
    pub server_host: String,
    pub server_port: i32,
    /// Whether the plugin runs in local mode and asks again to be
    /// registered.
    pub reregister: bool,
    /// How often it has asked again.
    pub retries: u32,
    /// What it sends when it asks again.
    pub registration: PluginRegistration,
    /// Whether the task has ended.
    pub finished: bool,
}

/// A `HeartbeatLoop` as plain values.
pub ghost struct HeartbeatLoopView {
    pub plugin_id: Seq<char>,
    pub status: Seq<char>,
    pub server_host: Seq<char>,
    pub server_port: i32,
    pub reregister: bool,
    pub retries: u32,
    pub registration: PluginRegistrationView,
    pub finished: bool,
}

impl View for HeartbeatLoop {
    type V = HeartbeatLoopView;

    open spec fn view(&self) -> HeartbeatLoopView {
        HeartbeatLoopView {
            plugin_id: self.plugin_id@,
            status: self.status@,
            server_host: self.server_host@,
            server_port: self.server_port,
            reregister: self.reregister,
            retries: self.retries,
            registration: self.registration@,
            finished: self.finished,
        }
    }
}

/// What the heartbeat task does when its timer fires.
#[derive(Debug)]
pub enum HeartbeatAction {
    /// The task ends.
    Exit,
    /// The task sends this heartbeat and reports with `on_heartbeat` whether
    /// it arrived.
    Send(HeartbeatRequest),
}

impl HeartbeatLoopView {
    /// Whether the task would ask again to be registered, were a heartbeat to
    /// arrive now.
    pub open spec fn asks_again(self) -> bool {
        !self.finished && self.reregister && self.retries < MAX_REREGISTRATIONS
    }
}

impl HeartbeatLoop {
    /// The timer fired, and the plugin's run state is `running`. A task that
    /// has ended, or whose plugin no longer runs, ends; otherwise it sends a
    /// heartbeat with the plugin's identifier and status.
    pub fn on_tick(&mut self, running: bool) -> (r: HeartbeatAction)
        ensures
            final(self)@ == (HeartbeatLoopView {
                finished: old(self)@.finished || !running,
                ..old(self)@
            }),
            match r {
                HeartbeatAction::Exit => final(self)@.finished,
                HeartbeatAction::Send(request) => running && !old(self)@.finished && request@ == (
                HeartbeatRequestView {
                    plugin_id: old(self)@.plugin_id,
                    status_info: old(self)@.status,
                }),
            },
    {
        if self.finished || !running {
            self.finished = true;
            HeartbeatAction::Exit
        } else {
            HeartbeatAction::Send(
                HeartbeatRequest { plugin_id: self.plugin_id.clone(), status_info: self.status.clone() },
            )
        }
    }

    /// A heartbeat was sent, and `delivered` says whether it arrived. A
    /// failure changes nothing: the task goes on. Behind a heartbeat that
    /// arrived, a plugin in local mode that has not used up its budget asks
    /// again to be registered, with the request returned.
    pub fn on_heartbeat(&mut self, delivered: bool) -> (r: Option<PluginRegistration>)
        ensures
            match r {
                Some(request) => delivered && old(self)@.asks_again() && request@ == old(
                    self,
                )@.registration && final(self)@ == (HeartbeatLoopView {
                    retries: (old(self)@.retries + 1) as u32,
                    ..old(self)@
                }),
                None => !(delivered && old(self)@.asks_again()) && final(self)@ == old(self)@,
            },
    {
        if delivered && !self.finished && self.reregister && self.retries < MAX_REREGISTRATIONS {
            self.retries = self.retries + 1;
            Some(
                PluginRegistration {
                    name: self.registration.name.clone(),
                    version: self.registration.version.clone(),
                    plugin_type: self.registration.plugin_type.clone(),
                    description: self.registration.description.clone(),
                    host: self.registration.host.clone(),
                    port: self.registration.port,
                },
            )
        } else {
            None
        }
    }

    /// The orchestrator answered a renewed registration, and `accepted`
    /// says whether it took the plugin. Once accepted, the task asks no
    /// more.
    pub fn on_registration(&mut self, accepted: bool)
        ensures
            final(self)@ == (HeartbeatLoopView {
                retries: if accepted {
                    MAX_REREGISTRATIONS
                } else {
                    old(self)@.retries
                },
                ..old(self)@
            }),
    {
        if accepted {
            self.retries = MAX_REREGISTRATIONS;
        }
    }

    /// The shutdown signal arrived: the task ends, whatever the timer says.
    pub fn on_shutdown(&mut self)
        ensures
            final(self)@ == (HeartbeatLoopView { finished: true, ..old(self)@ }),
    {
        self.finished = true;
    }
}

/// What `start` and `registration_result` ask of whoever drives the plugin.
#[derive(Debug)]
pub enum StartStep {
    /// The plugin was running already: the start is done, with success.
    AlreadyRunning,
    /// The plugin was never initialized: the start is done, without success.
    NotInitialized,
    /// No registration is under way: the report was ignored.
    Ignored,
    /// Send this registration and report with `registration_result`.
    Register(PluginRegistration),
    /// Sleep for so many seconds, then send this registration and report
    /// with `registration_result`.
    RetryAfter { seconds: u64, request: PluginRegistration },
    /// Spawn the heartbeat task: the start is done, with success.
    Heartbeat(HeartbeatLoop),
}

/// A `StartStep` as plain values.
pub ghost enum StartStepView {
    AlreadyRunning,
    NotInitialized,
    Ignored,
    Register(PluginRegistrationView),
    RetryAfter { seconds: u64, request: PluginRegistrationView },
    Heartbeat(HeartbeatLoopView),
}

impl View for StartStep {
    type V = StartStepView;

    open spec fn view(&self) -> StartStepView {
        match self {
            StartStep::AlreadyRunning => StartStepView::AlreadyRunning,
            StartStep::NotInitialized => StartStepView::NotInitialized,
            StartStep::Ignored => StartStepView::Ignored,
            StartStep::Register(r) => StartStepView::Register(r@),
            StartStep::RetryAfter { seconds, request } => StartStepView::RetryAfter {
                seconds: *seconds,
                request: request@,
            },
            StartStep::Heartbeat(h) => StartStepView::Heartbeat(h@),
        }
    }
}

impl StartStepView {
    /// What `start` returns to its caller, where the step ends the start.
    pub open spec fn outcome(self) -> Option<bool> {
        match self {
            StartStepView::AlreadyRunning => Some(true),
            StartStepView::NotInitialized => Some(false),
            StartStepView::Heartbeat(_) => Some(true),
            _ => None,
        }
    }

    /// Whether the step sends a registration.
    pub open spec fn registers(self) -> bool {
        self is Register || self is RetryAfter
    }
}

impl StartStep {
    /// What `start` returns to its caller, where the step ends the start.
    pub fn outcome(&self) -> (r: Option<bool>)
        ensures
            r == self@.outcome(),
    {
        match self {
            StartStep::AlreadyRunning => Some(true),
            StartStep::NotInitialized => Some(false),
            StartStep::Heartbeat(_) => Some(true),
            _ => None,
        }
    }
}

/// What `stop` asks of whoever drives the plugin.
#[derive(Debug)]
pub enum StopStep {
    /// The plugin was not running: nothing is to be done.
    AlreadyStopped,
    /// The plugin has stopped. Where `signal_heartbeat` holds, signal the
    /// heartbeat task to end and wait for it, within bounds; then send
    /// `notify`, if there is one, and disregard a failure.
    Shutdown { signal_heartbeat: bool, notify: Option<StopRequest> },
}

/// A `StopStep` as plain values.
pub ghost enum StopStepView {
    AlreadyStopped,
    Shutdown { signal_heartbeat: bool, notify: Option<StopRequestView> },
}

impl View for StopStep {
    type V = StopStepView;

    open spec fn view(&self) -> StopStepView {
        match self {
            StopStep::AlreadyStopped => StopStepView::AlreadyStopped,
            StopStep::Shutdown { signal_heartbeat, notify } => StopStepView::Shutdown {
                signal_heartbeat: *signal_heartbeat,
                notify: match notify {
                    Some(n) => Some(n@),
                    None => None,
                },
            },
        }
    }
}

impl StopStep {
    /// What `stop` returns to its caller: success, always.
    pub fn succeeded(&self) -> (r: bool)
        ensures
            r,
    {
        true
    }
}

/// The plugin's life cycle as plain values.
pub ghost struct BasePluginView {
    pub config: Option<PluginConfigView>,
    pub info: PluginInfoView,
    /// Whether the plugin runs.
    pub running: bool,
    /// Whether a start is under way that has not spawned the heartbeat yet.
    pub registering: bool,
    /// How many registrations the start under way, or the last one, sent.
    pub attempts: u32,
    /// Whether the plugin gave itself its identifier.
    pub standalone: bool,
    /// Whether a heartbeat task was spawned and not yet told to end.
    pub heartbeat: bool,
}

impl BasePluginView {
    /// The plugin before `initialize`.
    pub open spec fn blank() -> BasePluginView {
        BasePluginView {
            config: None,
            info: PluginInfoView::blank(),
            running: false,
            registering: false,
            attempts: 0,
            standalone: false,
            heartbeat: false,
        }
    }

    /// The plugin with `config` stored and its identity taken from it.
    pub open spec fn initialized(self, config: PluginConfigView) -> BasePluginView {
        BasePluginView {
            config: Some(config),
            info: PluginInfoView {
                id: config.plugin_id,
                name: config.plugin_name,
                version: config.plugin_version,
                plugin_type: config.plugin_type,
                description: config.plugin_description,
                ..self.info
            },
            ..self
        }
    }

    /// The registration that the plugin sends.
    pub open spec fn registration(self) -> PluginRegistrationView
        recommends
            self.config.is_some(),
    {
        PluginRegistrationView {
            name: self.info.name,
            version: self.info.version,
            plugin_type: self.info.plugin_type,
            description: self.info.description,
            host: host_address_of(self.config.unwrap()),
            port: advertised_port_of(self.config.unwrap()),
        }
    }

    /// The plugin under the identifier `id`.
    pub open spec fn identified(self, id: Seq<char>) -> BasePluginView
        recommends
            self.config.is_some(),
    {
        BasePluginView {
            config: Some(PluginConfigView { plugin_id: id, ..self.config.unwrap() }),
            info: PluginInfoView { id, ..self.info },
            ..self
        }
    }

    /// The heartbeat task that the plugin spawns.
    pub open spec fn heartbeat_plan(self) -> HeartbeatLoopView
        recommends
            self.config.is_some(),
    {
        HeartbeatLoopView {
            plugin_id: self.info.id,
            status: self.info.status,
            server_host: self.config.unwrap().server_host,
            server_port: self.config.unwrap().server_port,
            reregister: self.standalone,
            retries: 0,
            registration: self.registration(),
            finished: false,
        }
    }

    /// The plugin once its start has ended under the identifier `id`, which
    /// the orchestrator issued or, where `standalone` holds, the plugin gave
    /// itself; and the step that spawns the heartbeat.
    pub open spec fn launched(self, id: Seq<char>, standalone: bool) -> (BasePluginView, StartStepView) {
        let post = BasePluginView {
            registering: false,
            standalone,
            heartbeat: true,
            ..self.identified(id)
        };
        (post, StartStepView::Heartbeat(post.heartbeat_plan()))
    }

    /// What `start` makes of the plugin, and the step it returns. `local_id`
    /// is the identifier that the plugin gives itself where it sends no
    /// registration at all.
    pub open spec fn start(self, local_id: Seq<char>) -> (BasePluginView, StartStepView) {
        if self.running {
            (self, StartStepView::AlreadyRunning)
        } else if self.config.is_none() {
            (BasePluginView { running: true, ..self }, StartStepView::NotInitialized)
        } else if retry_count_of(self.config.unwrap()) == 0 {
            (BasePluginView { running: true, attempts: 0, ..self }).launched(local_id, true)
        } else {
            (
                BasePluginView { running: true, registering: true, attempts: 1, ..self },
                StartStepView::Register(self.registration()),
            )
        }
    }

    /// Whether the attempt that ended with `outcome` registered the plugin.
    pub open spec fn accepted(outcome: Result<RegistrationResponseView, Seq<char>>) -> bool {
        outcome.is_ok() && outcome->Ok_0.success
    }

    /// Whether the plugin gives up registering after a failed attempt.
    pub open spec fn gives_up(self) -> bool
        recommends
            self.config.is_some(),
    {
        self.attempts >= retry_count_of(self.config.unwrap())
    }

    /// What `registration_result` makes of the plugin, and the step it
    /// returns. `outcome` is the orchestrator's answer, or the transport's
    /// error; `local_id` is the identifier that the plugin gives itself
    /// where it gives up.
    pub open spec fn registration_result(
        self,
        outcome: Result<RegistrationResponseView, Seq<char>>,
        local_id: Seq<char>,
    ) -> (BasePluginView, StartStepView) {
        if !self.registering || !self.running || self.config.is_none() {
            (self, StartStepView::Ignored)
        } else if Self::accepted(outcome) {
            self.launched(outcome->Ok_0.plugin_id, false)
        } else if self.gives_up() {
            self.launched(local_id, true)
        } else {
            (
                BasePluginView { attempts: (self.attempts + 1) as u32, ..self },
                StartStepView::RetryAfter {
                    seconds: retry_interval_of(self.config.unwrap()),
                    request: self.registration(),
                },
            )
        }
    }

    /// What `stop` makes of the plugin, and the step it returns.
    pub open spec fn stop(self) -> (BasePluginView, StopStepView) {
        if !self.running {
            (self, StopStepView::AlreadyStopped)
        } else {
            (
                BasePluginView { running: false, registering: false, heartbeat: false, ..self },
                StopStepView::Shutdown {
                    signal_heartbeat: self.heartbeat,
                    notify: if self.config.is_some() {
                        Some(StopRequestView { plugin_id: self.info.id })
                    } else {
                        None
                    },
                },
            )
        }
    }

    /// The heartbeat that `heartbeat_request` builds, or its refusal.
    pub open spec fn heartbeat_request(self) -> Result<HeartbeatRequestView, PluginErrorView> {
        if self.info.id.len() == 0 {
            Err(PluginErrorView::NotRegistered)
        } else {
            Ok(
                HeartbeatRequestView {
                    plugin_id: self.info.id,
                    status_info: if self.running {
                        "RUNNING"@
                    } else {
                        "STOPPED"@
                    },
                },
            )
        }
    }
}

/// The view of what the orchestrator, or the transport, answered.
pub open spec fn outcome_view(outcome: Result<RegistrationResponse, String>) -> Result<
    RegistrationResponseView,
    Seq<char>,
> {
    match outcome {
        Ok(r) => Ok(r@),
        Err(e) => Err(e@),
    }
}

/// A plugin's life cycle.
#[derive(Debug)]
pub struct BasePlugin {
    config: Option<PluginConfig>,
    info: PluginInfo,
    running: bool,
    registering: bool,
    attempts: u32,
    standalone: bool,
    heartbeat: bool,
}

impl View for BasePlugin {
    type V = BasePluginView;

    closed spec fn view(&self) -> BasePluginView {
        BasePluginView {
            config: match self.config {
                Some(c) => Some(c@),
                None => None,
            },
            info: self.info@,
            running: self.running,
            registering: self.registering,
            attempts: self.attempts,
            standalone: self.standalone,
            heartbeat: self.heartbeat,
        }
    }
}

impl BasePlugin {
    /// A plugin that is neither initialized nor running.
    pub fn new() -> (r: Self)
        ensures
            r@ == BasePluginView::blank(),
    {
        BasePlugin {
            config: None,
            info: PluginInfo::new(),
            running: false,
            registering: false,
            attempts: 0,
            standalone: false,
            heartbeat: false,
        }
    }

    /// Stores `config` and takes the plugin's identity from it. Never
    /// fails.
    pub fn initialize(&mut self, config: PluginConfig) -> (r: bool)
        ensures
            r,
            final(self)@ == old(self)@.initialized(config@),
    {
        self.info.set_id(owned(config.get_plugin_id()));
        self.info.set_name(owned(config.get_plugin_name()));
        self.info.set_version(owned(config.get_plugin_version()));
        self.info.set_type(owned(config.get_plugin_type()));
        self.info.set_description(owned(config.get_plugin_description()));
        self.config = Some(config);
        true
    }

    /// Whether the plugin runs.
    pub fn is_running(&self) -> (r: bool)
        ensures
            r == self@.running,
    {
        self.running
    }

    /// The plugin's configuration, once it is initialized.
    pub fn get_config(&self) -> (r: Option<&PluginConfig>)
        ensures
            match r {
                Some(c) => self@.config == Some(c@),
                None => self@.config.is_none(),
            },
    {
        match &self.config {
            Some(c) => Some(c),
            None => None,
        }
    }

    /// A copy of the plugin's identity.
    pub fn get_info(&self) -> (r: PluginInfo)
        ensures
            r@ == self@.info,
    {
        self.info.clone()
    }

    /// The plugin's identity.
    pub fn info(&self) -> (r: &PluginInfo)
        ensures
            r@ == self@.info,
    {
        &self.info
    }

    /// The registration that the plugin sends, once it is initialized.
    pub fn registration_request(&self) -> (r: Option<PluginRegistration>)
        ensures
            match r {
                Some(request) => self@.config.is_some() && request@ == self@.registration(),
                None => self@.config.is_none(),
            },
    {
        match &self.config {
            Some(config) => Some(
                PluginRegistration {
                    name: owned(self.info.get_name()),
                    version: owned(self.info.get_version()),
                    plugin_type: owned(self.info.get_type()),
                    description: owned(self.info.get_description()),
                    host: host_address(config),
                    port: advertised_port(config),
                },
            ),
            None => None,
        }
    }

    /// Ends a start under the identifier `id` and plans the heartbeat.
    fn launch(&mut self, id: String, standalone: bool) -> (r: StartStep)
        requires
            old(self)@.config.is_some(),
        ensures
            (final(self)@, r@) == old(self)@.launched(id@, standalone),
    {
        let mut config = match &self.config {
            Some(c) => c.clone(),
            None => PluginConfig::new(),
        };
        config.set_plugin_id(id.clone());
        self.info.set_id(id);
        self.registering = false;
        self.standalone = standalone;
        self.heartbeat = true;
        let registration = PluginRegistration {
            name: owned(self.info.get_name()),
            version: owned(self.info.get_version()),
            plugin_type: owned(self.info.get_type()),
            description: owned(self.info.get_description()),
            host: host_address(&config),
            port: advertised_port(&config),
        };
        let plan = HeartbeatLoop {
            plugin_id: owned(self.info.get_id()),
            status: owned(self.info.get_status()),
            server_host: owned(config.get_server_host()),
            server_port: config.get_server_port(),
            reregister: standalone,
            retries: 0,
            registration,
            finished: false,
        };
        self.config = Some(config);
        StartStep::Heartbeat(plan)
    }

    /// Starts the plugin, with `local_id` as the identifier that it gives
    /// itself where it is to send no registration at all.
    pub fn start_with(&mut self, local_id: String) -> (r: StartStep)
        ensures
            (final(self)@, r@) == old(self)@.start(local_id@),
    {
        if self.running {
            return StartStep::AlreadyRunning;
        }
        self.running = true;
        let (budget, request) = match (&self.config, self.registration_request()) {
            (Some(config), Some(request)) => (retry_count(config), request),
            _ => {
                return StartStep::NotInitialized;
            },
        };
        if budget == 0 {
            self.attempts = 0;
            self.launch(local_id, true)
        } else {
            self.registering = true;
            self.attempts = 1;
            StartStep::Register(request)
        }
    }

    /// Starts the plugin. One that runs already stays as it is. One that
    /// was never initialized is refused. Otherwise the plugin runs from now
    /// on, and the step returned is the first registration to send, or,
    /// where the configuration asks for no attempt at all, the heartbeat to
    /// spawn under an identifier that the plugin gave itself.
    pub fn start(&mut self) -> (r: StartStep)
        ensures
            exists|local_id: Seq<char>|
                hyphenated(local_id) && (final(self)@, r@) == #[trigger] old(self)@.start(local_id),
    {
        let local_id = fresh_identifier();
        let ghost witness = local_id@;
        let r = self.start_with(local_id);
        assert((self@, r@) == old(self)@.start(witness));
        r
    }

    /// Takes in the outcome of a registration attempt, with `local_id` as
    /// the identifier that the plugin gives itself where it gives up.
    pub fn registration_result_with(
        &mut self,
        outcome: Result<RegistrationResponse, String>,
        local_id: String,
    ) -> (r: StartStep)
        ensures
            (final(self)@, r@) == old(self)@.registration_result(outcome_view(outcome), local_id@),
    {
        if !self.registering || !self.running {
            return StartStep::Ignored;
        }
        let (budget, seconds, request) = match (&self.config, self.registration_request()) {
            (Some(config), Some(request)) => (retry_count(config), retry_interval(config), request),
            _ => {
                return StartStep::Ignored;
            },
        };
        let issued = match outcome {
            Ok(response) => if response.success {
                Some(response.plugin_id)
            } else {
                None
            },
            Err(_) => None,
        };
        match issued {
            Some(id) => self.launch(id, false),
            None => {
                if self.attempts >= budget {
                    self.launch(local_id, true)
                } else {
                    self.attempts = self.attempts + 1;
                    StartStep::RetryAfter { seconds, request }
                }
            },
        }
    }

    /// Takes in the outcome of a registration attempt: the orchestrator's
    /// answer, or the transport's error. Where the orchestrator accepted the
    /// plugin, the plugin adopts the identifier issued and the heartbeat is
    /// to be spawned. After a failure the plugin tries again, after a pause,
    /// as long as its budget of attempts lasts; then it gives itself an
    /// identifier and the heartbeat is to be spawned all the same.
    pub fn registration_result(&mut self, outcome: Result<RegistrationResponse, String>) -> (r:
        StartStep)
        ensures
            exists|local_id: Seq<char>|
                hyphenated(local_id) && (final(self)@, r@) == #[trigger] old(self)@.registration_result(
                    outcome_view(outcome),
                    local_id,
                ),
    {
        let local_id = fresh_identifier();
        let ghost witness = local_id@;
        let r = self.registration_result_with(outcome, local_id);
        assert((self@, r@) == old(self)@.registration_result(outcome_view(outcome), witness));
        r
    }

    /// Stops the plugin. One that does not run stays as it is, and nothing
    /// is to be done. Otherwise the plugin no longer runs, and the step says
    /// whether a heartbeat task is to be told to end and what the
    /// orchestrator is to be told.
    pub fn stop(&mut self) -> (r: StopStep)
        ensures
            (final(self)@, r@) == old(self)@.stop(),
    {
        if !self.running {
            return StopStep::AlreadyStopped;
        }
        let signal_heartbeat = self.heartbeat;
        self.running = false;
        self.registering = false;
        self.heartbeat = false;
        let notify = match &self.config {
            Some(_) => Some(StopRequest { plugin_id: owned(self.info.get_id()) }),
            None => None,
        };
        StopStep::Shutdown { signal_heartbeat, notify }
    }

    /// The heartbeat to send outside the heartbeat task. A plugin that has
    /// no identifier yet is refused.
    pub fn heartbeat_request(&self) -> (r: Result<HeartbeatRequest, PluginError>)
        ensures
            match r {
                Ok(request) => self@.heartbeat_request() == Ok::<
                    HeartbeatRequestView,
                    PluginErrorView,
                >(request@),
                Err(e) => self@.heartbeat_request() == Err::<HeartbeatRequestView, PluginErrorView>(
                    e@,
                ),
            },
    {
        if self.info.get_id().unicode_len() == 0 {
            Err(PluginError::NotRegistered)
        } else {
            let status = if self.running {
                "RUNNING"
            } else {
                "STOPPED"
            };
            Ok(HeartbeatRequest { plugin_id: owned(self.info.get_id()), status_info: owned(status) })
        }
    }

    /// What a heartbeat sent outside the heartbeat task comes to: `true`
    /// where it was delivered, and the transport's error behind a fixed
    /// prefix where it was not.
    pub fn heartbeat_outcome(delivery: Result<(), String>) -> (r: Result<bool, PluginError>)
        ensures
            match delivery {
                Ok(_) => r is Ok && r->Ok_0,
                Err(e) => r is Err && r->Err_0@ == PluginErrorView::Transport(
                    "心跳发送失败: "@ + e@,
                ),
            },
    {
        match delivery {
            Ok(_) => Ok(true),
            Err(e) => Err(PluginError::Transport(concat2("心跳发送失败: ", e.as_str()))),
        }
    }

    /// A plugin without commands of its own supports none: every command
    /// fails, and the reason names it.
    pub fn execute_command(&self, command: &str, params: &TextMap) -> (r: CommandResult)
        ensures
            r@ == CommandResultView::failed("不支持的命令: "@ + command@),
    {
        CommandResult::failed(concat2("不支持的命令: ", command))
    }

    /// A plugin without messages of its own handles none: the answer says
    /// so and repeats the message.
    pub fn handle_message(&self, message: &str) -> (r: String)
        ensures
            r@ == "未处理的消息: "@ + message@,
    {
        concat2("未处理的消息: ", message)
    }
}

} // verus!
