//! The commands that the key management engine takes by name, with their
//! parameters as text.
use crate::command_result::{CommandResult, CommandResultView};
use crate::key_management::filters::matching_keys;
use crate::key_management::json::{key_json, keys_json, payload, write_key, write_keys};
use crate::key_management::models::{KeyAlgorithm, KeyMetadata, KeyMetadataView, KeyType};
use crate::key_management::plugin::KeyManagementPlugin;
use crate::key_management::security::SecurityModuleInterface;
use crate::key_management::state::{
    create_effect, key_position, outcome_view, rotate_effect, EngineView, KeyRequest,
};
use crate::system::hyphenated;
use crate::text::{concat2, lowercase, owned, same_text, strip_prefix, to_lowercase, without_prefix};
use crate::text_map::{lookup, lookup_or, put, Pair, TextMap};
use crate::error::{PluginError, PluginErrorView};
use vstd::prelude::*;

verus! {

/// The tags among the parameters of a command: each parameter whose name
/// begins with `tag.` gives the tag named by the rest its value.
pub open spec fn collect_tags(params: Seq<Pair>) -> Seq<Pair>
    decreases params.len(),
{
    if params.len() == 0 {
        Seq::empty()
    } else {
        match without_prefix(params.last().0, "tag."@) {
            Some(tag) => put(collect_tags(params.drop_last()), tag, params.last().1),
            None => collect_tags(params.drop_last()),
        }
    }
}

/// Whether the parameter `requires_approval` asks for approval: it is there
/// and reads `true`, in whatever case.
pub open spec fn asks_for_approval(params: Seq<Pair>) -> bool {
    match lookup(params, "requires_approval"@) {
        Some(v) => lowercase(v) == "true"@,
        None => false,
    }
}

/// The key that the parameters of `create_key` ask for, or the reason why
/// they ask for none: the name is missing, or the key type or algorithm is
/// none that the engine knows. Those two default to `SYMMETRIC` and
/// `AES-256`, the description to the empty text, the user to `system`.
pub open spec fn create_request_of(params: Seq<Pair>) -> Result<KeyRequest, PluginErrorView> {
    let type_label = lookup_or(params, "key_type"@, "SYMMETRIC"@);
    let algorithm_label = lookup_or(params, "algorithm"@, "AES-256"@);
    if lookup(params, "name"@).is_none() {
        Err(PluginErrorView::Validation("Missing parameter: name"@))
    } else if KeyType::of_label(type_label).is_none() {
        Err(PluginErrorView::Validation("Invalid key type: "@ + type_label))
    } else if KeyAlgorithm::of_label(algorithm_label).is_none() {
        Err(PluginErrorView::Validation("Invalid algorithm: "@ + algorithm_label))
    } else {
        Ok(
            KeyRequest {
                name: lookup(params, "name"@).unwrap(),
                description: lookup_or(params, "description"@, ""@),
                key_type: KeyType::of_label(type_label).unwrap(),
                algorithm: KeyAlgorithm::of_label(algorithm_label).unwrap(),
                owner: lookup_or(params, "user"@, "system"@),
                requires_approval: asks_for_approval(params),
                tags: Some(collect_tags(params)),
                expiration_date: None,
            },
        )
    }
}

/// What a command returns for the outcome of an operation on one key: the
/// key as JSON, or the error in words.
pub open spec fn rendered(outcome: Result<KeyMetadataView, PluginErrorView>) -> CommandResultView {
    match outcome {
        Ok(m) => CommandResultView::done(payload(key_json(m))),
        Err(e) => CommandResultView::failed(e.text()),
    }
}

/// What the command `command` with the parameters `params` makes of the
/// state `pre`, and the result it returns. The other arguments are what the
/// outside world supplies to `create_key` and `rotate_key`: see
/// `create_effect` and `rotate_effect`.
pub open spec fn command_effect(
    pre: EngineView,
    command: Seq<char>,
    params: Seq<Pair>,
    key_id: Seq<char>,
    now: i64,
    entry_id: Seq<char>,
    entry_time: i64,
    operation_id: Seq<char>,
    provisioned: Result<(), Seq<char>>,
) -> (EngineView, CommandResultView) {
    if command == "create_key"@ {
        match create_request_of(params) {
            Err(reason) => (pre, CommandResultView::failed(reason.text())),
            Ok(request) => {
                let (post, outcome) = create_effect(
                    pre,
                    request,
                    key_id,
                    now,
                    entry_id,
                    entry_time,
                    provisioned,
                );
                (post, rendered(outcome))
            },
        }
    } else if command == "rotate_key"@ {
        match lookup(params, "key_id"@) {
            None => (pre, CommandResultView::failed("Missing parameter: key_id"@)),
            Some(id) => {
                let (post, outcome) = rotate_effect(
                    pre,
                    id,
                    lookup_or(params, "user"@, "system"@),
                    now,
                    entry_id,
                    entry_time,
                    operation_id,
                    provisioned,
                );
                (post, rendered(outcome))
            },
        }
    } else if command == "get_key"@ {
        match lookup(params, "key_id"@) {
            None => (pre, CommandResultView::failed("Missing parameter: key_id"@)),
            Some(id) => if key_position(pre.keys, id) >= 0 {
                (pre, rendered(Ok(pre.keys[key_position(pre.keys, id)])))
            } else {
                (pre, rendered(Err(PluginErrorView::NotFound)))
            },
        }
    } else if command == "list_keys"@ {
        (pre, CommandResultView::done(payload(keys_json(matching_keys(pre.keys, params)))))
    } else {
        (pre, CommandResultView::failed("未知命令: "@ + command))
    }
}

/// The key that a `create_key` command asks for.
#[derive(Debug)]
pub struct CreateKeyRequest {
    pub name: String,
    pub description: String,
    pub key_type: KeyType,
    pub algorithm: KeyAlgorithm,
    pub owner: String,
    pub requires_approval: bool,
    pub tags: TextMap,
}

impl View for CreateKeyRequest {
    type V = KeyRequest;

    open spec fn view(&self) -> KeyRequest {
        KeyRequest {
            name: self.name@,
            description: self.description@,
            key_type: self.key_type,
            algorithm: self.algorithm,
            owner: self.owner@,
            requires_approval: self.requires_approval,
            tags: Some(self.tags@),
            expiration_date: None,
        }
    }
}

/// The view of a request read from parameters, or of the reason why there
/// is none.
pub open spec fn request_result_view(r: Result<CreateKeyRequest, PluginError>) -> Result<
    KeyRequest,
    PluginErrorView,
> {
    match r {
        Ok(request) => Ok(request@),
        Err(reason) => Err(reason@),
    }
}

/// Whether a text that was put in lower case reads `true`.
pub fn reads_true(lowered: &str) -> (r: bool)
    ensures
        r == (lowered@ == "true"@),
{
    same_text(lowered, "true")
}

/// The parameter `key`, or `default` where it is missing.
pub fn parameter_or(params: &TextMap, key: &str, default: &str) -> (r: String)
    ensures
        r@ == lookup_or(params@, key@, default@),
{
    match params.get(key) {
        Some(v) => v.clone(),
        None => owned(default),
    }
}

/// The tags among the parameters of a command.
pub fn tags_of(params: &TextMap) -> (r: TextMap)
    ensures
        r@ == collect_tags(params@),
{
    let mut tags = TextMap::new();
    let mut i: usize = 0;
    assert(params@.take(0) =~= Seq::empty());
    while i < params.len()
        invariant
            i <= params@.len(),
            tags@ == collect_tags(params@.take(i as int)),
        decreases params@.len() - i,
    {
        proof {
            assert(params@.take(i + 1).drop_last() =~= params@.take(i as int));
            assert(params@.take(i + 1).last() == params@[i as int]);
        }
        match strip_prefix(params.key_at(i).as_str(), "tag.") {
            Some(tag) => {
                tags.insert(owned(tag), params.value_at(i).clone());
            },
            None => {},
        }
        i += 1;
    }
    assert(params@.take(i as int) =~= params@);
    tags
}

/// Reads the key that the parameters of `create_key` ask for.
pub fn create_request(params: &TextMap) -> (r: Result<CreateKeyRequest, PluginError>)
    ensures
        request_result_view(r) == create_request_of(params@),
{
    let name = match params.get("name") {
        Some(name) => name.clone(),
        None => {
            return Err(PluginError::Validation(owned("Missing parameter: name")));
        },
    };
    let type_label = parameter_or(params, "key_type", "SYMMETRIC");
    let key_type = match KeyType::from_label(type_label.as_str()) {
        Some(t) => t,
        None => {
            return Err(PluginError::Validation(concat2("Invalid key type: ", type_label.as_str())));
        },
    };
    let algorithm_label = parameter_or(params, "algorithm", "AES-256");
    let algorithm = match KeyAlgorithm::from_label(algorithm_label.as_str()) {
        Some(a) => a,
        None => {
            return Err(PluginError::Validation(concat2("Invalid algorithm: ", algorithm_label.as_str())));
        },
    };
    let requires_approval = match params.get("requires_approval") {
        Some(v) => reads_true(to_lowercase(v.as_str()).as_str()),
        None => false,
    };
    Ok(
        CreateKeyRequest {
            name,
            description: parameter_or(params, "description", ""),
            key_type,
            algorithm,
            owner: parameter_or(params, "user", "system"),
            requires_approval,
            tags: tags_of(params),
        },
    )
}

/// Turns the outcome of an operation on one key into a command's result.
pub fn render(outcome: Result<KeyMetadata, PluginError>) -> (r: CommandResult)
    ensures
        r@ == rendered(outcome_view(outcome)),
{
    match outcome {
        Ok(m) => match write_key(&m) {
            Some(text) => CommandResult::done(text),
            None => CommandResult::done(String::new()),
        },
        Err(e) => CommandResult::failed(e.message()),
    }
}

/// A text of the shape of a hyphenated identifier.
pub open spec fn some_identifier() -> Seq<char> {
    Seq::new(36, |i: int| '-')
}

impl<S: SecurityModuleInterface> KeyManagementPlugin<S> {
    /// Carries out the command `command` with the parameters `params`:
    /// `create_key`, `rotate_key`, `get_key` or `list_keys`. Any other
    /// command fails, and the reason names it; so does a command that lacks
    /// a parameter it needs. `list_keys` takes its parameters as filters.
    /// The result holds the key, or the keys, as JSON, or the reason for the
    /// failure.
    pub fn execute_command(&mut self, command: &str, params: &TextMap) -> (r: CommandResult)
        ensures
            exists|
                key_id: Seq<char>,
                now: i64,
                entry_id: Seq<char>,
                entry_time: i64,
                operation_id: Seq<char>,
                provisioned: Result<(), Seq<char>>,
            |
                {
                    &&& hyphenated(key_id)
                    &&& hyphenated(entry_id)
                    &&& hyphenated(operation_id)
                    &&& old(self).module().dependable() ==> provisioned.is_ok()
                    &&& (final(self)@, r@) == #[trigger] command_effect(
                        old(self)@,
                        command@,
                        params@,
                        key_id,
                        now,
                        entry_id,
                        entry_time,
                        operation_id,
                        provisioned,
                    )
                },
            old(self)@.well_formed() ==> final(self)@.well_formed(),
            final(self).module() == old(self).module(),
            final(self).life_cycle() == old(self).life_cycle(),
    {
        let ghost any = some_identifier();
        let ghost fine: Result<(), Seq<char>> = Ok(());
        if same_text(command, "create_key") {
            match create_request(params) {
                Err(reason) => {
                    let r = CommandResult::failed(reason.message());
                    assert((self@, r@) == command_effect(
                        old(self)@,
                        command@,
                        params@,
                        any,
                        0,
                        any,
                        0,
                        any,
                        fine,
                    ));
                    r
                },
                Ok(request) => {
                    let ghost wanted = request@;
                    let outcome = self.create_key(
                        request.name,
                        request.description,
                        request.key_type,
                        request.algorithm,
                        request.owner,
                        request.requires_approval,
                        Some(request.tags),
                        None,
                    );
                    let ghost w = choose|
                        key_id: Seq<char>,
                        now: i64,
                        entry_id: Seq<char>,
                        entry_time: i64,
                        provisioned: Result<(), Seq<char>>,
                    |
                        {
                            &&& hyphenated(key_id)
                            &&& hyphenated(entry_id)
                            &&& old(self).module().dependable() ==> provisioned.is_ok()
                            &&& (self@, outcome_view(outcome)) == #[trigger] create_effect(
                                old(self)@,
                                wanted,
                                key_id,
                                now,
                                entry_id,
                                entry_time,
                                provisioned,
                            )
                        };
                    let r = render(outcome);
                    assert((self@, r@) == command_effect(
                        old(self)@,
                        command@,
                        params@,
                        w.0,
                        w.1,
                        w.2,
                        w.3,
                        any,
                        w.4,
                    ));
                    r
                },
            }
        } else if same_text(command, "rotate_key") {
            match params.get("key_id") {
                None => {
                    let r = CommandResult::failed(owned("Missing parameter: key_id"));
                    assert((self@, r@) == command_effect(
                        old(self)@,
                        command@,
                        params@,
                        any,
                        0,
                        any,
                        0,
                        any,
                        fine,
                    ));
                    r
                },
                Some(key_id) => {
                    let user = parameter_or(params, "user", "system");
                    let outcome = self.rotate_key(key_id.as_str(), user.as_str());
                    let ghost w = choose|
                        now: i64,
                        entry_id: Seq<char>,
                        entry_time: i64,
                        operation_id: Seq<char>,
                        provisioned: Result<(), Seq<char>>,
                    |
                        {
                            &&& hyphenated(entry_id)
                            &&& hyphenated(operation_id)
                            &&& old(self).module().dependable() ==> provisioned.is_ok()
                            &&& (self@, outcome_view(outcome)) == #[trigger] rotate_effect(
                                old(self)@,
                                key_id@,
                                user@,
                                now,
                                entry_id,
                                entry_time,
                                operation_id,
                                provisioned,
                            )
                        };
                    let r = render(outcome);
                    assert((self@, r@) == command_effect(
                        old(self)@,
                        command@,
                        params@,
                        any,
                        w.0,
                        w.1,
                        w.2,
                        w.3,
                        w.4,
                    ));
                    r
                },
            }
        } else if same_text(command, "get_key") {
            let r = match params.get("key_id") {
                None => CommandResult::failed(owned("Missing parameter: key_id")),
                Some(key_id) => render(self.get_key(key_id.as_str())),
            };
            assert((self@, r@) == command_effect(
                old(self)@,
                command@,
                params@,
                any,
                0,
                any,
                0,
                any,
                fine,
            ));
            r
        } else if same_text(command, "list_keys") {
            let listed = self.list_keys(Some(params));
            let r = match write_keys(&listed) {
                Some(text) => CommandResult::done(text),
                None => CommandResult::done(String::new()),
            };
            assert((self@, r@) == command_effect(
                old(self)@,
                command@,
                params@,
                any,
                0,
                any,
                0,
                any,
                fine,
            ));
            r
        } else {
            let r = CommandResult::failed(concat2("未知命令: ", command));
            assert((self@, r@) == command_effect(
                old(self)@,
                command@,
                params@,
                any,
                0,
                any,
                0,
                any,
                fine,
            ));
            r
        }
    }

    /// Answers a message: the answer says that the message arrived and
    /// repeats it.
    pub fn handle_message(&self, message: &str) -> (r: String)
        ensures
            r@ == "收到消息: "@ + message@,
    {
        concat2("收到消息: ", message)
    }
}

} // verus!
