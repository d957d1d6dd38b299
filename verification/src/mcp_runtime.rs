//! The servers that offer tools: which are known, which are connected, and what their tools
//! answer.
use vstd::prelude::*;

use crate::config::{McpServerConfig, McpServerConfigModel};
use crate::data;
use crate::data::Duplicate;
use crate::json;
use crate::mcp;
use crate::mcp::McpDiscoveredTool;
use crate::text;
use crate::text_map::TextMap;
use crate::types::{ToolCall, ToolResult, ToolStatus};

verus! {

/// What is known of a server: how it is started, the connection to it, its tools, and what went
/// wrong last.
#[derive(Debug)]
pub struct McpServerState<C> {
    pub config: McpServerConfig,
    pub client: Option<C>,
    pub tools: Vec<McpDiscoveredTool>,
    pub last_error: Option<String>,
}

/// The servers that are known, by their normal names.
#[derive(Debug)]
pub struct McpRuntimeManager<C> {
    pub default_cwd: String,
    pub servers: TextMap<McpServerState<C>>,
}

/// How a server is started, under its normal name.
pub open spec fn under_normal_name(config: McpServerConfigModel) -> McpServerConfigModel {
    McpServerConfigModel { id: mcp::normal_id(config.id), ..config }
}

/// The servers that are known when these are set up, one after the other: of two with the same
/// normal name, the later one.
pub open spec fn set_up(configs: Seq<McpServerConfigModel>) -> Map<Seq<char>, McpServerConfigModel>
    decreases configs.len(),
{
    if configs.len() == 0 {
        Map::empty()
    } else {
        let config = under_normal_name(configs.last());
        set_up(configs.drop_last()).insert(config.id, config)
    }
}

/// How the servers are started.
pub open spec fn configs_of<C>(servers: Map<Seq<char>, McpServerState<C>>) -> Map<
    Seq<char>,
    McpServerConfigModel,
> {
    servers.map_values(|state: McpServerState<C>| state.config.deep_view())
}

/// Whether nothing has happened with a server yet.
pub open spec fn is_fresh<C>(state: McpServerState<C>) -> bool {
    state.client is None && state.tools@.len() == 0 && state.last_error is None
}

/// Why a server could not be used.
#[derive(Debug, Clone, PartialEq, Eq)]
pub struct McpError {
    pub message: String,
}

/// Whether `error` says that the server is not known.
pub open spec fn is_unknown(error: McpError, server_id: Seq<char>) -> bool {
    error.message@ == "unknown MCP server `"@ + server_id + "`"@
}

/// The error for a server that is not known.
fn unknown_server(server_id: &str) -> (res: McpError)
    ensures
        is_unknown(res, server_id@),
{
    McpError { message: text::concat3("unknown MCP server `", server_id, "`") }
}

/// How a connection that was made is used.
pub enum Installed<C> {
    /// It is the connection to the server now.
    Used,
    /// The server was connected meanwhile: the new connection is closed again.
    Duplicate(C),
}

impl<C> McpRuntimeManager<C> {
    /// Sets up these servers.
    pub fn with_factory(servers: Vec<McpServerConfig>, default_cwd: String) -> (res: Self)
        ensures
            res.default_cwd == default_cwd,
            configs_of(res.servers@) == set_up(servers.deep_view()),
            forall|id: Seq<char>| #[trigger]
                res.servers@.contains_key(id) ==> is_fresh(res.servers@[id]),
    {
        let mut known: TextMap<McpServerState<C>> = TextMap::new();
        proof {
            assert(servers.deep_view().take(0) =~= Seq::empty());
            assert(configs_of(known@) =~= set_up(servers.deep_view().take(0)));
        }
        for i in 0..servers.len()
            invariant
                configs_of(known@) == set_up(servers.deep_view().take(i as int)),
                forall|id: Seq<char>| #[trigger]
                    known@.contains_key(id) ==> is_fresh(known@[id]),
        {
            let ghost before = known@;
            let mut config = servers[i].duplicate();
            config.id = McpServerConfig::normalized_id(config.id.as_str());
            let id = config.id.clone();
            let state: McpServerState<C> = McpServerState {
                config,
                client: None,
                tools: Vec::new(),
                last_error: None,
            };
            known.insert(id, state);
            proof {
                let next = servers.deep_view().take(i + 1);
                assert(next.drop_last() =~= servers.deep_view().take(i as int));
                assert(next.last() == servers@[i as int].deep_view());
                assert(state.config.deep_view() == under_normal_name(next.last()));
                assert(configs_of(known@) =~= configs_of(before).insert(
                    id@,
                    state.config.deep_view(),
                ));
            }
        }
        proof {
            assert(servers.deep_view().take(servers@.len() as int) =~= servers.deep_view());
        }
        McpRuntimeManager { default_cwd, servers: known }
    }

    /// The connection to a server, which must be connected.
    pub fn connected(&self, server_id: &str) -> (res: Result<&C, McpError>)
        ensures
            ({
                let id = mcp::normal_id(server_id@);
                match res {
                    Ok(client) => {
                        &&& self.servers@.contains_key(id)
                        &&& self.servers@[id].client == Some(*client)
                    },
                    Err(error) => {
                        &&& self.servers@.contains_key(id) ==> self.servers@[id].client is None
                        &&& error.message@ == "MCP server `"@ + id + "` is not connected"@
                    },
                }
            }),
    {
        let id = McpServerConfig::normalized_id(server_id);
        if let Some(state) = self.servers.get(&id) {
            if let Some(client) = &state.client {
                return Ok(client);
            }
        }
        Err(
            McpError {
                message: text::concat3("MCP server `", id.as_str(), "` is not connected"),
            },
        )
    }

    /// What is known of a server.
    pub fn state_of(&self, server_id: &String) -> (res: Result<&McpServerState<C>, McpError>)
        ensures
            match res {
                Ok(state) => self.servers@.contains_key(server_id@) && self.servers@[server_id@]
                    == *state,
                Err(error) => !self.servers@.contains_key(server_id@) && is_unknown(
                    error,
                    server_id@,
                ),
            },
    {
        match self.servers.get(server_id) {
            Some(state) => Ok(state),
            None => Err(unknown_server(server_id.as_str())),
        }
    }

    /// Takes a connection that was made to a server into use, unless it is connected already.
    pub fn install_client(&mut self, server_id: String, client: C) -> (res: Result<
        Installed<C>,
        McpError,
    >)
        ensures
            match res {
                Ok(Installed::Used) => {
                    &&& old(self).servers@.contains_key(server_id@)
                    &&& old(self).servers@[server_id@].client is None
                    &&& final(self).servers@ == old(self).servers@.insert(
                        server_id@,
                        McpServerState {
                            client: Some(client),
                            ..old(self).servers@[server_id@]
                        },
                    )
                },
                Ok(Installed::Duplicate(spare)) => {
                    &&& old(self).servers@.contains_key(server_id@)
                    &&& old(self).servers@[server_id@].client is Some
                    &&& spare == client
                    &&& final(self).servers@ == old(self).servers@
                },
                Err(error) => {
                    &&& !old(self).servers@.contains_key(server_id@)
                    &&& is_unknown(error, server_id@)
                    &&& final(self).servers@ == old(self).servers@
                },
            },
            final(self).default_cwd == old(self).default_cwd,
    {
        let mut state = match self.servers.remove(&server_id) {
            Some(state) => state,
            None => {
                proof {
                    assert(self.servers@ =~= old(self).servers@);
                }
                return Err(unknown_server(server_id.as_str()));
            },
        };
        if state.client.is_some() {
            self.servers.insert(server_id, state);
            proof {
                assert(self.servers@ =~= old(self).servers@);
            }
            return Ok(Installed::Duplicate(client));
        }
        state.client = Some(client);
        self.servers.insert(server_id, state);
        proof {
            assert(self.servers@ =~= old(self).servers@.insert(server_id@, state));
        }
        Ok(Installed::Used)
    }

    /// Remembers the tools of a server, and that nothing went wrong.
    pub fn record_tools(&mut self, server_id: String, tools: Vec<McpDiscoveredTool>)
        ensures
            final(self).servers@ == if old(self).servers@.contains_key(server_id@) {
                old(self).servers@.insert(
                    server_id@,
                    McpServerState { tools, last_error: None, ..old(self).servers@[server_id@] },
                )
            } else {
                old(self).servers@
            },
            final(self).default_cwd == old(self).default_cwd,
    {
        if let Some(mut state) = self.servers.remove(&server_id) {
            state.tools = tools;
            state.last_error = None;
            self.servers.insert(server_id, state);
            proof {
                assert(self.servers@ =~= old(self).servers@.insert(server_id@, state));
            }
        } else {
            proof {
                assert(self.servers@ =~= old(self).servers@);
            }
        }
    }

    /// Remembers what went wrong with a server.
    pub fn record_refresh_error(&mut self, server_id: String, message: String)
        ensures
            final(self).servers@ == if old(self).servers@.contains_key(server_id@) {
                old(self).servers@.insert(
                    server_id@,
                    McpServerState {
                        last_error: Some(message),
                        ..old(self).servers@[server_id@]
                    },
                )
            } else {
                old(self).servers@
            },
            final(self).default_cwd == old(self).default_cwd,
    {
        if let Some(mut state) = self.servers.remove(&server_id) {
            state.last_error = Some(message);
            self.servers.insert(server_id, state);
            proof {
                assert(self.servers@ =~= old(self).servers@.insert(server_id@, state));
            }
        } else {
            proof {
                assert(self.servers@ =~= old(self).servers@);
            }
        }
    }

    /// Gives up the connection to a server, if there is one.
    pub fn disconnect(&mut self, server_id: String) -> (res: Option<C>)
        ensures
            if old(self).servers@.contains_key(server_id@) {
                &&& res == old(self).servers@[server_id@].client
                &&& final(self).servers@ == old(self).servers@.insert(
                    server_id@,
                    McpServerState { client: None, ..old(self).servers@[server_id@] },
                )
            } else {
                res is None && final(self).servers@ == old(self).servers@
            },
            final(self).default_cwd == old(self).default_cwd,
    {
        match self.servers.remove(&server_id) {
            Some(state) => {
                let McpServerState { config, client, tools, last_error } = state;
                let state: McpServerState<C> = McpServerState {
                    config,
                    client: None,
                    tools,
                    last_error,
                };
                self.servers.insert(server_id, state);
                proof {
                    assert(self.servers@ =~= old(self).servers@.insert(server_id@, state));
                }
                client
            },
            None => {
                proof {
                    assert(self.servers@ =~= old(self).servers@);
                }
                None
            },
        }
    }
}

/// The command that starts a server, which must not be blank.
pub fn server_command(server: &McpServerConfig) -> (res: Result<&str, McpError>)
    ensures
        ({
            let command = text::trim_of(server.command@);
            match res {
                Ok(given) => command.len() > 0 && given@ == command,
                Err(error) => command.len() == 0 && error.message@ == "MCP server `"@ + server.id@
                    + "` command is empty"@,
            }
        }),
{
    let command = text::trim(server.command.as_str());
    if command.unicode_len() == 0 {
        return Err(
            McpError {
                message: text::concat3("MCP server `", server.id.as_str(), "` command is empty"),
            },
        );
    }
    Ok(command)
}

/// The directory that a server is started in: its own, or else that of the thread.
pub fn server_directory<'a>(server: &'a McpServerConfig, default_cwd: &'a str) -> (res: &'a str)
    ensures
        res@ == match server.working_directory {
            Some(directory) => directory@,
            None => default_cwd@,
        },
{
    match &server.working_directory {
        Some(directory) => directory.as_str(),
        None => default_cwd,
    }
}

/// Whether a text holds the JSON value null.
pub open spec fn is_null(value: Seq<char>) -> bool {
    json::compact_of(value) == Some("null"@)
}

/// The arguments of a call, from what they hold: `is_object` tells whether that is an object, and
/// `value` is the JSON value that they hold, if any.
pub fn arguments_from<'a>(
    arguments: &'a str,
    is_object: bool,
    value: Option<String>,
) -> (res: Result<Option<&'a str>, McpError>)
    ensures
        match res {
            Ok(Some(object)) => is_object && object@ == arguments@,
            Ok(None) => !is_object && value.deep_view() == Some("null"@),
            Err(error) => {
                &&& !is_object
                &&& value.deep_view() != Some("null"@)
                &&& error.message@ == "MCP tool arguments must be a JSON object or null, got "@
                    + match value {
                    Some(value) => value@,
                    None => arguments@,
                }
            },
        },
{
    if is_object {
        return Ok(Some(arguments));
    }
    let given = match value {
        Some(value) => {
            if text::same(value.as_str(), "null") {
                return Ok(None);
            }
            value
        },
        None => arguments.to_owned(),
    };
    Err(
        McpError {
            message: text::concat2(
                "MCP tool arguments must be a JSON object or null, got ",
                given.as_str(),
            ),
        },
    )
}

/// The arguments of a call, as JSON: an object, or none for null.
pub fn call_arguments(arguments: &str) -> (res: Result<Option<&str>, McpError>)
    ensures
        match res {
            Ok(Some(object)) => json::fields_of(arguments@) is Some && object@ == arguments@,
            Ok(None) => json::fields_of(arguments@) is None && is_null(arguments@),
            Err(error) => {
                &&& json::fields_of(arguments@) is None
                &&& !is_null(arguments@)
                &&& error.message@ == "MCP tool arguments must be a JSON object or null, got "@
                    + match json::compact_of(arguments@) {
                    Some(value) => value,
                    None => arguments@,
                }
            },
        },
{
    arguments_from(arguments, json::fields(arguments).is_some(), json::compact(arguments))
}

/// What the string says that is the value of the field `name` in a JSON object, if there is one.
pub open spec fn text_in(item: Seq<char>, name: Seq<char>) -> Option<Seq<char>> {
    match json::member_of(item, name) {
        Some(value) => json::string_in(value),
        None => None,
    }
}

/// Computes `text_in`.
fn find_text(item: &str, name: &str) -> (res: Option<String>)
    ensures
        res.deep_view() == text_in(item@, name@),
{
    match json::member(item, name) {
        Some(value) => json::string(value.as_str()),
        None => None,
    }
}

/// A JSON value as it is written.
pub fn json_to_string(value: &str) -> (res: String)
    ensures
        res@ == json::written_of(value@),
{
    json::written(value)
}

/// What is shown of a resource with this text and at this place: its text, or else where it is, or
/// else all of it.
pub open spec fn resource_shown(
    text: Option<Seq<char>>,
    uri: Option<Seq<char>>,
    whole: Seq<char>,
) -> Seq<char> {
    match (text, uri) {
        (Some(text), _) => text,
        (None, Some(uri)) => "[resource: "@ + uri + "]"@,
        (None, None) => whole,
    }
}

/// Computes `resource_shown`.
pub fn show_resource(text: Option<String>, uri: Option<String>, whole: String) -> (res: String)
    ensures
        res@ == resource_shown(text.deep_view(), uri.deep_view(), whole@),
{
    match (text, uri) {
        (Some(text), _) => text,
        (None, Some(uri)) => text::concat3("[resource: ", uri.as_str(), "]"),
        (None, None) => whole,
    }
}

/// What the string says that is the value of the field `name` in the resource of a JSON object, if
/// there is one.
pub open spec fn resource_field(item: Seq<char>, name: Seq<char>) -> Option<Seq<char>> {
    match json::member_of(item, "resource"@) {
        Some(resource) => text_in(resource, name),
        None => None,
    }
}

/// What is shown of the resource that a JSON value holds.
pub open spec fn resource_text(item: Seq<char>) -> Seq<char> {
    resource_shown(
        resource_field(item, "text"@),
        resource_field(item, "uri"@),
        json::written_of(item),
    )
}

/// Computes `resource_text`.
pub fn resource_content_to_text(item: &str) -> (res: String)
    ensures
        res@ == resource_text(item@),
{
    let (text, uri) = match json::member(item, "resource") {
        Some(resource) => (
            find_text(resource.as_str(), "text"),
            find_text(resource.as_str(), "uri"),
        ),
        None => (None, None),
    };
    show_resource(text, uri, json_to_string(item))
}

/// The kind of an image: what its first mark says, of the two that it may have, where that is a
/// string.
pub open spec fn image_kind(item: Seq<char>) -> Seq<char> {
    let mark = if json::member_of(item, "mimeType"@) is Some {
        json::member_of(item, "mimeType"@)
    } else {
        json::member_of(item, "mime"@)
    };
    match mark {
        Some(value) => match json::string_in(value) {
            Some(kind) => kind,
            None => "unknown"@,
        },
        None => "unknown"@,
    }
}

/// Computes `image_kind`.
fn image_mime(item: &str) -> (res: String)
    ensures
        res@ == image_kind(item@),
{
    let mark = match json::member(item, "mimeType") {
        Some(mark) => Some(mark),
        None => json::member(item, "mime"),
    };
    if let Some(value) = mark {
        if let Some(kind) = json::string(value.as_str()) {
            return kind;
        }
    }
    "unknown".to_owned()
}

/// What is shown of one thing that a tool answered, by its kind: its text, a resource, the kind of
/// an image, or all of it.
pub open spec fn item_shown(
    kind: Option<Seq<char>>,
    text: Option<Seq<char>>,
    resource: Seq<char>,
    image: Seq<char>,
    whole: Seq<char>,
) -> Seq<char> {
    if kind == Some("text"@) {
        match text {
            Some(text) => text,
            None => whole,
        }
    } else if kind == Some("resource"@) {
        resource
    } else if kind == Some("image"@) {
        "[image: "@ + image + "]"@
    } else {
        whole
    }
}

/// Computes `item_shown`.
pub fn show_item(
    kind: Option<String>,
    text: Option<String>,
    resource: String,
    image: String,
    whole: String,
) -> (res: String)
    ensures
        res@ == item_shown(kind.deep_view(), text.deep_view(), resource@, image@, whole@),
{
    let kind = match kind {
        Some(kind) => kind,
        None => return whole,
    };
    if text::same(kind.as_str(), "text") {
        match text {
            Some(text) => text,
            None => whole,
        }
    } else if text::same(kind.as_str(), "resource") {
        resource
    } else if text::same(kind.as_str(), "image") {
        text::concat3("[image: ", image.as_str(), "]")
    } else {
        whole
    }
}

/// What is shown of the thing that a JSON value holds.
pub open spec fn item_text(item: Seq<char>) -> Seq<char> {
    item_shown(
        text_in(item, "type"@),
        text_in(item, "text"@),
        resource_text(item),
        image_kind(item),
        json::written_of(item),
    )
}

/// Computes `item_text`.
pub fn mcp_content_item_to_text(item: &str) -> (res: String)
    ensures
        res@ == item_text(item@),
{
    show_item(
        find_text(item, "type"),
        find_text(item, "text"),
        resource_content_to_text(item),
        image_mime(item),
        json_to_string(item),
    )
}

/// What is shown of each thing that a tool answered.
pub open spec fn item_texts(content: Seq<Seq<char>>) -> Seq<Seq<char>> {
    content.map_values(|item: Seq<char>| item_text(item))
}

/// What is shown of what a tool answered.
pub open spec fn content_text(content: Seq<Seq<char>>) -> Seq<char> {
    if content.len() == 0 {
        "[MCP tool returned no content]"@
    } else {
        text::join_of(item_texts(content), "\n\n"@)
    }
}

/// Computes `content_text`.
pub fn mcp_content_to_text(content: &Vec<String>) -> (res: String)
    ensures
        res@ == content_text(content.deep_view()),
{
    proof {
        assert(content.deep_view().len() == content@.len());
    }
    if content.len() == 0 {
        return "[MCP tool returned no content]".to_owned();
    }
    let ghost all = item_texts(content.deep_view());
    let mut texts: Vec<String> = Vec::new();
    for i in 0..content.len()
        invariant
            all == item_texts(content.deep_view()),
            content.deep_view().len() == content@.len(),
            texts.deep_view() =~= all.take(i as int),
    {
        data::append(&mut texts, mcp_content_item_to_text(content[i].as_str()));
        proof {
            assert(content.deep_view()[i as int] == content@[i as int]@);
            assert(texts.deep_view() =~= all.take(i + 1));
        }
    }
    proof {
        assert(text::texts_of(texts@) =~= texts.deep_view());
        assert(all.take(content@.len() as int) =~= all);
    }
    text::join(&texts, "\n\n")
}

/// What a tool answered. The content and the rest are JSON.
#[derive(Debug, Clone, PartialEq, Eq)]
pub struct McpCallOutput {
    pub content: Vec<String>,
    pub is_error: bool,
    pub meta: Option<String>,
}

/// The result of a call, from what the tool answered, or from what went wrong.
pub fn call_result(call: ToolCall, answer: Result<McpCallOutput, String>) -> (res: ToolResult)
    ensures
        res.tool_call_id == call.id,
        res.tool_name == call.name,
        match answer {
            Ok(output) => {
                &&& res.status == if output.is_error {
                    ToolStatus::Error
                } else {
                    ToolStatus::Success
                }
                &&& res.content@ == content_text(output.content.deep_view())
                &&& res.meta == output.meta
            },
            Err(failure) => {
                &&& res.status == ToolStatus::Error
                &&& res.content@ == "MCP tool call failed: "@ + failure@
                &&& res.meta is None
            },
        },
        res.status is Success <==> answer is Ok && !answer->Ok_0.is_error,
        answer is Err ==> res.meta is None,
{
    match answer {
        Ok(output) => ToolResult {
            tool_call_id: call.id,
            tool_name: call.name,
            status: if output.is_error {
                ToolStatus::Error
            } else {
                ToolStatus::Success
            },
            content: mcp_content_to_text(&output.content),
            meta: output.meta,
        },
        Err(failure) => ToolResult {
            tool_call_id: call.id,
            tool_name: call.name,
            status: ToolStatus::Error,
            content: text::concat2("MCP tool call failed: ", failure.as_str()),
            meta: None,
        },
    }
}

} // verus!
