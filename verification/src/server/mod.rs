//! The dispatch engine: the state of the handshake, the registry of
//! providers, and the routing of every message to its answer.

pub mod anki_tools;
pub mod capabilities;
pub mod deck_fetch;
pub mod registry;
pub mod resources;
pub mod tools;

use crate::json::{members_view, no_members, JsonValue, JsonView, Members};
use crate::protocol::errors::{
    invalid_params_error, method_not_found_error, not_initialized_error, opt_view,
    resource_not_found_error, resource_read_failed_error, tool_not_found_error, ErrorView,
    McpError, INTERNAL_ERROR,
};
use crate::protocol::messages::{
    JsonRpcError, JsonRpcMessage, MessageView, Notification, Request, RequestId,
    RequestView, Response, ResponseView,
};
use crate::protocol::payloads::{
    call_tool_result_json, contents_view, initialize_result_json, json_call_tool,
    json_initialize, json_read_resource, list_resources_json, list_tools_json,
    read_resource_json, resources_view, tools_view, CallToolRequest, CallToolResult,
    CallToolResultView, ContentView, InitializeRequest, InitializeResult, InitializeResultView,
    ListResourcesResult, ListToolsResult, ReadResourceRequest, ReadResourceResult,
    ResourceContent, ResourceContentView, ResourceView, ResourcesCapability, ServerCapabilities,
    ServerInfo, ToolView, ToolsCapability,
};
use crate::protocol::MCP_VERSION;
use crate::server::capabilities::{Resource, Tool};
use crate::server::registry::{
    distinct_keys, lemma_position, spec_keys, spec_position, spec_provider, spec_register,
    Registry,
};
use crate::text::same_text;
use vstd::prelude::*;

verus! {

/// The name under which the server introduces itself.
pub const SERVER_NAME: &'static str = "ankiconnect-mcp";

/// The version under which the server introduces itself.
pub const SERVER_VERSION: &'static str = "0.1.0";

/// What the server answers to every successful handshake.
pub open spec fn server_handshake() -> InitializeResultView {
    InitializeResultView {
        protocol_version: MCP_VERSION@,
        capabilities: ServerCapabilities {
            resources: Some(
                ResourcesCapability { subscribe: Some(false), list_changed: Some(false) },
            ),
            tools: Some(ToolsCapability { list_changed: Some(false) }),
        },
        server_name: SERVER_NAME@,
        server_version: SERVER_VERSION@,
    }
}

/// Whether `method` is one of the four built-in methods that need the
/// handshake to have happened.
pub open spec fn is_capability_method(method: Seq<char>) -> bool {
    ||| method == "tools/list"@
    ||| method == "tools/call"@
    ||| method == "resources/list"@
    ||| method == "resources/read"@
}

/// Whether `params` are accepted as the parameters of `initialize`.
pub open spec fn initialize_accepts(params: Option<JsonView>) -> bool {
    params matches Some(p) && json_initialize(p) is Some
}

/// What `initialize` answers.
pub open spec fn initialize_outcome(params: Option<JsonView>) -> Result<JsonView, ErrorView> {
    if initialize_accepts(params) {
        Ok(initialize_result_json(server_handshake()))
    } else {
        Err(invalid_params_error())
    }
}

/// Each descriptor carries the key of the entry it describes.
pub open spec fn tools_named(tools: Seq<ToolView>, names: Seq<Seq<char>>) -> bool {
    &&& tools.len() == names.len()
    &&& forall|i: int| 0 <= i < tools.len() ==> (#[trigger] tools[i]).name == names[i]
}

/// Each descriptor carries the key of the entry it describes.
pub open spec fn resources_named(resources: Seq<ResourceView>, uris: Seq<Seq<char>>) -> bool {
    &&& resources.len() == uris.len()
    &&& forall|i: int| 0 <= i < resources.len() ==> (#[trigger] resources[i]).uri == uris[i]
}

/// What `tools/list` may answer: before the handshake the one error, after
/// it the list of one descriptor for each registered tool, in the order of
/// the registry, as the providers gave them.
pub open spec fn list_tools_outcome(
    initialized: bool,
    names: Seq<Seq<char>>,
    outcome: Result<JsonView, ErrorView>,
) -> bool {
    if !initialized {
        outcome == Err::<JsonView, ErrorView>(not_initialized_error())
    } else {
        exists|tools: Seq<ToolView>| #[trigger]
            tools_named(tools, names) && outcome == Ok::<JsonView, ErrorView>(
                list_tools_json(tools),
            )
    }
}

/// What `resources/list` may answer.
pub open spec fn list_resources_outcome(
    initialized: bool,
    uris: Seq<Seq<char>>,
    outcome: Result<JsonView, ErrorView>,
) -> bool {
    if !initialized {
        outcome == Err::<JsonView, ErrorView>(not_initialized_error())
    } else {
        exists|resources: Seq<ResourceView>| #[trigger]
            resources_named(resources, uris) && outcome == Ok::<JsonView, ErrorView>(
                list_resources_json(resources),
            )
    }
}

/// Where a call of `tools/call` goes: to the place of a registered tool,
/// with the arguments for it, or to an error.
pub open spec fn call_tool_plan<P>(
    initialized: bool,
    tools: Seq<(Seq<char>, P)>,
    params: Option<JsonView>,
) -> Result<(int, Members), ErrorView> {
    if !initialized {
        Err(not_initialized_error())
    } else {
        match params {
            None => Err(invalid_params_error()),
            Some(p) => match json_call_tool(p) {
                None => Err(invalid_params_error()),
                Some(request) => match spec_position(tools, request.name) {
                    None => Err(tool_not_found_error(request.name)),
                    Some(i) => Ok(
                        (
                            i,
                            match request.arguments {
                                Some(arguments) => arguments,
                                None => Seq::empty(),
                            },
                        ),
                    ),
                },
            },
        }
    }
}

/// Where a call of `resources/read` goes: to the place of a registered
/// resource, or to an error.
pub open spec fn read_resource_plan<P>(
    initialized: bool,
    resources: Seq<(Seq<char>, P)>,
    params: Option<JsonView>,
) -> Result<int, ErrorView> {
    if !initialized {
        Err(not_initialized_error())
    } else {
        match params {
            None => Err(invalid_params_error()),
            Some(p) => match json_read_resource(p) {
                None => Err(invalid_params_error()),
                Some(uri) => match spec_position(resources, uri) {
                    None => Err(resource_not_found_error(uri)),
                    Some(i) => Ok(i),
                },
            },
        }
    }
}

/// The result that stands for what a tool handed back.  A failure of the
/// tool is no failure of the protocol: its text becomes the content of a
/// result that is flagged as an error.
pub open spec fn call_tool_reply_view(
    outcome: Result<CallToolResultView, Seq<char>>,
) -> CallToolResultView {
    match outcome {
        Ok(result) => result,
        Err(failure) => CallToolResultView {
            content: seq![ContentView::Text { text: failure }],
            is_error: Some(true),
        },
    }
}

/// The answer that stands for what a resource handed back.  A failure of
/// the resource is a failure of the protocol.
pub open spec fn read_resource_reply_view(
    outcome: Result<Seq<ResourceContentView>, Seq<char>>,
) -> Result<JsonView, ErrorView> {
    match outcome {
        Ok(contents) => Ok(read_resource_json(contents)),
        Err(failure) => Err(resource_read_failed_error(failure)),
    }
}

/// What `tools/call` may answer.
pub open spec fn call_tool_outcome<P>(
    initialized: bool,
    tools: Seq<(Seq<char>, P)>,
    params: Option<JsonView>,
    outcome: Result<JsonView, ErrorView>,
) -> bool {
    match call_tool_plan(initialized, tools, params) {
        Err(e) => outcome == Err::<JsonView, ErrorView>(e),
        Ok(_) => exists|handed: Result<CallToolResultView, Seq<char>>|
            outcome == Ok::<JsonView, ErrorView>(
                call_tool_result_json(#[trigger] call_tool_reply_view(handed)),
            ),
    }
}

/// What `resources/read` may answer.
pub open spec fn read_resource_outcome<P>(
    initialized: bool,
    resources: Seq<(Seq<char>, P)>,
    params: Option<JsonView>,
    outcome: Result<JsonView, ErrorView>,
) -> bool {
    match read_resource_plan(initialized, resources, params) {
        Err(e) => outcome == Err::<JsonView, ErrorView>(e),
        Ok(_) => exists|handed: Result<Seq<ResourceContentView>, Seq<char>>|
            outcome == #[trigger] read_resource_reply_view(handed),
    }
}

/// What a request may be answered with, method by method.
pub open spec fn request_outcome<T, R>(
    initialized: bool,
    tools: Seq<(Seq<char>, T)>,
    resources: Seq<(Seq<char>, R)>,
    method: Seq<char>,
    params: Option<JsonView>,
    outcome: Result<JsonView, ErrorView>,
) -> bool {
    if method == "initialize"@ {
        outcome == initialize_outcome(params)
    } else if method == "tools/list"@ {
        list_tools_outcome(initialized, spec_keys(tools), outcome)
    } else if method == "tools/call"@ {
        call_tool_outcome(initialized, tools, params, outcome)
    } else if method == "resources/list"@ {
        list_resources_outcome(initialized, spec_keys(resources), outcome)
    } else if method == "resources/read"@ {
        read_resource_outcome(initialized, resources, params, outcome)
    } else {
        outcome == Err::<JsonView, ErrorView>(method_not_found_error())
    }
}

/// Whether the handshake has happened once a request is answered.
pub open spec fn initialized_after(
    initialized: bool,
    method: Seq<char>,
    params: Option<JsonView>,
) -> bool {
    initialized || (method == "initialize"@ && initialize_accepts(params))
}

/// The value of what a handler returns.
pub open spec fn result_view(result: Result<JsonValue, McpError>) -> Result<JsonView, ErrorView> {
    match result {
        Ok(value) => Ok(value@),
        Err(error) => Err(error@),
    }
}

/// The value of what a tool handed back.
pub open spec fn tool_outcome_view(
    outcome: Result<CallToolResult, String>,
) -> Result<CallToolResultView, Seq<char>> {
    match outcome {
        Ok(result) => Ok(result@),
        Err(failure) => Err(failure@),
    }
}

/// The value of what a resource handed back.
pub open spec fn resource_outcome_view(
    outcome: Result<Vec<ResourceContent>, String>,
) -> Result<Seq<ResourceContentView>, Seq<char>> {
    match outcome {
        Ok(contents) => Ok(contents_view(contents)),
        Err(failure) => Err(failure@),
    }
}


/// What became of a notification.
#[derive(Clone, Copy, Debug, PartialEq, Eq, Structural)]
pub enum NotificationKind {
    /// The client says that it has finished the handshake.
    Initialized,
    /// A method that the server does not know.
    Unknown,
}

/// The protocol server: the state of the handshake and the registry of
/// providers.
pub struct McpServer {
    initialized: bool,
    tools: Registry<Box<dyn Tool>>,
    resources: Registry<Box<dyn Resource>>,
}

/// The response to the request `id` that carries `result`.
pub fn respond(id: RequestId, result: Result<JsonValue, McpError>) -> (response: JsonRpcMessage)
    ensures
        response@ == MessageView::Response(
            ResponseView { id: id@, outcome: result_view(result) },
        ),
{
    let outcome = match result {
        Ok(value) => Ok(value),
        Err(error) => Err(
            JsonRpcError { code: error.code, message: error.message, data: error.data },
        ),
    };
    JsonRpcMessage::Response(Response { id, outcome })
}

/// Turns what a tool handed back into the result of `tools/call`.
///
/// The answer is a success of the protocol either way: where the tool
/// failed, the text of its failure is the content, flagged as an error.
pub fn call_tool_reply(outcome: Result<CallToolResult, String>) -> (r: JsonValue)
    ensures
        r@ == call_tool_result_json(call_tool_reply_view(tool_outcome_view(outcome))),
{
    match outcome {
        Ok(result) => result.to_json(),
        Err(failure) => CallToolResult::text(failure, true).to_json(),
    }
}

/// Turns what a resource handed back into the answer of `resources/read`.
///
/// Where the resource failed, the answer is the error of the protocol for
/// a failure inside the server, with the text of the failure in its
/// message.
pub fn read_resource_reply(outcome: Result<Vec<ResourceContent>, String>) -> (r: Result<
    JsonValue,
    McpError,
>)
    ensures
        result_view(r) == read_resource_reply_view(resource_outcome_view(outcome)),
        outcome is Err ==> (r matches Err(e) && e.code == INTERNAL_ERROR),
{
    match outcome {
        Ok(contents) => {
            let result = ReadResourceResult { contents };
            Ok(result.to_json())
        },
        Err(failure) => Err(McpError::resource_read_failed(failure.as_str())),
    }
}

impl McpServer {
    /// Whether the handshake has happened.
    pub closed spec fn spec_is_initialized(&self) -> bool {
        self.initialized
    }

    /// The registered tools: their names and providers, in the order in
    /// which the names were first registered.
    pub closed spec fn tools(&self) -> Seq<(Seq<char>, Box<dyn Tool>)> {
        self.tools.entries()
    }

    /// The registered resources: their URIs and providers, in the order in
    /// which the URIs were first registered.
    pub closed spec fn resources(&self) -> Seq<(Seq<char>, Box<dyn Resource>)> {
        self.resources.entries()
    }

    /// No name is registered twice, and no URI.
    pub open spec fn well_keyed(&self) -> bool {
        distinct_keys(self.tools()) && distinct_keys(self.resources())
    }

    /// The names of the registered tools.
    pub open spec fn tool_names(&self) -> Seq<Seq<char>> {
        spec_keys(self.tools())
    }

    /// The URIs of the registered resources.
    pub open spec fn resource_uris(&self) -> Seq<Seq<char>> {
        spec_keys(self.resources())
    }

    /// A server that has not been initialized and knows no provider.
    pub fn new() -> (server: McpServer)
        ensures
            !server.is_initialized(),
            server.tools() == Seq::<(Seq<char>, Box<dyn Tool>)>::empty(),
            server.resources() == Seq::<(Seq<char>, Box<dyn Resource>)>::empty(),
            server.well_keyed(),
    {
        McpServer { initialized: false, tools: Registry::new(), resources: Registry::new() }
    }

    /// Whether the handshake has happened.
    #[verifier::when_used_as_spec(spec_is_initialized)]
    pub fn is_initialized(&self) -> (r: bool)
        ensures
            r == self.spec_is_initialized(),
    {
        self.initialized
    }

    /// Registers `tool` under `name`.  A tool that was registered under
    /// the same name is replaced.
    pub fn add_tool(&mut self, name: String, tool: Box<dyn Tool>)
        ensures
            final(self).tools() == spec_register(old(self).tools(), name@, tool),
            final(self).resources() == old(self).resources(),
            final(self).is_initialized() == old(self).is_initialized(),
            final(self).well_keyed(),
    {
        proof {
            use_type_invariant(&self.resources);
        }
        self.tools.register(name, tool);
    }

    /// Registers `resource` under `uri`.  A resource that was registered
    /// under the same URI is replaced.
    pub fn add_resource(&mut self, uri: String, resource: Box<dyn Resource>)
        ensures
            final(self).resources() == spec_register(old(self).resources(), uri@, resource),
            final(self).tools() == old(self).tools(),
            final(self).is_initialized() == old(self).is_initialized(),
            final(self).well_keyed(),
    {
        proof {
            use_type_invariant(&self.tools);
        }
        self.resources.register(uri, resource);
    }

    /// The tool registered under `name`, if there is one.
    pub fn lookup_tool(&self, name: &str) -> (r: Option<&Box<dyn Tool>>)
        ensures
            match r {
                Some(tool) => spec_provider(self.tools(), name@) == Some(*tool),
                None => spec_provider(self.tools(), name@) is None,
            },
    {
        self.tools.lookup(name)
    }

    /// The resource registered under `uri`, if there is one.
    pub fn lookup_resource(&self, uri: &str) -> (r: Option<&Box<dyn Resource>>)
        ensures
            match r {
                Some(resource) => spec_provider(self.resources(), uri@) == Some(*resource),
                None => spec_provider(self.resources(), uri@) is None,
            },
    {
        self.resources.lookup(uri)
    }

    /// Asks every registered tool for its descriptor, in the order of the
    /// registry.
    pub fn describe_tools(&self) -> (tools: Vec<crate::protocol::payloads::Tool>)
        ensures
            tools_named(tools_view(tools), self.tool_names()),
    {
        let mut tools: Vec<crate::protocol::payloads::Tool> = Vec::new();
        let n: usize = self.tools.len();
        let mut i: usize = 0;
        while i < n
            invariant
                i <= n,
                n == self.tools.entries().len(),
                tools.len() == i,
                forall|j: int| 0 <= j < i ==> tools[j].name@ == self.tools.entries()[j].0,
            decreases n - i,
        {
            let name = self.tools.key(i).clone();
            let descriptor = self.tools.provider(i).definition(name);
            tools.push(descriptor);
            i = i + 1;
        }
        tools
    }

    /// Asks every registered resource for its descriptor, in the order of
    /// the registry.
    pub fn describe_resources(&self) -> (resources: Vec<crate::protocol::payloads::Resource>)
        ensures
            resources_named(resources_view(resources), self.resource_uris()),
    {
        let mut resources: Vec<crate::protocol::payloads::Resource> = Vec::new();
        let n: usize = self.resources.len();
        let mut i: usize = 0;
        while i < n
            invariant
                i <= n,
                n == self.resources.entries().len(),
                resources.len() == i,
                forall|j: int| 0 <= j < i ==> resources[j].uri@ == self.resources.entries()[j].0,
            decreases n - i,
        {
            let uri = self.resources.key(i).clone();
            let descriptor = self.resources.provider(i).definition(uri);
            resources.push(descriptor);
            i = i + 1;
        }
        resources
    }

    /// The handshake.  It succeeds whenever the parameters are an object,
    /// and from then on the server is initialized; a second handshake is
    /// answered like the first.
    pub fn handle_initialize(&mut self, params: Option<JsonValue>) -> (r: Result<
        JsonValue,
        McpError,
    >)
        ensures
            result_view(r) == initialize_outcome(opt_view(params)),
            final(self).is_initialized() == (old(self).is_initialized() || initialize_accepts(
                opt_view(params),
            )),
            final(self).tools() == old(self).tools(),
            final(self).resources() == old(self).resources(),
    {
        let accepted = match &params {
            Some(p) => InitializeRequest::from_value(p).is_some(),
            None => false,
        };
        if !accepted {
            return Err(McpError::invalid_params());
        }
        self.initialized = true;
        let result = InitializeResult {
            protocol_version: MCP_VERSION.to_owned(),
            capabilities: ServerCapabilities {
                resources: Some(
                    ResourcesCapability { subscribe: Some(false), list_changed: Some(false) },
                ),
                tools: Some(ToolsCapability { list_changed: Some(false) }),
            },
            server_info: ServerInfo {
                name: SERVER_NAME.to_owned(),
                version: SERVER_VERSION.to_owned(),
            },
        };
        Ok(result.to_json())
    }

    /// Lists the descriptors of the registered tools.
    pub fn handle_list_tools(&self) -> (r: Result<JsonValue, McpError>)
        ensures
            list_tools_outcome(self.is_initialized(), self.tool_names(), result_view(r)),
    {
        if !self.initialized {
            return Err(McpError::not_initialized());
        }
        let result = ListToolsResult { tools: self.describe_tools() };
        let json = result.to_json();
        proof {
            assert(tools_named(tools_view(result.tools), self.tool_names()));
        }
        Ok(json)
    }

    /// Lists the descriptors of the registered resources.
    pub fn handle_list_resources(&self) -> (r: Result<JsonValue, McpError>)
        ensures
            list_resources_outcome(self.is_initialized(), self.resource_uris(), result_view(r)),
    {
        if !self.initialized {
            return Err(McpError::not_initialized());
        }
        let result = ListResourcesResult { resources: self.describe_resources() };
        let json = result.to_json();
        proof {
            assert(resources_named(resources_view(result.resources), self.resource_uris()));
        }
        Ok(json)
    }

    /// Decides where a call of `tools/call` goes: to the place of a
    /// registered tool, with the arguments for it, or to an error.  A
    /// request without arguments calls the tool with none.
    pub fn plan_call_tool(&self, params: &Option<JsonValue>) -> (r: Result<
        (usize, Vec<(String, JsonValue)>),
        McpError,
    >)
        ensures
            match r {
                Ok((place, arguments)) => call_tool_plan(
                    self.is_initialized(),
                    self.tools(),
                    opt_view(*params),
                ) == Ok::<(int, Members), ErrorView>((place as int, members_view(arguments))),
                Err(e) => call_tool_plan(self.is_initialized(), self.tools(), opt_view(*params))
                    == Err::<(int, Members), ErrorView>(e@),
            },
            r matches Ok((place, _)) ==> place < self.tools().len(),
    {
        if !self.initialized {
            return Err(McpError::not_initialized());
        }
        let request = match params {
            Some(p) => match CallToolRequest::from_value(p) {
                Some(request) => request,
                None => { return Err(McpError::invalid_params()); },
            },
            None => { return Err(McpError::invalid_params()); },
        };
        let place = match self.tools.find(request.name.as_str()) {
            Some(place) => place,
            None => { return Err(McpError::tool_not_found(request.name.as_str())); },
        };
        proof {
            lemma_position(self.tools(), request.name@);
        }
        let arguments = match request.arguments {
            Some(arguments) => arguments,
            None => no_members(),
        };
        Ok((place, arguments))
    }

    /// Decides where a call of `resources/read` goes: to the place of a
    /// registered resource, or to an error.
    pub fn plan_read_resource(&self, params: &Option<JsonValue>) -> (r: Result<usize, McpError>)
        ensures
            match r {
                Ok(place) => read_resource_plan(
                    self.is_initialized(),
                    self.resources(),
                    opt_view(*params),
                ) == Ok::<int, ErrorView>(place as int),
                Err(e) => read_resource_plan(
                    self.is_initialized(),
                    self.resources(),
                    opt_view(*params),
                ) == Err::<int, ErrorView>(e@),
            },
            r matches Ok(place) ==> place < self.resources().len(),
    {
        if !self.initialized {
            return Err(McpError::not_initialized());
        }
        let request = match params {
            Some(p) => match ReadResourceRequest::from_value(p) {
                Some(request) => request,
                None => { return Err(McpError::invalid_params()); },
            },
            None => { return Err(McpError::invalid_params()); },
        };
        let place = match self.resources.find(request.uri.as_str()) {
            Some(place) => place,
            None => { return Err(McpError::resource_not_found(request.uri.as_str())); },
        };
        proof {
            lemma_position(self.resources(), request.uri@);
        }
        Ok(place)
    }

    /// Calls a registered tool.
    ///
    /// Where [`McpServer::plan_call_tool`] finds an error, that error is
    /// the answer and no provider is reached.  Otherwise the tool that it
    /// found is called with the arguments that it found, and the answer is
    /// a success that carries what [`call_tool_reply`] makes of what the
    /// tool handed back.
    pub fn handle_call_tool(&self, params: Option<JsonValue>) -> (r: Result<JsonValue, McpError>)
        ensures
            call_tool_outcome(
                self.is_initialized(),
                self.tools(),
                opt_view(params),
                result_view(r),
            ),
    {
        match self.plan_call_tool(&params) {
            Err(e) => Err(e),
            Ok((place, arguments)) => {
                let handed = self.tools.provider(place).call(arguments);
                let ghost seen = tool_outcome_view(handed);
                let json = call_tool_reply(handed);
                proof {
                    assert(json@ == call_tool_result_json(call_tool_reply_view(seen)));
                }
                Ok(json)
            },
        }
    }

    /// Reads a registered resource.
    ///
    /// Where [`McpServer::plan_read_resource`] finds an error, that error
    /// is the answer and no provider is reached.  Otherwise the resource
    /// that it found is read, and the answer is what
    /// [`read_resource_reply`] makes of what the resource handed back.
    pub fn handle_read_resource(&self, params: Option<JsonValue>) -> (r: Result<
        JsonValue,
        McpError,
    >)
        ensures
            read_resource_outcome(
                self.is_initialized(),
                self.resources(),
                opt_view(params),
                result_view(r),
            ),
    {
        match self.plan_read_resource(&params) {
            Err(e) => Err(e),
            Ok(place) => {
                let handed = self.resources.provider(place).read();
                let ghost seen = resource_outcome_view(handed);
                let r = read_resource_reply(handed);
                proof {
                    assert(result_view(r) == read_resource_reply_view(seen));
                }
                r
            },
        }
    }

    /// Answers a request.  There is exactly one response to every request,
    /// and it carries the identifier of the request.
    ///
    /// Only a successful `initialize` changes the state of the server.
    /// Before it, each of the four capability methods is answered with the
    /// error for a server that is not initialized.  A method that is not
    /// built in is answered with the error for a method that is not found.
    pub fn handle_request(&mut self, request: Request) -> (response: JsonRpcMessage)
        ensures
            answers(
                old(self).is_initialized(),
                old(self).tools(),
                old(self).resources(),
                request@,
                response@,
            ),
            final(self).is_initialized() == initialized_after(
                old(self).is_initialized(),
                request@.method,
                request@.params,
            ),
            final(self).tools() == old(self).tools(),
            final(self).resources() == old(self).resources(),
            !old(self).is_initialized() && is_capability_method(request@.method) ==> response@
                == MessageView::Response(
                ResponseView {
                    id: request@.id,
                    outcome: Err::<JsonView, ErrorView>(not_initialized_error()),
                },
            ),
    {
        proof {
            lemma_method_names();
        }
        let method = request.method.as_str();
        let result = if same_text(method, "initialize") {
            self.handle_initialize(request.params)
        } else if same_text(method, "tools/list") {
            self.handle_list_tools()
        } else if same_text(method, "tools/call") {
            self.handle_call_tool(request.params)
        } else if same_text(method, "resources/list") {
            self.handle_list_resources()
        } else if same_text(method, "resources/read") {
            self.handle_read_resource(request.params)
        } else {
            Err(McpError::method_not_found())
        };
        respond(request.id, result)
    }

    /// Takes note of a notification.  Nothing is answered and nothing
    /// changes: the handshake rests on the `initialize` request alone.
    pub fn handle_notification(&mut self, notification: Notification) -> (kind: NotificationKind)
        ensures
            kind == notification_kind(notification@.method),
            final(self).is_initialized() == old(self).is_initialized(),
            final(self).tools() == old(self).tools(),
            final(self).resources() == old(self).resources(),
    {
        classify_notification(notification.method.as_str())
    }

    /// Handles one message from the client.
    ///
    /// A request is answered with exactly one response, which carries the
    /// identifier of the request.  A notification and a response are
    /// answered with nothing, and leave the server as it was.
    pub fn handle_message(&mut self, message: JsonRpcMessage) -> (reply: Option<JsonRpcMessage>)
        ensures
            match message@ {
                MessageView::Request(request) => {
                    &&& reply matches Some(response)
                    &&& answers(
                        old(self).is_initialized(),
                        old(self).tools(),
                        old(self).resources(),
                        request,
                        response@,
                    )
                    &&& final(self).is_initialized() == initialized_after(
                        old(self).is_initialized(),
                        request.method,
                        request.params,
                    )
                },
                _ => reply is None && final(self).is_initialized() == old(self).is_initialized(),
            },
            final(self).tools() == old(self).tools(),
            final(self).resources() == old(self).resources(),
    {
        match message {
            JsonRpcMessage::Request(request) => Some(self.handle_request(request)),
            JsonRpcMessage::Notification(notification) => {
                self.handle_notification(notification);
                None
            },
            JsonRpcMessage::Response(_) => None,
        }
    }
}

/// What the method of a notification makes of it.
pub open spec fn notification_kind(method: Seq<char>) -> NotificationKind {
    if method == "initialized"@ {
        NotificationKind::Initialized
    } else {
        NotificationKind::Unknown
    }
}

/// Tells what the method of a notification makes of it, for whoever keeps
/// a log.
pub fn classify_notification(method: &str) -> (kind: NotificationKind)
    ensures
        kind == notification_kind(method@),
{
    if same_text(method, "initialized") {
        NotificationKind::Initialized
    } else {
        NotificationKind::Unknown
    }
}

/// `response` is the one answer to `request` that a server in the given
/// state may give: a response with the identifier of the request, whose
/// outcome is one that the method allows.
pub open spec fn answers<T, R>(
    initialized: bool,
    tools: Seq<(Seq<char>, T)>,
    resources: Seq<(Seq<char>, R)>,
    request: RequestView,
    response: MessageView,
) -> bool {
    &&& response matches MessageView::Response(r)
    &&& r.id == request.id
    &&& request_outcome(
        initialized,
        tools,
        resources,
        request.method,
        request.params,
        r.outcome,
    )
}

/// Reveals what the names of the built-in methods are made of, so that
/// they can be told apart.
pub proof fn lemma_method_names()
    ensures
        "initialize"@.len() == 10,
        "tools/list"@.len() == 10 && "tools/list"@[0] == 't' && "tools/list"@[6] == 'l',
        "tools/call"@.len() == 10 && "tools/call"@[0] == 't' && "tools/call"@[6] == 'c',
        "resources/list"@.len() == 14 && "resources/list"@[10] == 'l',
        "resources/read"@.len() == 14 && "resources/read"@[10] == 'r',
        "initialize"@[0] == 'i',
{
    reveal_strlit("initialize");
    reveal_strlit("tools/list");
    reveal_strlit("tools/call");
    reveal_strlit("resources/list");
    reveal_strlit("resources/read");
}


/// Before the handshake, every answer to one of the four capability
/// methods is the error for a server that is not initialized, whose code
/// is -32002.
pub proof fn lemma_capability_needs_handshake<T, R>(
    tools: Seq<(Seq<char>, T)>,
    resources: Seq<(Seq<char>, R)>,
    request: RequestView,
    response: MessageView,
)
    requires
        is_capability_method(request.method),
        answers(false, tools, resources, request, response),
    ensures
        response == MessageView::Response(
            ResponseView {
                id: request.id,
                outcome: Err::<JsonView, ErrorView>(not_initialized_error()),
            },
        ),
        not_initialized_error().code == -32002,
{
    lemma_method_names();
}

/// After the handshake, every answer to a call of a tool that is not
/// registered is the error for a tool that is not found, whose code is
/// -32601: a failure of the protocol, not content flagged as an error.
pub proof fn lemma_unregistered_tool<T, R>(
    tools: Seq<(Seq<char>, T)>,
    resources: Seq<(Seq<char>, R)>,
    request: RequestView,
    name: Seq<char>,
    response: MessageView,
)
    requires
        request.method == "tools/call"@,
        request.params matches Some(p) && json_call_tool(p) matches Some(call) && call.name
            == name,
        spec_position(tools, name) is None,
        answers(true, tools, resources, request, response),
    ensures
        response == MessageView::Response(
            ResponseView {
                id: request.id,
                outcome: Err::<JsonView, ErrorView>(tool_not_found_error(name)),
            },
        ),
        tool_not_found_error(name).code == -32601,
{
    lemma_method_names();
}

/// Whatever a resource reports when its read fails, the answer is the
/// error for a failure inside the server, whose code is -32603.
pub proof fn lemma_failed_read_is_protocol_error(failure: Seq<char>)
    ensures
        read_resource_reply_view(Err(failure)) matches Err(e) && e.code == -32603,
{
}

/// Whatever a tool reports when its call fails, the answer is a result
/// flagged as an error, whose content is the text of the failure.
pub proof fn lemma_failed_call_is_content(failure: Seq<char>)
    ensures
        call_tool_reply_view(Err(failure)) == (CallToolResultView {
            content: seq![ContentView::Text { text: failure }],
            is_error: Some(true),
        }),
{
}

/// Two handshakes in succession, each with parameters that are accepted,
/// are both answered with the result of the handshake, and the server is
/// initialized after each, whatever its state was before.
pub proof fn lemma_initialize_twice<T, R>(
    initialized: bool,
    tools: Seq<(Seq<char>, T)>,
    resources: Seq<(Seq<char>, R)>,
    first: RequestView,
    first_response: MessageView,
    second: RequestView,
    second_response: MessageView,
)
    requires
        first.method == "initialize"@,
        second.method == "initialize"@,
        initialize_accepts(first.params),
        initialize_accepts(second.params),
        answers(initialized, tools, resources, first, first_response),
        answers(
            initialized_after(initialized, first.method, first.params),
            tools,
            resources,
            second,
            second_response,
        ),
    ensures
        first_response == MessageView::Response(
            ResponseView {
                id: first.id,
                outcome: Ok::<JsonView, ErrorView>(initialize_result_json(server_handshake())),
            },
        ),
        second_response == MessageView::Response(
            ResponseView {
                id: second.id,
                outcome: Ok::<JsonView, ErrorView>(initialize_result_json(server_handshake())),
            },
        ),
        initialized_after(initialized, first.method, first.params),
        initialized_after(
            initialized_after(initialized, first.method, first.params),
            second.method,
            second.params,
        ),
{
}

} // verus!
