//! The payloads of the built-in methods: what a request's parameters must
//! look like, and how a result is written.

use crate::json::{
    items_view, lemma_object_view, members_view, no_members, put, put_opt, with_opt, JsonValue,
    JsonView, Members,
};
use crate::protocol::errors::opt_view;
use crate::protocol::messages::clone_payload;
use vstd::prelude::*;

verus! {

/// The value of an optional piece of text.
pub open spec fn opt_text(text: Option<String>) -> Option<Seq<char>> {
    match text {
        Some(t) => Some(t@),
        None => None,
    }
}

/// The JSON string for an optional piece of text.
pub open spec fn opt_text_json(text: Option<Seq<char>>) -> Option<JsonView> {
    match text {
        Some(t) => Some(JsonView::String(t)),
        None => None,
    }
}

/// The JSON boolean for an optional flag.
pub open spec fn opt_flag_json(flag: Option<bool>) -> Option<JsonView> {
    match flag {
        Some(b) => Some(JsonView::Bool(b)),
        None => None,
    }
}

/// The JSON string for an optional piece of text.
pub fn text_payload(text: &Option<String>) -> (r: Option<JsonValue>)
    ensures
        opt_view(r) == opt_text_json(opt_text(*text)),
{
    match text {
        Some(t) => Some(JsonValue::String(t.clone())),
        None => None,
    }
}

/// The JSON boolean for an optional flag.
pub fn flag_payload(flag: Option<bool>) -> (r: Option<JsonValue>)
    ensures
        opt_view(r) == opt_flag_json(flag),
{
    match flag {
        Some(b) => Some(JsonValue::Bool(b)),
        None => None,
    }
}

/// A copy of an optional piece of text.
pub fn clone_text(text: Option<&String>) -> (r: Option<String>)
    ensures
        match text {
            Some(t) => r matches Some(copy) && copy@ == t@,
            None => r is None,
        },
{
    match text {
        Some(t) => Some(t.clone()),
        None => None,
    }
}

/// The parameters of `initialize`.
///
/// Any object is accepted.  The members that the handshake names are kept
/// where they have the expected kind; nothing else is looked at.
#[derive(Debug, PartialEq, Eq)]
pub struct InitializeRequest {
    pub protocol_version: Option<String>,
    pub capabilities: Option<JsonValue>,
    pub client_info: Option<JsonValue>,
}

/// The mathematical value of an [`InitializeRequest`].
pub struct InitializeRequestView {
    pub protocol_version: Option<Seq<char>>,
    pub capabilities: Option<JsonView>,
    pub client_info: Option<JsonView>,
}

impl View for InitializeRequest {
    type V = InitializeRequestView;

    open spec fn view(&self) -> InitializeRequestView {
        InitializeRequestView {
            protocol_version: opt_text(self.protocol_version),
            capabilities: opt_view(self.capabilities),
            client_info: opt_view(self.client_info),
        }
    }
}

/// The parameters of `initialize` that a JSON value stands for.
pub open spec fn json_initialize(value: JsonView) -> Option<InitializeRequestView> {
    if value is Object {
        Some(
            InitializeRequestView {
                protocol_version: match value.member("protocolVersion"@) {
                    Some(JsonView::String(version)) => Some(version),
                    _ => None,
                },
                capabilities: value.member("capabilities"@),
                client_info: value.member("clientInfo"@),
            },
        )
    } else {
        None
    }
}

impl InitializeRequest {
    /// Reads the parameters of `initialize`; succeeds exactly on objects.
    pub fn from_value(value: &JsonValue) -> (r: Option<InitializeRequest>)
        ensures
            match r {
                Some(request) => json_initialize(value@) == Some(request@),
                None => json_initialize(value@) is None,
            },
    {
        match value {
            JsonValue::Object(_) => {
                let protocol_version = match value.get("protocolVersion") {
                    Some(JsonValue::String(version)) => Some(version.clone()),
                    _ => None,
                };
                let capabilities = clone_payload(value.get("capabilities"));
                let client_info = clone_payload(value.get("clientInfo"));
                Some(InitializeRequest { protocol_version, capabilities, client_info })
            },
            _ => None,
        }
    }
}

/// The parameters of `tools/call`: the name of a tool and the arguments
/// for it.
#[derive(Debug, PartialEq, Eq)]
pub struct CallToolRequest {
    pub name: String,
    pub arguments: Option<Vec<(String, JsonValue)>>,
}

/// The mathematical value of a [`CallToolRequest`].
pub struct CallToolRequestView {
    pub name: Seq<char>,
    pub arguments: Option<Members>,
}

impl View for CallToolRequest {
    type V = CallToolRequestView;

    open spec fn view(&self) -> CallToolRequestView {
        CallToolRequestView {
            name: self.name@,
            arguments: match self.arguments {
                Some(members) => Some(members_view(members)),
                None => None,
            },
        }
    }
}

/// The parameters of `tools/call` that a JSON value stands for: an object
/// with a string `name`, whose `arguments` are absent, null or an object.
pub open spec fn json_call_tool(value: JsonView) -> Option<CallToolRequestView> {
    match value.member("name"@) {
        Some(JsonView::String(name)) => match value.member("arguments"@) {
            None => Some(CallToolRequestView { name, arguments: None }),
            Some(JsonView::Null) => Some(CallToolRequestView { name, arguments: None }),
            Some(JsonView::Object(members)) => Some(
                CallToolRequestView { name, arguments: Some(members) },
            ),
            Some(_) => None,
        },
        _ => None,
    }
}

/// A copy of the members of an object.
pub fn clone_members(members: &Vec<(String, JsonValue)>) -> (r: Vec<(String, JsonValue)>)
    ensures
        members_view(r) == members_view(*members),
{
    let mut copy: Vec<(String, JsonValue)> = Vec::new();
    let mut i: usize = 0;
    while i < members.len()
        invariant
            i <= members.len(),
            copy.len() == i,
            forall|j: int|
                0 <= j < i ==> copy[j].0@ == members[j].0@ && copy[j].1@ == members[j].1@,
        decreases members.len() - i,
    {
        let key = members[i].0.clone();
        let value = members[i].1.clone();
        copy.push((key, value));
        i = i + 1;
    }
    assert(members_view(copy) =~= members_view(*members));
    copy
}

impl CallToolRequest {
    /// Reads the parameters of `tools/call`.
    pub fn from_value(value: &JsonValue) -> (r: Option<CallToolRequest>)
        ensures
            match r {
                Some(request) => json_call_tool(value@) == Some(request@),
                None => json_call_tool(value@) is None,
            },
    {
        let name = match value.get("name") {
            Some(JsonValue::String(name)) => name.clone(),
            _ => { return None; },
        };
        match value.get("arguments") {
            None => Some(CallToolRequest { name, arguments: None }),
            Some(JsonValue::Null) => Some(CallToolRequest { name, arguments: None }),
            Some(JsonValue::Object(members)) => {
                proof {
                    lemma_object_view(*members);
                }
                Some(CallToolRequest { name, arguments: Some(clone_members(members)) })
            },
            Some(_) => None,
        }
    }
}

/// The parameters of `resources/read`: the URI of a resource.
#[derive(Debug, PartialEq, Eq)]
pub struct ReadResourceRequest {
    pub uri: String,
}

/// The URI that the parameters of `resources/read` name: the value stands
/// for parameters when it is an object with a string `uri`.
pub open spec fn json_read_resource(value: JsonView) -> Option<Seq<char>> {
    match value.member("uri"@) {
        Some(JsonView::String(uri)) => Some(uri),
        _ => None,
    }
}

impl ReadResourceRequest {
    /// Reads the parameters of `resources/read`.
    pub fn from_value(value: &JsonValue) -> (r: Option<ReadResourceRequest>)
        ensures
            match r {
                Some(request) => json_read_resource(value@) == Some(request.uri@),
                None => json_read_resource(value@) is None,
            },
    {
        match value.get("uri") {
            Some(JsonValue::String(uri)) => Some(ReadResourceRequest { uri: uri.clone() }),
            _ => None,
        }
    }
}


/// What a client may know of a tool: its name, which is the key it is
/// registered under, a description, and a schema of the arguments it accepts.
#[derive(Debug, PartialEq, Eq)]
pub struct Tool {
    pub name: String,
    pub description: Option<String>,
    pub input_schema: Option<JsonValue>,
}

/// The mathematical value of a tool descriptor.
pub struct ToolView {
    pub name: Seq<char>,
    pub description: Option<Seq<char>>,
    pub input_schema: Option<JsonView>,
}

impl View for Tool {
    type V = ToolView;

    open spec fn view(&self) -> ToolView {
        ToolView {
            name: self.name@,
            description: opt_text(self.description),
            input_schema: opt_view(self.input_schema),
        }
    }
}

/// The JSON form of a tool descriptor.  Absent members are left out.
pub open spec fn tool_json(tool: ToolView) -> JsonView {
    JsonView::Object(
        with_opt(
            with_opt(
                Seq::<(Seq<char>, JsonView)>::empty().push(("name"@, JsonView::String(tool.name))),
                "description"@,
                opt_text_json(tool.description),
            ),
            "inputSchema"@,
            tool.input_schema,
        ),
    )
}

impl Tool {
    /// Writes the descriptor as a JSON value.
    pub fn to_json(&self) -> (r: JsonValue)
        ensures
            r@ == tool_json(self@),
    {
        let mut members = no_members();
        put(&mut members, "name", JsonValue::String(self.name.clone()));
        put_opt(&mut members, "description", text_payload(&self.description));
        put_opt(&mut members, "inputSchema", clone_payload(self.input_schema.as_ref()));
        JsonValue::object(members)
    }
}

/// What a client may know of a resource: its URI, which is the key it is
/// registered under, a name, a description and a media type.
#[derive(Debug, PartialEq, Eq)]
pub struct Resource {
    pub uri: String,
    pub name: String,
    pub description: Option<String>,
    pub mime_type: Option<String>,
}

/// The mathematical value of a resource descriptor.
pub struct ResourceView {
    pub uri: Seq<char>,
    pub name: Seq<char>,
    pub description: Option<Seq<char>>,
    pub mime_type: Option<Seq<char>>,
}

impl View for Resource {
    type V = ResourceView;

    open spec fn view(&self) -> ResourceView {
        ResourceView {
            uri: self.uri@,
            name: self.name@,
            description: opt_text(self.description),
            mime_type: opt_text(self.mime_type),
        }
    }
}

/// The JSON form of a resource descriptor.  Absent members are left out.
pub open spec fn resource_json(resource: ResourceView) -> JsonView {
    JsonView::Object(
        with_opt(
            with_opt(
                Seq::<(Seq<char>, JsonView)>::empty().push(
                    ("uri"@, JsonView::String(resource.uri)),
                ).push(("name"@, JsonView::String(resource.name))),
                "description"@,
                opt_text_json(resource.description),
            ),
            "mimeType"@,
            opt_text_json(resource.mime_type),
        ),
    )
}

impl Resource {
    /// Writes the descriptor as a JSON value.
    pub fn to_json(&self) -> (r: JsonValue)
        ensures
            r@ == resource_json(self@),
    {
        let mut members = no_members();
        put(&mut members, "uri", JsonValue::String(self.uri.clone()));
        put(&mut members, "name", JsonValue::String(self.name.clone()));
        put_opt(&mut members, "description", text_payload(&self.description));
        put_opt(&mut members, "mimeType", text_payload(&self.mime_type));
        JsonValue::object(members)
    }
}

/// One block of what a tool hands back.
#[derive(Debug, PartialEq, Eq)]
pub enum ToolResultContent {
    /// Plain text.
    Text { text: String },
    /// An image: its data in base64 and its media type.
    Image { data: String, mime_type: String },
    /// A piece of a resource, embedded in the result.
    Resource { resource: ResourceContent },
}

/// The mathematical value of a [`ToolResultContent`].
pub enum ContentView {
    Text { text: Seq<char> },
    Image { data: Seq<char>, mime_type: Seq<char> },
    Resource { resource: ResourceContentView },
}

impl View for ToolResultContent {
    type V = ContentView;

    open spec fn view(&self) -> ContentView {
        match self {
            ToolResultContent::Text { text } => ContentView::Text { text: text@ },
            ToolResultContent::Image { data, mime_type } => ContentView::Image {
                data: data@,
                mime_type: mime_type@,
            },
            ToolResultContent::Resource { resource } => ContentView::Resource {
                resource: resource@,
            },
        }
    }
}

/// The JSON form of a content block: its kind and what it holds.
pub open spec fn content_json(block: ContentView) -> JsonView {
    match block {
        ContentView::Text { text } => JsonView::Object(
            Seq::<(Seq<char>, JsonView)>::empty().push(("type"@, JsonView::String("text"@))).push(
                ("text"@, JsonView::String(text)),
            ),
        ),
        ContentView::Image { data, mime_type } => JsonView::Object(
            Seq::<(Seq<char>, JsonView)>::empty().push(
                ("type"@, JsonView::String("image"@)),
            ).push(("data"@, JsonView::String(data))).push(
                ("mimeType"@, JsonView::String(mime_type)),
            ),
        ),
        ContentView::Resource { resource } => JsonView::Object(
            Seq::<(Seq<char>, JsonView)>::empty().push(
                ("type"@, JsonView::String("resource"@)),
            ).push(("resource"@, resource_content_json(resource))),
        ),
    }
}

impl ToolResultContent {
    /// Writes the block as a JSON value.
    pub fn to_json(&self) -> (r: JsonValue)
        ensures
            r@ == content_json(self@),
    {
        match self {
            ToolResultContent::Text { text } => {
                let mut members = no_members();
                put(&mut members, "type", JsonValue::text("text"));
                put(&mut members, "text", JsonValue::String(text.clone()));
                JsonValue::object(members)
            },
            ToolResultContent::Image { data, mime_type } => {
                let mut members = no_members();
                put(&mut members, "type", JsonValue::text("image"));
                put(&mut members, "data", JsonValue::String(data.clone()));
                put(&mut members, "mimeType", JsonValue::String(mime_type.clone()));
                JsonValue::object(members)
            },
            ToolResultContent::Resource { resource } => {
                let mut members = no_members();
                put(&mut members, "type", JsonValue::text("resource"));
                put(&mut members, "resource", resource.to_json());
                JsonValue::object(members)
            },
        }
    }
}

/// What a tool hands back: content, and whether the content reports a
/// failure of the tool.
#[derive(Debug, PartialEq, Eq)]
pub struct CallToolResult {
    pub content: Vec<ToolResultContent>,
    pub is_error: Option<bool>,
}

/// The mathematical value of a [`CallToolResult`].
pub struct CallToolResultView {
    pub content: Seq<ContentView>,
    pub is_error: Option<bool>,
}

/// The blocks of a result, one by one.
pub open spec fn content_view(content: Vec<ToolResultContent>) -> Seq<ContentView> {
    Seq::new(content.len() as nat, |i: int| content[i]@)
}

impl View for CallToolResult {
    type V = CallToolResultView;

    open spec fn view(&self) -> CallToolResultView {
        CallToolResultView { content: content_view(self.content), is_error: self.is_error }
    }
}

/// The JSON form of the result of a tool call.
pub open spec fn call_tool_result_json(result: CallToolResultView) -> JsonView {
    JsonView::Object(
        with_opt(
            Seq::<(Seq<char>, JsonView)>::empty().push(
                (
                    "content"@,
                    JsonView::Array(result.content.map_values(|b: ContentView| content_json(b))),
                ),
            ),
            "isError"@,
            opt_flag_json(result.is_error),
        ),
    )
}

impl CallToolResult {
    /// A result made of one block of text.
    pub fn text(text: String, is_error: bool) -> (r: CallToolResult)
        ensures
            r@ == (CallToolResultView {
                content: seq![ContentView::Text { text: text@ }],
                is_error: Some(is_error),
            }),
    {
        let mut content: Vec<ToolResultContent> = Vec::new();
        content.push(ToolResultContent::Text { text });
        let r = CallToolResult { content, is_error: Some(is_error) };
        assert(r@.content =~= seq![ContentView::Text { text: text@ }]);
        r
    }

    /// Writes the result as a JSON value.
    pub fn to_json(&self) -> (r: JsonValue)
        ensures
            r@ == call_tool_result_json(self@),
    {
        let mut items: Vec<JsonValue> = Vec::new();
        let mut i: usize = 0;
        while i < self.content.len()
            invariant
                i <= self.content.len(),
                items.len() == i,
                forall|j: int| 0 <= j < i ==> items[j]@ == content_json(self.content[j]@),
            decreases self.content.len() - i,
        {
            items.push(self.content[i].to_json());
            i = i + 1;
        }
        assert(items_view(items) =~= self@.content.map_values(|b: ContentView| content_json(b)));
        let mut members = no_members();
        put(&mut members, "content", JsonValue::array(items));
        put_opt(&mut members, "isError", flag_payload(self.is_error));
        JsonValue::object(members)
    }
}

/// One piece of what a resource holds.
#[derive(Debug, PartialEq, Eq)]
pub enum ResourceContent {
    /// Text, with the URI it comes from and its media type.
    Text { uri: String, text: String, mime_type: Option<String> },
}

/// The mathematical value of a [`ResourceContent`].
pub enum ResourceContentView {
    Text { uri: Seq<char>, text: Seq<char>, mime_type: Option<Seq<char>> },
}

impl View for ResourceContent {
    type V = ResourceContentView;

    open spec fn view(&self) -> ResourceContentView {
        match self {
            ResourceContent::Text { uri, text, mime_type } => ResourceContentView::Text {
                uri: uri@,
                text: text@,
                mime_type: opt_text(*mime_type),
            },
        }
    }
}

/// The JSON form of a piece of resource content.
pub open spec fn resource_content_json(piece: ResourceContentView) -> JsonView {
    match piece {
        ResourceContentView::Text { uri, text, mime_type } => JsonView::Object(
            with_opt(
                Seq::<(Seq<char>, JsonView)>::empty().push(("uri"@, JsonView::String(uri))).push(
                    ("text"@, JsonView::String(text)),
                ),
                "mimeType"@,
                opt_text_json(mime_type),
            ),
        ),
    }
}

impl ResourceContent {
    /// Writes the piece as a JSON value.
    pub fn to_json(&self) -> (r: JsonValue)
        ensures
            r@ == resource_content_json(self@),
    {
        match self {
            ResourceContent::Text { uri, text, mime_type } => {
                let mut members = no_members();
                put(&mut members, "uri", JsonValue::String(uri.clone()));
                put(&mut members, "text", JsonValue::String(text.clone()));
                put_opt(&mut members, "mimeType", text_payload(mime_type));
                JsonValue::object(members)
            },
        }
    }
}

/// The descriptors of a list of tools, one by one.
pub open spec fn tools_view(tools: Vec<Tool>) -> Seq<ToolView> {
    Seq::new(tools.len() as nat, |i: int| tools[i]@)
}

/// The descriptors of a list of resources, one by one.
pub open spec fn resources_view(resources: Vec<Resource>) -> Seq<ResourceView> {
    Seq::new(resources.len() as nat, |i: int| resources[i]@)
}

/// The pieces of what a resource holds, one by one.
pub open spec fn contents_view(contents: Vec<ResourceContent>) -> Seq<ResourceContentView> {
    Seq::new(contents.len() as nat, |i: int| contents[i]@)
}

/// The JSON form of the result of `tools/list`.
pub open spec fn list_tools_json(tools: Seq<ToolView>) -> JsonView {
    JsonView::Object(
        Seq::<(Seq<char>, JsonView)>::empty().push(
            ("tools"@, JsonView::Array(tools.map_values(|t: ToolView| tool_json(t)))),
        ),
    )
}

/// The JSON form of the result of `resources/list`.
pub open spec fn list_resources_json(resources: Seq<ResourceView>) -> JsonView {
    JsonView::Object(
        Seq::<(Seq<char>, JsonView)>::empty().push(
            (
                "resources"@,
                JsonView::Array(resources.map_values(|r: ResourceView| resource_json(r))),
            ),
        ),
    )
}

/// The JSON form of the result of `resources/read`.
pub open spec fn read_resource_json(contents: Seq<ResourceContentView>) -> JsonView {
    JsonView::Object(
        Seq::<(Seq<char>, JsonView)>::empty().push(
            (
                "contents"@,
                JsonView::Array(
                    contents.map_values(|c: ResourceContentView| resource_content_json(c)),
                ),
            ),
        ),
    )
}

/// The result of `tools/list`.
#[derive(Debug, PartialEq, Eq)]
pub struct ListToolsResult {
    pub tools: Vec<Tool>,
}

impl ListToolsResult {
    /// Writes the result as a JSON value.
    pub fn to_json(&self) -> (r: JsonValue)
        ensures
            r@ == list_tools_json(tools_view(self.tools)),
    {
        let mut items: Vec<JsonValue> = Vec::new();
        let mut i: usize = 0;
        while i < self.tools.len()
            invariant
                i <= self.tools.len(),
                items.len() == i,
                forall|j: int| 0 <= j < i ==> items[j]@ == tool_json(self.tools[j]@),
            decreases self.tools.len() - i,
        {
            items.push(self.tools[i].to_json());
            i = i + 1;
        }
        assert(items_view(items) =~= tools_view(self.tools).map_values(
            |t: ToolView| tool_json(t),
        ));
        let mut members = no_members();
        put(&mut members, "tools", JsonValue::array(items));
        JsonValue::object(members)
    }
}

/// The result of `resources/list`.
#[derive(Debug, PartialEq, Eq)]
pub struct ListResourcesResult {
    pub resources: Vec<Resource>,
}

impl ListResourcesResult {
    /// Writes the result as a JSON value.
    pub fn to_json(&self) -> (r: JsonValue)
        ensures
            r@ == list_resources_json(resources_view(self.resources)),
    {
        let mut items: Vec<JsonValue> = Vec::new();
        let mut i: usize = 0;
        while i < self.resources.len()
            invariant
                i <= self.resources.len(),
                items.len() == i,
                forall|j: int| 0 <= j < i ==> items[j]@ == resource_json(self.resources[j]@),
            decreases self.resources.len() - i,
        {
            items.push(self.resources[i].to_json());
            i = i + 1;
        }
        assert(items_view(items) =~= resources_view(self.resources).map_values(
            |r: ResourceView| resource_json(r),
        ));
        let mut members = no_members();
        put(&mut members, "resources", JsonValue::array(items));
        JsonValue::object(members)
    }
}

/// The result of `resources/read`.
#[derive(Debug, PartialEq, Eq)]
pub struct ReadResourceResult {
    pub contents: Vec<ResourceContent>,
}

impl ReadResourceResult {
    /// Writes the result as a JSON value.
    pub fn to_json(&self) -> (r: JsonValue)
        ensures
            r@ == read_resource_json(contents_view(self.contents)),
    {
        let mut items: Vec<JsonValue> = Vec::new();
        let mut i: usize = 0;
        while i < self.contents.len()
            invariant
                i <= self.contents.len(),
                items.len() == i,
                forall|j: int|
                    0 <= j < i ==> items[j]@ == resource_content_json(self.contents[j]@),
            decreases self.contents.len() - i,
        {
            items.push(self.contents[i].to_json());
            i = i + 1;
        }
        assert(items_view(items) =~= contents_view(self.contents).map_values(
            |c: ResourceContentView| resource_content_json(c),
        ));
        let mut members = no_members();
        put(&mut members, "contents", JsonValue::array(items));
        JsonValue::object(members)
    }
}

/// What the server says of its resources.
#[derive(Clone, Copy, Debug, PartialEq, Eq, Structural)]
pub struct ResourcesCapability {
    pub subscribe: Option<bool>,
    pub list_changed: Option<bool>,
}

/// What the server says of its tools.
#[derive(Clone, Copy, Debug, PartialEq, Eq, Structural)]
pub struct ToolsCapability {
    pub list_changed: Option<bool>,
}

/// The capabilities that the server declares in the handshake.
#[derive(Clone, Copy, Debug, PartialEq, Eq, Structural)]
pub struct ServerCapabilities {
    pub resources: Option<ResourcesCapability>,
    pub tools: Option<ToolsCapability>,
}

/// The name and the version of the server.
#[derive(Debug, PartialEq, Eq)]
pub struct ServerInfo {
    pub name: String,
    pub version: String,
}

/// The result of `initialize`.
#[derive(Debug, PartialEq, Eq)]
pub struct InitializeResult {
    pub protocol_version: String,
    pub capabilities: ServerCapabilities,
    pub server_info: ServerInfo,
}

/// The mathematical value of an [`InitializeResult`].
pub struct InitializeResultView {
    pub protocol_version: Seq<char>,
    pub capabilities: ServerCapabilities,
    pub server_name: Seq<char>,
    pub server_version: Seq<char>,
}

impl View for InitializeResult {
    type V = InitializeResultView;

    open spec fn view(&self) -> InitializeResultView {
        InitializeResultView {
            protocol_version: self.protocol_version@,
            capabilities: self.capabilities,
            server_name: self.server_info.name@,
            server_version: self.server_info.version@,
        }
    }
}

/// The JSON form of what the server says of its resources.
pub open spec fn resources_capability_json(capability: ResourcesCapability) -> JsonView {
    JsonView::Object(
        with_opt(
            with_opt(
                Seq::<(Seq<char>, JsonView)>::empty(),
                "subscribe"@,
                opt_flag_json(capability.subscribe),
            ),
            "listChanged"@,
            opt_flag_json(capability.list_changed),
        ),
    )
}

/// The JSON form of what the server says of its tools.
pub open spec fn tools_capability_json(capability: ToolsCapability) -> JsonView {
    JsonView::Object(
        with_opt(
            Seq::<(Seq<char>, JsonView)>::empty(),
            "listChanged"@,
            opt_flag_json(capability.list_changed),
        ),
    )
}

/// The JSON form of the declared capabilities.
pub open spec fn capabilities_json(capabilities: ServerCapabilities) -> JsonView {
    JsonView::Object(
        with_opt(
            with_opt(
                Seq::<(Seq<char>, JsonView)>::empty(),
                "resources"@,
                match capabilities.resources {
                    Some(c) => Some(resources_capability_json(c)),
                    None => None,
                },
            ),
            "tools"@,
            match capabilities.tools {
                Some(c) => Some(tools_capability_json(c)),
                None => None,
            },
        ),
    )
}

/// The JSON form of the result of `initialize`.
pub open spec fn initialize_result_json(result: InitializeResultView) -> JsonView {
    JsonView::Object(
        Seq::<(Seq<char>, JsonView)>::empty().push(
            ("protocolVersion"@, JsonView::String(result.protocol_version)),
        ).push(("capabilities"@, capabilities_json(result.capabilities))).push(
            (
                "serverInfo"@,
                JsonView::Object(
                    Seq::<(Seq<char>, JsonView)>::empty().push(
                        ("name"@, JsonView::String(result.server_name)),
                    ).push(("version"@, JsonView::String(result.server_version))),
                ),
            ),
        ),
    )
}

impl ResourcesCapability {
    /// Writes the capability as a JSON value.
    pub fn to_json(&self) -> (r: JsonValue)
        ensures
            r@ == resources_capability_json(*self),
    {
        let mut members = no_members();
        put_opt(&mut members, "subscribe", flag_payload(self.subscribe));
        put_opt(&mut members, "listChanged", flag_payload(self.list_changed));
        JsonValue::object(members)
    }
}

impl ToolsCapability {
    /// Writes the capability as a JSON value.
    pub fn to_json(&self) -> (r: JsonValue)
        ensures
            r@ == tools_capability_json(*self),
    {
        let mut members = no_members();
        put_opt(&mut members, "listChanged", flag_payload(self.list_changed));
        JsonValue::object(members)
    }
}

impl ServerCapabilities {
    /// Writes the capabilities as a JSON value.
    pub fn to_json(&self) -> (r: JsonValue)
        ensures
            r@ == capabilities_json(*self),
    {
        let mut members = no_members();
        let resources = match self.resources {
            Some(c) => Some(c.to_json()),
            None => None,
        };
        put_opt(&mut members, "resources", resources);
        let tools = match self.tools {
            Some(c) => Some(c.to_json()),
            None => None,
        };
        put_opt(&mut members, "tools", tools);
        JsonValue::object(members)
    }
}

impl InitializeResult {
    /// Writes the result as a JSON value.
    pub fn to_json(&self) -> (r: JsonValue)
        ensures
            r@ == initialize_result_json(self@),
    {
        let mut info = no_members();
        put(&mut info, "name", JsonValue::String(self.server_info.name.clone()));
        put(&mut info, "version", JsonValue::String(self.server_info.version.clone()));
        let mut members = no_members();
        put(&mut members, "protocolVersion", JsonValue::String(self.protocol_version.clone()));
        put(&mut members, "capabilities", self.capabilities.to_json());
        put(&mut members, "serverInfo", JsonValue::object(info));
        JsonValue::object(members)
    }
}

} // verus!
