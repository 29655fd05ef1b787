use ankiconnect_mcp::json::JsonValue;
use ankiconnect_mcp::protocol::payloads::{
    CallToolResult, ResourceContent, ToolResultContent,
};
use ankiconnect_mcp::server::capabilities::{Resource, Tool};
use ankiconnect_mcp::server::resources::StaticTextResource;
use ankiconnect_mcp::server::tools::{
    build_empty_schema, seconds_since_epoch, CurrentTimeTool, EchoTool,
};

fn text(s: &str) -> JsonValue {
    JsonValue::String(s.to_string())
}

fn object(members: Vec<(&str, JsonValue)>) -> JsonValue {
    JsonValue::Object(members.into_iter().map(|(k, v)| (k.to_string(), v)).collect())
}

fn one_text(t: &str, is_error: bool) -> CallToolResult {
    CallToolResult {
        content: vec![ToolResultContent::Text { text: t.to_string() }],
        is_error: Some(is_error),
    }
}

fn empty_schema() -> JsonValue {
    object(vec![
        ("type", text("object")),
        ("properties", object(vec![])),
        ("required", JsonValue::Array(vec![])),
    ])
}

#[test]
fn empty_schema_accepts_an_object_without_properties() {
    assert_eq!(build_empty_schema(), empty_schema());
}

#[test]
fn echo_describes_itself_under_the_name_it_is_given() {
    let descriptor = EchoTool.definition("repeat".to_string());
    assert_eq!(descriptor.name, "repeat");
    assert_eq!(descriptor.description, Some("Echoes back the provided text".to_string()));
    assert_eq!(
        descriptor.input_schema,
        Some(object(vec![
            ("type", text("object")),
            (
                "properties",
                object(vec![(
                    "text",
                    object(vec![
                        ("type", text("string")),
                        ("description", text("The text to echo back")),
                    ]),
                )]),
            ),
            ("required", JsonValue::Array(vec![text("text")])),
        ]))
    );
}

#[test]
fn echo_prefixes_the_text() {
    let arguments = vec![("text".to_string(), text("hi"))];
    assert_eq!(EchoTool.call(arguments), Ok(one_text("Echo: hi", false)));
    let empty = vec![("text".to_string(), text(""))];
    assert_eq!(EchoTool.call(empty), Ok(one_text("Echo: ", false)));
    let unicode = vec![("other".to_string(), JsonValue::Null), ("text".to_string(), text("日本語 ✓"))];
    assert_eq!(EchoTool.call(unicode), Ok(one_text("Echo: 日本語 ✓", false)));
}

#[test]
fn echo_takes_the_last_of_repeated_arguments() {
    let arguments = vec![("text".to_string(), text("first")), ("text".to_string(), text("last"))];
    assert_eq!(EchoTool.call(arguments), Ok(one_text("Echo: last", false)));
}

#[test]
fn echo_fails_without_text() {
    let failure = Err("Missing or invalid 'text' parameter".to_string());
    assert_eq!(EchoTool.call(vec![]), failure);
    assert_eq!(EchoTool.call(vec![("text".to_string(), JsonValue::integer(1))]), failure);
    assert_eq!(EchoTool.call(vec![("text".to_string(), JsonValue::Null)]), failure);
    assert_eq!(EchoTool.call(vec![("Text".to_string(), text("hi"))]), failure);
}

#[test]
fn time_tool_describes_itself_under_the_name_it_is_given() {
    let descriptor = CurrentTimeTool.definition("now".to_string());
    assert_eq!(descriptor.name, "now");
    assert_eq!(descriptor.description, Some("Returns the current timestamp".to_string()));
    assert_eq!(descriptor.input_schema, Some(empty_schema()));
}

#[test]
fn time_report_writes_the_seconds_in_decimal() {
    assert_eq!(CurrentTimeTool::report(0), one_text("Current timestamp: 0", false));
    assert_eq!(
        CurrentTimeTool::report(1_700_000_000),
        one_text("Current timestamp: 1700000000", false)
    );
    assert_eq!(
        CurrentTimeTool::report(u64::MAX),
        one_text("Current timestamp: 18446744073709551615", false)
    );
}

#[test]
fn time_tool_tells_a_time_of_this_century() {
    let before = seconds_since_epoch().expect("a clock after the epoch");
    let result = CurrentTimeTool.call(vec![("ignored".to_string(), JsonValue::Null)])
        .expect("a clock after the epoch");
    let after = seconds_since_epoch().expect("a clock after the epoch");
    assert!(before > 1_600_000_000);
    assert!(before <= after);
    assert_eq!(result.is_error, Some(false));
    assert_eq!(result.content.len(), 1);
    match &result.content[0] {
        ToolResultContent::Text { text } => {
            let digits = text.strip_prefix("Current timestamp: ").expect("the prefix");
            let told: u64 = digits.parse().expect("a decimal number");
            assert!(before <= told && told <= after);
            assert_eq!(digits, told.to_string());
        }
        other => panic!("unexpected content: {:?}", other),
    }
}

#[test]
fn static_text_describes_itself_under_the_uri_it_is_given() {
    let resource = StaticTextResource::new(
        "about".to_string(),
        "About the server".to_string(),
        "Body".to_string(),
    );
    assert_eq!(
        resource.definition("anki://about".to_string()),
        ankiconnect_mcp::protocol::payloads::Resource {
            uri: "anki://about".to_string(),
            name: "about".to_string(),
            description: Some("About the server".to_string()),
            mime_type: Some("text/plain".to_string()),
        }
    );
}

#[test]
fn static_text_reads_as_one_piece_of_plain_text() {
    let resource = StaticTextResource::new(
        "connection-help".to_string(),
        "Help".to_string(),
        "Line one\nLine two".to_string(),
    );
    assert_eq!(
        resource.read(),
        Ok(vec![ResourceContent::Text {
            uri: "static://connection-help".to_string(),
            text: "Line one\nLine two".to_string(),
            mime_type: Some("text/plain".to_string()),
        }])
    );
    assert_eq!(resource.read(), resource.read());
}

#[test]
fn static_text_may_be_empty() {
    let resource = StaticTextResource::new("".to_string(), "".to_string(), "".to_string());
    assert_eq!(
        resource.read(),
        Ok(vec![ResourceContent::Text {
            uri: "static://".to_string(),
            text: "".to_string(),
            mime_type: Some("text/plain".to_string()),
        }])
    );
}

#[test]
fn result_of_one_text_is_built_from_its_parts() {
    assert_eq!(CallToolResult::text("t".to_string(), true), one_text("t", true));
    assert_eq!(CallToolResult::text("".to_string(), false), one_text("", false));
}

#[test]
fn content_blocks_are_written_with_their_kind() {
    let result = CallToolResult {
        content: vec![
            ToolResultContent::Text { text: "plain".to_string() },
            ToolResultContent::Image {
                data: "aGVsbG8=".to_string(),
                mime_type: "image/png".to_string(),
            },
            ToolResultContent::Resource {
                resource: ResourceContent::Text {
                    uri: "mem://x".to_string(),
                    text: "body".to_string(),
                    mime_type: Some("text/plain".to_string()),
                },
            },
        ],
        is_error: Some(false),
    };
    assert_eq!(
        result.to_json(),
        object(vec![
            (
                "content",
                JsonValue::Array(vec![
                    object(vec![("type", text("text")), ("text", text("plain"))]),
                    object(vec![
                        ("type", text("image")),
                        ("data", text("aGVsbG8=")),
                        ("mimeType", text("image/png")),
                    ]),
                    object(vec![
                        ("type", text("resource")),
                        (
                            "resource",
                            object(vec![
                                ("uri", text("mem://x")),
                                ("text", text("body")),
                                ("mimeType", text("text/plain")),
                            ]),
                        ),
                    ]),
                ]),
            ),
            ("isError", JsonValue::Bool(false)),
        ])
    );
}

#[test]
fn result_without_a_flag_is_written_without_it() {
    let result = CallToolResult { content: vec![], is_error: None };
    assert_eq!(result.to_json(), object(vec![("content", JsonValue::Array(vec![]))]));
}
