//! Two small tools: one that echoes text and one that tells the time.

use crate::json::{
    lookup, members_view, no_members, put, spec_lookup, JsonValue, JsonView,
};
use crate::protocol::payloads::{CallToolResult, CallToolResultView, ContentView, ToolView};
use crate::server::capabilities::Tool;
use crate::text::{decimal, decimal_text, join2};
use vstd::prelude::*;

verus! {

/// A schema that accepts an object with no properties.
pub open spec fn empty_schema() -> JsonView {
    JsonView::Object(
        Seq::<(Seq<char>, JsonView)>::empty().push(("type"@, JsonView::String("object"@))).push(
            ("properties"@, JsonView::Object(Seq::empty())),
        ).push(("required"@, JsonView::Array(Seq::empty()))),
    )
}

/// Builds [`empty_schema`].
pub fn build_empty_schema() -> (r: JsonValue)
    ensures
        r@ == empty_schema(),
{
    let mut schema = no_members();
    put(&mut schema, "type", JsonValue::text("object"));
    put(&mut schema, "properties", JsonValue::object(no_members()));
    let none: Vec<JsonValue> = Vec::new();
    let required = JsonValue::array(none);
    assert(required@->Array_0 =~= Seq::<JsonView>::empty());
    put(&mut schema, "required", required);
    JsonValue::object(schema)
}

/// The schema of the arguments of [`EchoTool`]: an object with one required
/// string, `text`.
pub open spec fn echo_schema() -> JsonView {
    JsonView::Object(
        Seq::<(Seq<char>, JsonView)>::empty().push(("type"@, JsonView::String("object"@))).push(
            (
                "properties"@,
                JsonView::Object(
                    Seq::<(Seq<char>, JsonView)>::empty().push(
                        (
                            "text"@,
                            JsonView::Object(
                                Seq::<(Seq<char>, JsonView)>::empty().push(
                                    ("type"@, JsonView::String("string"@)),
                                ).push(
                                    (
                                        "description"@,
                                        JsonView::String("The text to echo back"@),
                                    ),
                                ),
                            ),
                        ),
                    ),
                ),
            ),
        ).push(("required"@, JsonView::Array(seq![JsonView::String("text"@)]))),
    )
}

/// A result made of one block of text that reports no failure.
pub open spec fn text_result(text: Seq<char>) -> CallToolResultView {
    CallToolResultView { content: seq![ContentView::Text { text }], is_error: Some(false) }
}

/// What [`EchoTool`] makes of its arguments: the text of the argument
/// `text` behind the prefix `Echo: `, or a failure where there is no such
/// text.
pub open spec fn echo_outcome(arguments: Seq<(Seq<char>, JsonView)>) -> Result<
    CallToolResultView,
    Seq<char>,
> {
    match spec_lookup(arguments, "text"@) {
        Some(JsonView::String(text)) => Ok(text_result("Echo: "@ + text)),
        _ => Err("Missing or invalid 'text' parameter"@),
    }
}

/// A tool that hands back the text it is given.
pub struct EchoTool;

impl Tool for EchoTool {
    fn definition(&self, name: String) -> (descriptor: crate::protocol::payloads::Tool)
        ensures
            descriptor@ == (ToolView {
                name: name@,
                description: Some("Echoes back the provided text"@),
                input_schema: Some(echo_schema()),
            }),
    {
        let mut text = no_members();
        put(&mut text, "type", JsonValue::text("string"));
        put(&mut text, "description", JsonValue::text("The text to echo back"));
        let mut properties = no_members();
        put(&mut properties, "text", JsonValue::object(text));
        let mut names: Vec<JsonValue> = Vec::new();
        names.push(JsonValue::text("text"));
        let required = JsonValue::array(names);
        assert(required@->Array_0 =~= seq![JsonView::String("text"@)]);
        let mut schema = no_members();
        put(&mut schema, "type", JsonValue::text("object"));
        put(&mut schema, "properties", JsonValue::object(properties));
        put(&mut schema, "required", required);
        crate::protocol::payloads::Tool {
            name,
            description: Some("Echoes back the provided text".to_owned()),
            input_schema: Some(JsonValue::object(schema)),
        }
    }

    fn call(&self, arguments: Vec<(String, JsonValue)>) -> (outcome: Result<
        CallToolResult,
        String,
    >)
        ensures
            crate::server::tool_outcome_view(outcome) == echo_outcome(members_view(arguments)),
    {
        match lookup(&arguments, "text") {
            Some(JsonValue::String(text)) => Ok(
                CallToolResult::text(join2("Echo: ", text.as_str()), false),
            ),
            _ => Err("Missing or invalid 'text' parameter".to_owned()),
        }
    }
}

/// The type of a reading of the system clock, `std::time::SystemTime`.
#[verifier::external_type_specification]
#[verifier::external_body]
pub struct ExSystemTime(std::time::SystemTime);

/// Reads the system clock with `std::time::SystemTime::now`.  Nothing is
/// claimed of the reading: it is whatever the clock says.
#[verifier::external_body]
fn clock_reading() -> (now: std::time::SystemTime) {
    std::time::SystemTime::now()
}

/// The time from the Unix epoch to `reading`, by
/// `std::time::SystemTime::duration_since`, or nothing where the reading
/// lies before the epoch.  Nothing is claimed of the duration.
#[verifier::external_body]
fn time_since_epoch(reading: &std::time::SystemTime) -> (elapsed: Option<core::time::Duration>) {
    reading.duration_since(std::time::UNIX_EPOCH).ok()
}

/// `core::time::Duration::as_secs` gives the whole seconds of a duration.
/// A duration is opaque here, so nothing is claimed of the number.
pub assume_specification[ core::time::Duration::as_secs ](duration: &core::time::Duration) -> (secs:
    u64);

/// The seconds that have passed since the Unix epoch, or nothing where the
/// clock stands before the epoch.
pub fn seconds_since_epoch() -> (r: Option<u64>) {
    let reading = clock_reading();
    match time_since_epoch(&reading) {
        Some(elapsed) => Some(elapsed.as_secs()),
        None => None,
    }
}

/// A tool that tells the time.
pub struct CurrentTimeTool;

impl CurrentTimeTool {
    /// The result that tells the time `now`, given in seconds since the
    /// Unix epoch.
    pub fn report(now: u64) -> (r: CallToolResult)
        ensures
            r@ == text_result("Current timestamp: "@ + decimal(now as nat)),
    {
        let digits = decimal_text(now);
        CallToolResult::text(join2("Current timestamp: ", digits.as_str()), false)
    }
}

impl Tool for CurrentTimeTool {
    fn definition(&self, name: String) -> (descriptor: crate::protocol::payloads::Tool)
        ensures
            descriptor@ == (ToolView {
                name: name@,
                description: Some("Returns the current timestamp"@),
                input_schema: Some(empty_schema()),
            }),
    {
        crate::protocol::payloads::Tool {
            name,
            description: Some("Returns the current timestamp".to_owned()),
            input_schema: Some(build_empty_schema()),
        }
    }

    /// Tells the time.  The arguments are not looked at.  The result is
    /// what [`CurrentTimeTool::report`] makes of the clock; where the clock
    /// stands before the epoch, the call fails.
    fn call(&self, _arguments: Vec<(String, JsonValue)>) -> (outcome: Result<
        CallToolResult,
        String,
    >)
        ensures
            match outcome {
                Ok(result) => exists|now: u64|
                    result@ == text_result("Current timestamp: "@ + #[trigger] decimal(now as nat)),
                Err(failure) => failure@ == "System clock is before the Unix epoch"@,
            },
    {
        match seconds_since_epoch() {
            Some(now) => {
                let result = CurrentTimeTool::report(now);
                assert(result@ == text_result("Current timestamp: "@ + decimal(now as nat)));
                Ok(result)
            },
            None => Err("System clock is before the Unix epoch".to_owned()),
        }
    }
}

} // verus!
