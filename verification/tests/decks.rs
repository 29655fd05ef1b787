use ankiconnect_mcp::json::JsonValue;
use ankiconnect_mcp::protocol::payloads::{CallToolResult, ToolResultContent};
use ankiconnect_mcp::server::anki_tools::{
    ConnectionInfo, DeckHierarchyNode, DeckInfo, DeckProbe, DeckStatistics, DeckTreeNode,
    ListDecksResponse, ListDecksTool,
};

fn text(s: &str) -> JsonValue {
    JsonValue::String(s.to_string())
}

fn object(members: Vec<(&str, JsonValue)>) -> JsonValue {
    JsonValue::Object(members.into_iter().map(|(k, v)| (k.to_string(), v)).collect())
}

fn outline(id: &str, name: &str, kind: &str, parent: Option<&str>, base: &str) -> DeckInfo {
    DeckInfo {
        id: id.to_string(),
        name: name.to_string(),
        deck_type: kind.to_string(),
        parent_name: parent.map(|p| p.to_string()),
        base_name: base.to_string(),
        statistics: None,
        card_count: None,
        cards_available: false,
    }
}

fn leaf(id: u64, name: &str) -> DeckTreeNode {
    DeckTreeNode { id, name: name.to_string(), children: vec![] }
}

#[test]
fn root_deck_has_no_parent() {
    let info = ListDecksTool.convert_deck(1, "Default");
    assert_eq!(info, outline("1", "Default", "root", None, "Default"));
}

#[test]
fn subdeck_is_split_at_the_last_separator() {
    let info = ListDecksTool.convert_deck(1700000000123, "Languages::Japanese::Kanji");
    assert_eq!(
        info,
        outline(
            "1700000000123",
            "Languages::Japanese::Kanji",
            "subdeck",
            Some("Languages::Japanese"),
            "Kanji"
        )
    );
}

#[test]
fn deck_names_with_odd_separators_are_split_like_the_client_library_does() {
    let cases = [
        ("a::b", "subdeck", Some("a"), "b"),
        ("a:::b", "subdeck", Some("a:"), "b"),
        ("a::::b", "subdeck", Some("a::"), "b"),
        ("::", "subdeck", Some(""), ""),
        ("a::", "subdeck", Some("a"), ""),
        ("::b", "subdeck", Some(""), "b"),
        ("a:b", "root", None, "a:b"),
        (":", "root", None, ":"),
        ("", "root", None, ""),
        ("é::ü", "subdeck", Some("é"), "ü"),
    ];
    for (name, kind, parent, base) in cases {
        let info = ListDecksTool.convert_deck(0, name);
        assert_eq!(info, outline("0", name, kind, parent, base), "for {:?}", name);
        let deck = ankiconnect_rs::Deck::new(0, name.to_string());
        assert_eq!(info.deck_type == "subdeck", deck.is_subdeck());
        assert_eq!(info.parent_name.as_deref(), deck.parent_name());
        assert_eq!(info.base_name, deck.base_name());
    }
}

#[test]
fn deck_id_is_written_in_decimal() {
    assert_eq!(ListDecksTool.convert_deck(0, "d").id, "0");
    assert_eq!(ListDecksTool.convert_deck(u64::MAX, "d").id, "18446744073709551615");
}

#[test]
fn described_deck_carries_what_anki_said() {
    let statistics =
        DeckStatistics { new_count: 1, learn_count: 2, review_count: 3, total_in_deck: 40 };
    let probe = DeckProbe {
        id: 12,
        name: "A::B".to_string(),
        statistics: Some(statistics),
        card_count: Some(40),
    };
    assert_eq!(
        ListDecksTool.describe_deck(&probe),
        DeckInfo {
            id: "12".to_string(),
            name: "A::B".to_string(),
            deck_type: "subdeck".to_string(),
            parent_name: Some("A".to_string()),
            base_name: "B".to_string(),
            statistics: Some(statistics),
            card_count: Some(40),
            cards_available: true,
        }
    );
}

#[test]
fn deck_without_cards_information_has_no_cards_available() {
    let probe = DeckProbe { id: 12, name: "A".to_string(), statistics: None, card_count: None };
    let info = ListDecksTool.describe_deck(&probe);
    assert_eq!(info, outline("12", "A", "root", None, "A"));
    let empty = DeckProbe { id: 12, name: "A".to_string(), statistics: None, card_count: Some(0) };
    let info = ListDecksTool.describe_deck(&empty);
    assert_eq!(info.card_count, Some(0));
    assert!(info.cards_available);
}

#[test]
fn tree_is_converted_node_by_node() {
    let tree = DeckTreeNode {
        id: 1,
        name: "Languages".to_string(),
        children: vec![
            DeckTreeNode { id: 20, name: "Japanese".to_string(), children: vec![leaf(300, "Kanji")] },
            leaf(21, "French"),
        ],
    };
    assert_eq!(
        ListDecksTool.convert_tree_node(&tree),
        DeckHierarchyNode {
            name: "Languages".to_string(),
            id: "1".to_string(),
            children: vec![
                DeckHierarchyNode {
                    name: "Japanese".to_string(),
                    id: "20".to_string(),
                    children: vec![DeckHierarchyNode {
                        name: "Kanji".to_string(),
                        id: "300".to_string(),
                        children: vec![],
                    }],
                },
                DeckHierarchyNode {
                    name: "French".to_string(),
                    id: "21".to_string(),
                    children: vec![],
                },
            ],
        }
    );
}

#[test]
fn list_of_trees_is_converted_in_order() {
    let converted = ListDecksTool.convert_trees(&vec![leaf(2, "b"), leaf(1, "a")]);
    assert_eq!(
        converted,
        vec![
            DeckHierarchyNode { name: "b".to_string(), id: "2".to_string(), children: vec![] },
            DeckHierarchyNode { name: "a".to_string(), id: "1".to_string(), children: vec![] },
        ]
    );
    assert_eq!(ListDecksTool.convert_trees(&vec![]), vec![]);
}

#[test]
fn report_is_assembled_from_what_anki_said() {
    let statistics =
        DeckStatistics { new_count: 5, learn_count: 0, review_count: 7, total_in_deck: 99 };
    let probes = vec![
        DeckProbe { id: 1, name: "Default".to_string(), statistics: Some(statistics), card_count: Some(99) },
        DeckProbe { id: 2, name: "Default::Sub".to_string(), statistics: None, card_count: None },
    ];
    let tree = Some(vec![DeckTreeNode {
        id: 1,
        name: "Default".to_string(),
        children: vec![leaf(2, "Sub")],
    }]);
    let report = ListDecksTool.assemble(6, &probes, &tree, 1_700_000_000);
    assert_eq!(
        report,
        ListDecksResponse {
            decks: vec![
                DeckInfo {
                    id: "1".to_string(),
                    name: "Default".to_string(),
                    deck_type: "root".to_string(),
                    parent_name: None,
                    base_name: "Default".to_string(),
                    statistics: Some(statistics),
                    card_count: Some(99),
                    cards_available: true,
                },
                outline("2", "Default::Sub", "subdeck", Some("Default"), "Sub"),
            ],
            hierarchy: Some(vec![DeckHierarchyNode {
                name: "Default".to_string(),
                id: "1".to_string(),
                children: vec![DeckHierarchyNode {
                    name: "Sub".to_string(),
                    id: "2".to_string(),
                    children: vec![],
                }],
            }]),
            connection_info: ConnectionInfo {
                ankiconnect_version: Some("6".to_string()),
                total_decks: 2,
                timestamp: 1_700_000_000,
                connection_successful: true,
            },
        }
    );
}

#[test]
fn report_without_decks_and_tree_is_still_a_report() {
    let report = ListDecksTool.assemble(u16::MAX, &vec![], &None, 0);
    assert_eq!(
        report,
        ListDecksResponse {
            decks: vec![],
            hierarchy: None,
            connection_info: ConnectionInfo {
                ankiconnect_version: Some("65535".to_string()),
                total_decks: 0,
                timestamp: 0,
                connection_successful: true,
            },
        }
    );
}

#[test]
fn report_is_written_as_json_with_absent_members_left_out() {
    let statistics =
        DeckStatistics { new_count: 5, learn_count: 0, review_count: 7, total_in_deck: 99 };
    let probes = vec![
        DeckProbe { id: 1, name: "Default".to_string(), statistics: Some(statistics), card_count: Some(99) },
        DeckProbe { id: 2, name: "Default::Sub".to_string(), statistics: None, card_count: None },
    ];
    let tree = Some(vec![DeckTreeNode {
        id: 1,
        name: "Default".to_string(),
        children: vec![leaf(2, "Sub")],
    }]);
    let report = ListDecksTool.assemble(6, &probes, &tree, 1_700_000_000);
    assert_eq!(
        report.to_json(),
        object(vec![
            (
                "decks",
                JsonValue::Array(vec![
                    object(vec![
                        ("id", text("1")),
                        ("name", text("Default")),
                        ("deck_type", text("root")),
                        ("base_name", text("Default")),
                        (
                            "statistics",
                            object(vec![
                                ("new_count", JsonValue::integer(5)),
                                ("learn_count", JsonValue::integer(0)),
                                ("review_count", JsonValue::integer(7)),
                                ("total_in_deck", JsonValue::integer(99)),
                            ]),
                        ),
                        ("card_count", JsonValue::integer(99)),
                        ("cards_available", JsonValue::Bool(true)),
                    ]),
                    object(vec![
                        ("id", text("2")),
                        ("name", text("Default::Sub")),
                        ("deck_type", text("subdeck")),
                        ("parent_name", text("Default")),
                        ("base_name", text("Sub")),
                        ("cards_available", JsonValue::Bool(false)),
                    ]),
                ]),
            ),
            (
                "hierarchy",
                JsonValue::Array(vec![object(vec![
                    ("name", text("Default")),
                    ("id", text("1")),
                    (
                        "children",
                        JsonValue::Array(vec![object(vec![
                            ("name", text("Sub")),
                            ("id", text("2")),
                            ("children", JsonValue::Array(vec![])),
                        ])]),
                    ),
                ])]),
            ),
            (
                "connection_info",
                object(vec![
                    ("ankiconnect_version", text("6")),
                    ("total_decks", JsonValue::integer(2)),
                    ("timestamp", JsonValue::integer(1_700_000_000)),
                    ("connection_successful", JsonValue::Bool(true)),
                ]),
            ),
        ])
    );
}

#[test]
fn report_without_hierarchy_is_written_without_it() {
    let report = ListDecksTool.assemble(6, &vec![], &None, 3);
    assert_eq!(
        report.to_json(),
        object(vec![
            ("decks", JsonValue::Array(vec![])),
            (
                "connection_info",
                object(vec![
                    ("ankiconnect_version", text("6")),
                    ("total_decks", JsonValue::integer(0)),
                    ("timestamp", JsonValue::integer(3)),
                    ("connection_successful", JsonValue::Bool(true)),
                ]),
            ),
        ])
    );
    let silent = ConnectionInfo {
        ankiconnect_version: None,
        total_decks: 1,
        timestamp: u64::MAX,
        connection_successful: false,
    };
    assert_eq!(
        silent.to_json(),
        object(vec![
            ("total_decks", JsonValue::integer(1)),
            ("timestamp", JsonValue::integer(u64::MAX as i128)),
            ("connection_successful", JsonValue::Bool(false)),
        ])
    );
}

#[test]
fn tool_describes_itself_under_the_name_it_is_given() {
    let descriptor = ListDecksTool.definition("list_decks".to_string());
    assert_eq!(descriptor.name, "list_decks");
    assert_eq!(
        descriptor.description,
        Some("Lists all Anki decks with statistics, hierarchy, and card information".to_string())
    );
    assert_eq!(
        descriptor.input_schema,
        Some(object(vec![
            ("type", text("object")),
            ("properties", object(vec![])),
            ("required", JsonValue::Array(vec![])),
        ]))
    );
}

#[test]
fn successful_report_is_handed_back_as_text() {
    assert_eq!(
        ListDecksTool.report(Ok("{\n  \"decks\": []\n}".to_string())),
        CallToolResult {
            content: vec![ToolResultContent::Text { text: "{\n  \"decks\": []\n}".to_string() }],
            is_error: Some(false),
        }
    );
}

#[test]
fn failed_report_is_handed_back_as_advice() {
    assert_eq!(
        ListDecksTool.report(Err("connection refused".to_string())),
        CallToolResult {
            content: vec![ToolResultContent::Text {
                text: "Error connecting to Anki: connection refused\n\nTroubleshooting:\n1. Ensure Anki is running\n2. Install AnkiConnect plugin (code: 2055492159)\n3. Verify AnkiConnect is accessible on localhost:8765\n4. Restart Anki if the plugin was just installed".to_string(),
            }],
            is_error: Some(true),
        }
    );
}

#[test]
fn failures_are_worded_with_their_cause() {
    assert_eq!(
        ListDecksTool.connection_failure("timed out"),
        "Failed to connect to AnkiConnect. Please ensure Anki is running and AnkiConnect plugin is installed. Error: timed out"
    );
    assert_eq!(
        ListDecksTool.decks_failure("no answer"),
        "Failed to retrieve decks from Anki: no answer"
    );
    assert_eq!(
        ListDecksTool.serialize_failure("bad key"),
        "Failed to serialize response: bad key"
    );
}
