//! The report on the decks of an Anki collection.
//!
//! Talking to Anki is left to whoever embeds the library.  What is here
//! takes what Anki said, as plain values, and turns it into the report: the
//! list of decks, their hierarchy, and a word on the connection.

use crate::json::{
    items_view, no_members, put, put_opt, with_opt, JsonNumber, JsonValue, JsonView,
};
use crate::protocol::payloads::{
    opt_text, opt_text_json, text_payload, CallToolResult, CallToolResultView, ContentView,
    ToolView,
};
use crate::server::tools::{build_empty_schema, empty_schema, text_result};
use crate::text::{decimal, decimal_text, join2, join3};
use vstd::prelude::*;

verus! {

/// Where the last separator `::` of a deck name starts, if the name has
/// one.
pub open spec fn last_separator(name: Seq<char>) -> Option<int>
    decreases name.len(),
{
    if name.len() < 2 {
        None
    } else if name[name.len() - 2] == ':' && name[name.len() - 1] == ':' {
        Some(name.len() - 2)
    } else {
        last_separator(name.drop_last())
    }
}

/// The name of the deck above: what stands before the last separator.
pub open spec fn parent_of(name: Seq<char>) -> Option<Seq<char>> {
    match last_separator(name) {
        Some(at) => Some(name.subrange(0, at)),
        None => None,
    }
}

/// The name of the deck without the decks above it: what stands after the
/// last separator, or the whole name where there is no separator.
pub open spec fn base_of(name: Seq<char>) -> Seq<char> {
    match last_separator(name) {
        Some(at) => name.subrange(at + 2, name.len() as int),
        None => name,
    }
}

/// Whether a deck of this name lies below another deck, as
/// `ankiconnect_rs::Deck::is_subdeck` says: whether the name holds the
/// separator `::`.
#[verifier::external_body]
fn deck_is_subdeck(id: u64, name: &str) -> (r: bool)
    ensures
        r == (last_separator(name@) is Some),
{
    ankiconnect_rs::Deck::new(id, name.to_string()).is_subdeck()
}

/// The name of the deck above, as `ankiconnect_rs::Deck::parent_name` gives
/// it: for a subdeck, what stands before the last `::` of its name.
#[verifier::external_body]
fn deck_parent_name(id: u64, name: &str) -> (r: Option<String>)
    ensures
        opt_text(r) == parent_of(name@),
{
    ankiconnect_rs::Deck::new(id, name.to_string()).parent_name().map(|parent| parent.to_string())
}

/// The name of the deck without the decks above it, as
/// `ankiconnect_rs::Deck::base_name` gives it: for a subdeck, what stands
/// after the last `::` of its name; else the name.
#[verifier::external_body]
fn deck_base_name(id: u64, name: &str) -> (r: String)
    ensures
        r@ == base_of(name@),
{
    ankiconnect_rs::Deck::new(id, name.to_string()).base_name().to_string()
}

/// How many cards of a deck are new, in learning, and due for review, and
/// how many it holds in all.
#[derive(Clone, Copy, Debug, PartialEq, Eq, Structural)]
pub struct DeckStatistics {
    pub new_count: u32,
    pub learn_count: u32,
    pub review_count: u32,
    pub total_in_deck: u32,
}

/// What the report says of one deck.
#[derive(Debug, PartialEq, Eq)]
pub struct DeckInfo {
    pub id: String,
    pub name: String,
    /// `root` or `subdeck`.
    pub deck_type: String,
    pub parent_name: Option<String>,
    pub base_name: String,
    pub statistics: Option<DeckStatistics>,
    pub card_count: Option<usize>,
    pub cards_available: bool,
}

/// The mathematical value of a [`DeckInfo`].
pub struct DeckInfoView {
    pub id: Seq<char>,
    pub name: Seq<char>,
    pub deck_type: Seq<char>,
    pub parent_name: Option<Seq<char>>,
    pub base_name: Seq<char>,
    pub statistics: Option<DeckStatistics>,
    pub card_count: Option<usize>,
    pub cards_available: bool,
}

impl View for DeckInfo {
    type V = DeckInfoView;

    open spec fn view(&self) -> DeckInfoView {
        DeckInfoView {
            id: self.id@,
            name: self.name@,
            deck_type: self.deck_type@,
            parent_name: opt_text(self.parent_name),
            base_name: self.base_name@,
            statistics: self.statistics,
            card_count: self.card_count,
            cards_available: self.cards_available,
        }
    }
}

/// What Anki said of one deck: its identifier and name, and, where Anki
/// answered, its statistics and the number of its cards.
#[derive(Debug, PartialEq, Eq)]
pub struct DeckProbe {
    pub id: u64,
    pub name: String,
    pub statistics: Option<DeckStatistics>,
    pub card_count: Option<usize>,
}

/// The mathematical value of a [`DeckProbe`].
pub struct ProbeView {
    pub id: u64,
    pub name: Seq<char>,
    pub statistics: Option<DeckStatistics>,
    pub card_count: Option<usize>,
}

impl View for DeckProbe {
    type V = ProbeView;

    open spec fn view(&self) -> ProbeView {
        ProbeView {
            id: self.id,
            name: self.name@,
            statistics: self.statistics,
            card_count: self.card_count,
        }
    }
}

/// What Anki said of its decks, one by one.
pub open spec fn probes_view(probes: Vec<DeckProbe>) -> Seq<ProbeView> {
    Seq::new(probes.len() as nat, |i: int| probes[i]@)
}

/// What the report says of a deck of which only identifier and name are
/// known.
pub open spec fn deck_outline(id: u64, name: Seq<char>) -> DeckInfoView {
    DeckInfoView {
        id: decimal(id as nat),
        name,
        deck_type: if last_separator(name) is Some {
            "subdeck"@
        } else {
            "root"@
        },
        parent_name: parent_of(name),
        base_name: base_of(name),
        statistics: None,
        card_count: None,
        cards_available: false,
    }
}

/// What the report says of a deck, given what Anki said of it.  The cards
/// count as available where Anki gave their number.
pub open spec fn deck_described(id: u64, name: Seq<char>, statistics: Option<DeckStatistics>, card_count: Option<usize>) -> DeckInfoView {
    DeckInfoView {
        statistics,
        card_count,
        cards_available: card_count is Some,
        ..deck_outline(id, name)
    }
}

/// The tool that reports on the decks of an Anki collection.
pub struct ListDecksTool;

impl ListDecksTool {
    /// What the report says of a deck of which only identifier and name are
    /// known: statistics and cards are yet to be filled in.
    pub fn convert_deck(&self, id: u64, name: &str) -> (info: DeckInfo)
        ensures
            info@ == deck_outline(id, name@),
    {
        let deck_type = if deck_is_subdeck(id, name) {
            "subdeck".to_owned()
        } else {
            "root".to_owned()
        };
        DeckInfo {
            id: decimal_text(id),
            name: name.to_owned(),
            deck_type,
            parent_name: deck_parent_name(id, name),
            base_name: deck_base_name(id, name),
            statistics: None,
            card_count: None,
            cards_available: false,
        }
    }

    /// What the report says of a deck, given what Anki said of it.
    pub fn describe_deck(&self, probe: &DeckProbe) -> (info: DeckInfo)
        ensures
            info@ == deck_described(probe.id, probe.name@, probe.statistics, probe.card_count),
    {
        let mut info = self.convert_deck(probe.id, probe.name.as_str());
        info.statistics = probe.statistics;
        info.card_count = probe.card_count;
        info.cards_available = probe.card_count.is_some();
        info
    }
}


/// A deck in the tree of decks, as Anki gives it: identifier, name, and the
/// decks below.
#[derive(Debug, PartialEq, Eq)]
pub struct DeckTreeNode {
    pub id: u64,
    pub name: String,
    pub children: Vec<DeckTreeNode>,
}

/// The mathematical value of a [`DeckTreeNode`].
pub struct DeckTreeView {
    pub id: u64,
    pub name: Seq<char>,
    pub children: Seq<DeckTreeView>,
}

impl View for DeckTreeNode {
    type V = DeckTreeView;

    open spec fn view(&self) -> DeckTreeView
        decreases self,
    {
        DeckTreeView {
            id: self.id,
            name: self.name@,
            children: Seq::new(
                self.children.len() as nat,
                |i: int|
                    if 0 <= i < self.children.len() {
                        self.children[i]@
                    } else {
                        DeckTreeView { id: 0, name: Seq::empty(), children: Seq::empty() }
                    },
            ),
        }
    }
}

/// A deck in the hierarchy of the report: name, identifier in decimal
/// notation, and the decks below.
#[derive(Debug, PartialEq, Eq)]
pub struct DeckHierarchyNode {
    pub name: String,
    pub id: String,
    pub children: Vec<DeckHierarchyNode>,
}

/// The mathematical value of a [`DeckHierarchyNode`].
pub struct DeckHierarchyView {
    pub name: Seq<char>,
    pub id: Seq<char>,
    pub children: Seq<DeckHierarchyView>,
}

impl View for DeckHierarchyNode {
    type V = DeckHierarchyView;

    open spec fn view(&self) -> DeckHierarchyView
        decreases self,
    {
        DeckHierarchyView {
            name: self.name@,
            id: self.id@,
            children: Seq::new(
                self.children.len() as nat,
                |i: int|
                    if 0 <= i < self.children.len() {
                        self.children[i]@
                    } else {
                        DeckHierarchyView {
                            name: Seq::empty(),
                            id: Seq::empty(),
                            children: Seq::empty(),
                        }
                    },
            ),
        }
    }
}

/// The nodes of a list of trees, one by one.
pub open spec fn trees_view(nodes: Vec<DeckTreeNode>) -> Seq<DeckTreeView> {
    Seq::new(nodes.len() as nat, |i: int| nodes[i]@)
}

/// The nodes of a hierarchy, one by one.
pub open spec fn hierarchy_view(nodes: Vec<DeckHierarchyNode>) -> Seq<DeckHierarchyView> {
    Seq::new(nodes.len() as nat, |i: int| nodes[i]@)
}

/// A tree node is viewed field by field.
pub proof fn lemma_tree_view(node: DeckTreeNode)
    ensures
        node@ == (DeckTreeView {
            id: node.id,
            name: node.name@,
            children: trees_view(node.children),
        }),
{
    reveal_with_fuel(<DeckTreeNode as View>::view, 2);
    assert(node@.children =~= trees_view(node.children));
}

/// A hierarchy node is viewed field by field.
pub proof fn lemma_hierarchy_view(node: DeckHierarchyNode)
    ensures
        node@ == (DeckHierarchyView {
            name: node.name@,
            id: node.id@,
            children: hierarchy_view(node.children),
        }),
{
    reveal_with_fuel(<DeckHierarchyNode as View>::view, 2);
    assert(node@.children =~= hierarchy_view(node.children));
}

/// The node of the report for a node of Anki's tree: the same name, the
/// identifier in decimal notation, and the same for the decks below.
pub open spec fn tree_converted(node: DeckTreeView) -> DeckHierarchyView
    decreases node,
{
    DeckHierarchyView {
        name: node.name,
        id: decimal(node.id as nat),
        children: Seq::new(
            node.children.len(),
            |i: int|
                if 0 <= i < node.children.len() {
                    tree_converted(node.children[i])
                } else {
                    DeckHierarchyView {
                        name: Seq::empty(),
                        id: Seq::empty(),
                        children: Seq::empty(),
                    }
                },
        ),
    }
}

/// The hierarchy of the report for a list of Anki's trees.
pub open spec fn trees_converted(nodes: Seq<DeckTreeView>) -> Seq<DeckHierarchyView> {
    Seq::new(nodes.len(), |i: int| tree_converted(nodes[i]))
}

/// A converted node holds the converted nodes of the decks below.
pub proof fn lemma_tree_converted(node: DeckTreeView)
    ensures
        tree_converted(node) == (DeckHierarchyView {
            name: node.name,
            id: decimal(node.id as nat),
            children: trees_converted(node.children),
        }),
{
    reveal_with_fuel(tree_converted, 2);
    assert(tree_converted(node).children =~= trees_converted(node.children));
}

impl ListDecksTool {
    /// The node of the report for a node of Anki's tree.
    pub fn convert_tree_node(&self, node: &DeckTreeNode) -> (r: DeckHierarchyNode)
        ensures
            r@ == tree_converted(node@),
        decreases node,
    {
        let mut children: Vec<DeckHierarchyNode> = Vec::new();
        let mut i: usize = 0;
        while i < node.children.len()
            invariant
                i <= node.children.len(),
                children.len() == i,
                forall|j: int| 0 <= j < i ==> children[j]@ == tree_converted(node.children[j]@),
                forall|j: int|
                    0 <= j < node.children.len() ==> decreases_to!(node => node.children[j]),
            decreases node.children.len() - i,
        {
            let child = self.convert_tree_node(&node.children[i]);
            children.push(child);
            i = i + 1;
        }
        let r = DeckHierarchyNode { name: node.name.clone(), id: decimal_text(node.id), children };
        proof {
            lemma_tree_view(*node);
            lemma_tree_converted(node@);
            lemma_hierarchy_view(r);
            assert(hierarchy_view(r.children) =~= trees_converted(trees_view(node.children)));
        }
        r
    }

    /// The hierarchy of the report for a list of Anki's trees.
    pub fn convert_trees(&self, nodes: &Vec<DeckTreeNode>) -> (r: Vec<DeckHierarchyNode>)
        ensures
            hierarchy_view(r) == trees_converted(trees_view(*nodes)),
    {
        let mut converted: Vec<DeckHierarchyNode> = Vec::new();
        let mut i: usize = 0;
        while i < nodes.len()
            invariant
                i <= nodes.len(),
                converted.len() == i,
                forall|j: int| 0 <= j < i ==> converted[j]@ == tree_converted(nodes[j]@),
            decreases nodes.len() - i,
        {
            converted.push(self.convert_tree_node(&nodes[i]));
            i = i + 1;
        }
        assert(hierarchy_view(converted) =~= trees_converted(trees_view(*nodes)));
        converted
    }
}


/// A word on the connection to Anki.
#[derive(Debug, PartialEq, Eq)]
pub struct ConnectionInfo {
    pub ankiconnect_version: Option<String>,
    pub total_decks: usize,
    /// Seconds since the Unix epoch.
    pub timestamp: u64,
    pub connection_successful: bool,
}

/// The mathematical value of a [`ConnectionInfo`].
pub struct ConnectionInfoView {
    pub ankiconnect_version: Option<Seq<char>>,
    pub total_decks: usize,
    pub timestamp: u64,
    pub connection_successful: bool,
}

impl View for ConnectionInfo {
    type V = ConnectionInfoView;

    open spec fn view(&self) -> ConnectionInfoView {
        ConnectionInfoView {
            ankiconnect_version: opt_text(self.ankiconnect_version),
            total_decks: self.total_decks,
            timestamp: self.timestamp,
            connection_successful: self.connection_successful,
        }
    }
}

/// The report on the decks of a collection.
#[derive(Debug, PartialEq, Eq)]
pub struct ListDecksResponse {
    pub decks: Vec<DeckInfo>,
    pub hierarchy: Option<Vec<DeckHierarchyNode>>,
    pub connection_info: ConnectionInfo,
}

/// The mathematical value of a [`ListDecksResponse`].
pub struct ListDecksView {
    pub decks: Seq<DeckInfoView>,
    pub hierarchy: Option<Seq<DeckHierarchyView>>,
    pub connection_info: ConnectionInfoView,
}

/// The decks of a report, one by one.
pub open spec fn decks_view(decks: Vec<DeckInfo>) -> Seq<DeckInfoView> {
    Seq::new(decks.len() as nat, |i: int| decks[i]@)
}

impl View for ListDecksResponse {
    type V = ListDecksView;

    open spec fn view(&self) -> ListDecksView {
        ListDecksView {
            decks: decks_view(self.decks),
            hierarchy: match self.hierarchy {
                Some(nodes) => Some(hierarchy_view(nodes)),
                None => None,
            },
            connection_info: self.connection_info@,
        }
    }
}

/// What the report says of the decks, given what Anki said of each.
pub open spec fn probes_described(probes: Seq<ProbeView>) -> Seq<DeckInfoView> {
    Seq::new(
        probes.len(),
        |i: int|
            deck_described(
                probes[i].id,
                probes[i].name,
                probes[i].statistics,
                probes[i].card_count,
            ),
    )
}

/// The value of a tree of decks where Anki gave one.
pub open spec fn opt_trees_view(tree: Option<Vec<DeckTreeNode>>) -> Option<Seq<DeckTreeView>> {
    match tree {
        Some(nodes) => Some(trees_view(nodes)),
        None => None,
    }
}

/// The report made of what Anki said: its version, its decks, its tree of
/// decks where it gave one, and the time of the report.
pub open spec fn report_assembled(
    version: u16,
    probes: Seq<ProbeView>,
    tree: Option<Seq<DeckTreeView>>,
    timestamp: u64,
) -> ListDecksView {
    ListDecksView {
        decks: probes_described(probes),
        hierarchy: match tree {
            Some(nodes) => Some(trees_converted(nodes)),
            None => None,
        },
        connection_info: ConnectionInfoView {
            ankiconnect_version: Some(decimal(version as nat)),
            total_decks: probes.len() as usize,
            timestamp,
            connection_successful: true,
        },
    }
}

/// The failure to report where Anki does not answer at all.
pub open spec fn connection_failure(cause: Seq<char>) -> Seq<char> {
    "Failed to connect to AnkiConnect. Please ensure Anki is running and AnkiConnect plugin is installed. Error: "@
        + cause
}

/// The failure to report where Anki does not give its decks.
pub open spec fn decks_failure(cause: Seq<char>) -> Seq<char> {
    "Failed to retrieve decks from Anki: "@ + cause
}

/// The failure to report where the report cannot be written as text.
pub open spec fn serialize_failure(cause: Seq<char>) -> Seq<char> {
    "Failed to serialize response: "@ + cause
}

/// The text shown in place of the report where it could not be made.
pub open spec fn trouble_text(failure: Seq<char>) -> Seq<char> {
    "Error connecting to Anki: "@ + failure
        + "\n\nTroubleshooting:\n1. Ensure Anki is running\n2. Install AnkiConnect plugin (code: 2055492159)\n3. Verify AnkiConnect is accessible on localhost:8765\n4. Restart Anki if the plugin was just installed"@
}

/// What the tool hands back: the report as text, or, where the report
/// could not be made, advice on the failure, flagged as an error.
pub open spec fn report_result(outcome: Result<Seq<char>, Seq<char>>) -> CallToolResultView {
    match outcome {
        Ok(report) => text_result(report),
        Err(failure) => CallToolResultView {
            content: seq![ContentView::Text { text: trouble_text(failure) }],
            is_error: Some(true),
        },
    }
}

impl ListDecksTool {
    /// The descriptor of the tool as registered under `name`.
    pub fn definition(&self, name: String) -> (descriptor: crate::protocol::payloads::Tool)
        ensures
            descriptor@ == (ToolView {
                name: name@,
                description: Some(
                    "Lists all Anki decks with statistics, hierarchy, and card information"@,
                ),
                input_schema: Some(empty_schema()),
            }),
    {
        crate::protocol::payloads::Tool {
            name,
            description: Some(
                "Lists all Anki decks with statistics, hierarchy, and card information".to_owned(),
            ),
            input_schema: Some(build_empty_schema()),
        }
    }

    /// The failure to report where Anki does not answer at all.
    pub fn connection_failure(&self, cause: &str) -> (r: String)
        ensures
            r@ == connection_failure(cause@),
    {
        join2(
            "Failed to connect to AnkiConnect. Please ensure Anki is running and AnkiConnect plugin is installed. Error: ",
            cause,
        )
    }

    /// The failure to report where Anki does not give its decks.
    pub fn decks_failure(&self, cause: &str) -> (r: String)
        ensures
            r@ == decks_failure(cause@),
    {
        join2("Failed to retrieve decks from Anki: ", cause)
    }

    /// The failure to report where the report cannot be written as text.
    pub fn serialize_failure(&self, cause: &str) -> (r: String)
        ensures
            r@ == serialize_failure(cause@),
    {
        join2("Failed to serialize response: ", cause)
    }

    /// Makes the report of what Anki said.
    pub fn assemble(
        &self,
        version: u16,
        probes: &Vec<DeckProbe>,
        tree: &Option<Vec<DeckTreeNode>>,
        timestamp: u64,
    ) -> (report: ListDecksResponse)
        ensures
            report@ == report_assembled(
                version,
                probes_view(*probes),
                opt_trees_view(*tree),
                timestamp,
            ),
    {
        let mut decks: Vec<DeckInfo> = Vec::new();
        let mut i: usize = 0;
        while i < probes.len()
            invariant
                i <= probes.len(),
                decks.len() == i,
                forall|j: int|
                    0 <= j < i ==> decks[j]@ == deck_described(
                        probes[j].id,
                        probes[j].name@,
                        probes[j].statistics,
                        probes[j].card_count,
                    ),
            decreases probes.len() - i,
        {
            decks.push(self.describe_deck(&probes[i]));
            i = i + 1;
        }
        assert(decks_view(decks) =~= probes_described(probes_view(*probes)));
        let hierarchy = match tree {
            Some(nodes) => Some(self.convert_trees(nodes)),
            None => None,
        };
        let connection_info = ConnectionInfo {
            ankiconnect_version: Some(decimal_text(version as u64)),
            total_decks: probes.len(),
            timestamp,
            connection_successful: true,
        };
        ListDecksResponse { decks, hierarchy, connection_info }
    }

    /// What the tool hands back: the report as text, or, where the report
    /// could not be made, advice on the failure, flagged as an error.
    pub fn report(&self, outcome: Result<String, String>) -> (r: CallToolResult)
        ensures
            r@ == report_result(
                match outcome {
                    Ok(report) => Ok(report@),
                    Err(failure) => Err(failure@),
                },
            ),
    {
        match outcome {
            Ok(report) => CallToolResult::text(report, false),
            Err(failure) => CallToolResult::text(
                join3(
                    "Error connecting to Anki: ",
                    failure.as_str(),
                    "\n\nTroubleshooting:\n1. Ensure Anki is running\n2. Install AnkiConnect plugin (code: 2055492159)\n3. Verify AnkiConnect is accessible on localhost:8765\n4. Restart Anki if the plugin was just installed",
                ),
                true,
            ),
        }
    }
}

/// The JSON number for a count.
pub open spec fn count_json(n: int) -> JsonView {
    JsonView::Number(JsonNumber::Integer(n as i128))
}

/// The JSON form of the statistics of a deck.
pub open spec fn statistics_json(statistics: DeckStatistics) -> JsonView {
    JsonView::Object(
        Seq::<(Seq<char>, JsonView)>::empty().push(
            ("new_count"@, count_json(statistics.new_count as int)),
        ).push(("learn_count"@, count_json(statistics.learn_count as int))).push(
            ("review_count"@, count_json(statistics.review_count as int)),
        ).push(("total_in_deck"@, count_json(statistics.total_in_deck as int))),
    )
}

/// The JSON form of what the report says of one deck.  Absent members are
/// left out.
pub open spec fn deck_json(deck: DeckInfoView) -> JsonView {
    JsonView::Object(
        with_opt(
            with_opt(
                with_opt(
                    Seq::<(Seq<char>, JsonView)>::empty().push(
                        ("id"@, JsonView::String(deck.id)),
                    ).push(("name"@, JsonView::String(deck.name))).push(
                        ("deck_type"@, JsonView::String(deck.deck_type)),
                    ),
                    "parent_name"@,
                    opt_text_json(deck.parent_name),
                ).push(("base_name"@, JsonView::String(deck.base_name))),
                "statistics"@,
                match deck.statistics {
                    Some(statistics) => Some(statistics_json(statistics)),
                    None => None,
                },
            ),
            "card_count"@,
            match deck.card_count {
                Some(n) => Some(count_json(n as int)),
                None => None,
            },
        ).push(("cards_available"@, JsonView::Bool(deck.cards_available))),
    )
}

/// The JSON form of a node of the hierarchy.
pub open spec fn hierarchy_json(node: DeckHierarchyView) -> JsonView
    decreases node,
{
    JsonView::Object(
        Seq::<(Seq<char>, JsonView)>::empty().push(("name"@, JsonView::String(node.name))).push(
            ("id"@, JsonView::String(node.id)),
        ).push(
            (
                "children"@,
                JsonView::Array(
                    Seq::new(
                        node.children.len(),
                        |i: int|
                            if 0 <= i < node.children.len() {
                                hierarchy_json(node.children[i])
                            } else {
                                JsonView::Null
                            },
                    ),
                ),
            ),
        ),
    )
}

/// The JSON forms of the nodes of a hierarchy.
pub open spec fn hierarchies_json(nodes: Seq<DeckHierarchyView>) -> Seq<JsonView> {
    Seq::new(nodes.len(), |i: int| hierarchy_json(nodes[i]))
}

/// The JSON form of a node holds the JSON forms of the nodes below.
pub proof fn lemma_hierarchy_json(node: DeckHierarchyView)
    ensures
        hierarchy_json(node) == JsonView::Object(
            Seq::<(Seq<char>, JsonView)>::empty().push(
                ("name"@, JsonView::String(node.name)),
            ).push(("id"@, JsonView::String(node.id))).push(
                ("children"@, JsonView::Array(hierarchies_json(node.children))),
            ),
        ),
{
    reveal_with_fuel(hierarchy_json, 2);
    let members = hierarchy_json(node)->Object_0;
    assert(members[2].1->Array_0 =~= hierarchies_json(node.children));
}

/// The JSON form of the word on the connection.
pub open spec fn connection_json(info: ConnectionInfoView) -> JsonView {
    JsonView::Object(
        with_opt(
            Seq::<(Seq<char>, JsonView)>::empty(),
            "ankiconnect_version"@,
            opt_text_json(info.ankiconnect_version),
        ).push(("total_decks"@, count_json(info.total_decks as int))).push(
            ("timestamp"@, count_json(info.timestamp as int)),
        ).push(("connection_successful"@, JsonView::Bool(info.connection_successful))),
    )
}

/// The JSON form of the report.
pub open spec fn report_json(report: ListDecksView) -> JsonView {
    JsonView::Object(
        with_opt(
            Seq::<(Seq<char>, JsonView)>::empty().push(
                ("decks"@, JsonView::Array(report.decks.map_values(|d: DeckInfoView| deck_json(d)))),
            ),
            "hierarchy"@,
            match report.hierarchy {
                Some(nodes) => Some(JsonView::Array(hierarchies_json(nodes))),
                None => None,
            },
        ).push(("connection_info"@, connection_json(report.connection_info))),
    )
}

/// The JSON number for a count.
pub fn count_value(n: u64) -> (r: JsonValue)
    ensures
        r@ == count_json(n as int),
{
    JsonValue::Number(JsonNumber::Integer(n as i128))
}

impl DeckStatistics {
    /// Writes the statistics as a JSON value.
    pub fn to_json(&self) -> (r: JsonValue)
        ensures
            r@ == statistics_json(*self),
    {
        let mut members = no_members();
        put(&mut members, "new_count", count_value(self.new_count as u64));
        put(&mut members, "learn_count", count_value(self.learn_count as u64));
        put(&mut members, "review_count", count_value(self.review_count as u64));
        put(&mut members, "total_in_deck", count_value(self.total_in_deck as u64));
        JsonValue::object(members)
    }
}

impl DeckInfo {
    /// Writes what the report says of the deck as a JSON value.
    pub fn to_json(&self) -> (r: JsonValue)
        ensures
            r@ == deck_json(self@),
    {
        let mut members = no_members();
        put(&mut members, "id", JsonValue::String(self.id.clone()));
        put(&mut members, "name", JsonValue::String(self.name.clone()));
        put(&mut members, "deck_type", JsonValue::String(self.deck_type.clone()));
        put_opt(&mut members, "parent_name", text_payload(&self.parent_name));
        put(&mut members, "base_name", JsonValue::String(self.base_name.clone()));
        let statistics = match self.statistics {
            Some(statistics) => Some(statistics.to_json()),
            None => None,
        };
        put_opt(&mut members, "statistics", statistics);
        let card_count = match self.card_count {
            Some(n) => Some(count_value(n as u64)),
            None => None,
        };
        put_opt(&mut members, "card_count", card_count);
        put(&mut members, "cards_available", JsonValue::Bool(self.cards_available));
        JsonValue::object(members)
    }
}

impl DeckHierarchyNode {
    /// Writes the node, with the nodes below, as a JSON value.
    pub fn to_json(&self) -> (r: JsonValue)
        ensures
            r@ == hierarchy_json(self@),
        decreases self,
    {
        let mut items: Vec<JsonValue> = Vec::new();
        let mut i: usize = 0;
        while i < self.children.len()
            invariant
                i <= self.children.len(),
                items.len() == i,
                forall|j: int| 0 <= j < i ==> items[j]@ == hierarchy_json(self.children[j]@),
                forall|j: int|
                    0 <= j < self.children.len() ==> decreases_to!(self => self.children[j]),
            decreases self.children.len() - i,
        {
            let item = self.children[i].to_json();
            items.push(item);
            i = i + 1;
        }
        proof {
            lemma_hierarchy_view(*self);
            lemma_hierarchy_json(self@);
            assert(items_view(items) =~= hierarchies_json(hierarchy_view(self.children)));
        }
        let mut members = no_members();
        put(&mut members, "name", JsonValue::String(self.name.clone()));
        put(&mut members, "id", JsonValue::String(self.id.clone()));
        put(&mut members, "children", JsonValue::array(items));
        JsonValue::object(members)
    }
}

impl ConnectionInfo {
    /// Writes the word on the connection as a JSON value.
    pub fn to_json(&self) -> (r: JsonValue)
        ensures
            r@ == connection_json(self@),
    {
        let mut members = no_members();
        put_opt(&mut members, "ankiconnect_version", text_payload(&self.ankiconnect_version));
        put(&mut members, "total_decks", count_value(self.total_decks as u64));
        put(&mut members, "timestamp", count_value(self.timestamp));
        put(&mut members, "connection_successful", JsonValue::Bool(self.connection_successful));
        JsonValue::object(members)
    }
}

impl ListDecksResponse {
    /// Writes the report as a JSON value.
    pub fn to_json(&self) -> (r: JsonValue)
        ensures
            r@ == report_json(self@),
    {
        let mut decks: Vec<JsonValue> = Vec::new();
        let mut i: usize = 0;
        while i < self.decks.len()
            invariant
                i <= self.decks.len(),
                decks.len() == i,
                forall|j: int| 0 <= j < i ==> decks[j]@ == deck_json(self.decks[j]@),
            decreases self.decks.len() - i,
        {
            decks.push(self.decks[i].to_json());
            i = i + 1;
        }
        assert(items_view(decks) =~= self@.decks.map_values(|d: DeckInfoView| deck_json(d)));
        let hierarchy = match &self.hierarchy {
            Some(nodes) => {
                let mut items: Vec<JsonValue> = Vec::new();
                let mut k: usize = 0;
                while k < nodes.len()
                    invariant
                        k <= nodes.len(),
                        items.len() == k,
                        forall|j: int| 0 <= j < k ==> items[j]@ == hierarchy_json(nodes[j]@),
                    decreases nodes.len() - k,
                {
                    items.push(nodes[k].to_json());
                    k = k + 1;
                }
                assert(items_view(items) =~= hierarchies_json(hierarchy_view(*nodes)));
                Some(JsonValue::array(items))
            },
            None => None,
        };
        let mut members = no_members();
        put(&mut members, "decks", JsonValue::array(decks));
        put_opt(&mut members, "hierarchy", hierarchy);
        put(&mut members, "connection_info", self.connection_info.to_json());
        JsonValue::object(members)
    }
}

} // verus!
