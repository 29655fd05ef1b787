//! The questions that make a report on the decks, one after the other.
//!
//! Asking Anki is left to whoever embeds the library.  What is here decides
//! what to ask next, given what was answered so far, and when the report is
//! done: the version first, then the decks, then for each deck its
//! statistics and its cards, then the tree of decks, then the time.  Without
//! a version or without the decks there is no report; whatever else Anki
//! does not answer is left out of the report.

use crate::server::anki_tools::{
    connection_failure, decks_failure, opt_trees_view, probes_view, report_assembled, DeckProbe,
    DeckStatistics, DeckTreeNode, DeckTreeView, ListDecksResponse, ListDecksTool, ListDecksView,
    ProbeView,
};
use vstd::prelude::*;

verus! {

/// What is asked next.
#[derive(Debug, PartialEq, Eq)]
pub enum FetchQuestion {
    /// The version of AnkiConnect.
    Version,
    /// The identifier and the name of every deck.
    AllDecks,
    /// The statistics of the deck of this name.
    Statistics { deck: String },
    /// The number of cards in the deck of this name.
    Cards { deck: String },
    /// The tree of decks.
    Tree,
    /// The time, in seconds since the Unix epoch.
    Clock,
}

/// The mathematical value of a [`FetchQuestion`].
pub enum QuestionView {
    Version,
    AllDecks,
    Statistics { deck: Seq<char> },
    Cards { deck: Seq<char> },
    Tree,
    Clock,
}

impl View for FetchQuestion {
    type V = QuestionView;

    open spec fn view(&self) -> QuestionView {
        match self {
            FetchQuestion::Version => QuestionView::Version,
            FetchQuestion::AllDecks => QuestionView::AllDecks,
            FetchQuestion::Statistics { deck } => QuestionView::Statistics { deck: deck@ },
            FetchQuestion::Cards { deck } => QuestionView::Cards { deck: deck@ },
            FetchQuestion::Tree => QuestionView::Tree,
            FetchQuestion::Clock => QuestionView::Clock,
        }
    }
}

/// What was answered.  A version or a list of decks that could not be had
/// comes with the cause; anything else that could not be had is absent.
#[derive(Debug, PartialEq, Eq)]
pub enum FetchAnswer {
    Version(Result<u16, String>),
    AllDecks(Result<Vec<(u64, String)>, String>),
    Statistics(Option<DeckStatistics>),
    Cards(Option<usize>),
    Tree(Option<Vec<DeckTreeNode>>),
    Clock(u64),
}

/// The mathematical value of a [`FetchAnswer`].
pub enum AnswerView {
    Version(Result<u16, Seq<char>>),
    AllDecks(Result<Seq<(u64, Seq<char>)>, Seq<char>>),
    Statistics(Option<DeckStatistics>),
    Cards(Option<usize>),
    Tree(Option<Seq<DeckTreeView>>),
    Clock(u64),
}

/// The identifiers and names of a list of decks, one by one.
pub open spec fn decks_listed(decks: Vec<(u64, String)>) -> Seq<(u64, Seq<char>)> {
    Seq::new(decks.len() as nat, |i: int| (decks[i].0, decks[i].1@))
}

impl View for FetchAnswer {
    type V = AnswerView;

    open spec fn view(&self) -> AnswerView {
        match self {
            FetchAnswer::Version(Ok(version)) => AnswerView::Version(Ok(*version)),
            FetchAnswer::Version(Err(cause)) => AnswerView::Version(Err(cause@)),
            FetchAnswer::AllDecks(Ok(decks)) => AnswerView::AllDecks(Ok(decks_listed(*decks))),
            FetchAnswer::AllDecks(Err(cause)) => AnswerView::AllDecks(Err(cause@)),
            FetchAnswer::Statistics(statistics) => AnswerView::Statistics(*statistics),
            FetchAnswer::Cards(count) => AnswerView::Cards(*count),
            FetchAnswer::Tree(tree) => AnswerView::Tree(opt_trees_view(*tree)),
            FetchAnswer::Clock(now) => AnswerView::Clock(*now),
        }
    }
}

/// Which answer the fetch waits for.
#[derive(Clone, Copy, Debug, PartialEq, Eq, Structural)]
pub enum FetchStage {
    Version,
    Decks,
    Statistics,
    Cards,
    Tree,
    Clock,
}

/// A report in the making: what was answered so far, and which answer is
/// awaited.
#[derive(Debug, PartialEq, Eq)]
pub struct DeckFetch {
    stage: FetchStage,
    version: u16,
    decks: Vec<(u64, String)>,
    probes: Vec<DeckProbe>,
    statistics: Option<DeckStatistics>,
    tree: Option<Vec<DeckTreeNode>>,
}

/// The mathematical value of a [`DeckFetch`].
pub struct FetchView {
    pub stage: FetchStage,
    pub version: u16,
    /// The decks that Anki listed.
    pub decks: Seq<(u64, Seq<char>)>,
    /// What is known of the decks that are done with, in the order of the
    /// list.
    pub probes: Seq<ProbeView>,
    /// The statistics of the deck whose cards are awaited.
    pub statistics: Option<DeckStatistics>,
    pub tree: Option<Seq<DeckTreeView>>,
}

/// What is known is known of the listed decks, in their order, and while a
/// deck is asked about, there is a deck left to ask about.
pub open spec fn fetch_consistent(fetch: FetchView) -> bool {
    &&& fetch.probes.len() <= fetch.decks.len()
    &&& forall|i: int|
        0 <= i < fetch.probes.len() ==> (#[trigger] fetch.probes[i]).id == fetch.decks[i].0
            && fetch.probes[i].name == fetch.decks[i].1
    &&& (fetch.stage == FetchStage::Statistics || fetch.stage == FetchStage::Cards)
        ==> fetch.probes.len() < fetch.decks.len()
}

/// The fetch before anything is asked.
pub open spec fn fetch_begun() -> FetchView {
    FetchView {
        stage: FetchStage::Version,
        version: 0,
        decks: Seq::empty(),
        probes: Seq::empty(),
        statistics: None,
        tree: None,
    }
}

/// The question that a fetch waits to have answered.
pub open spec fn fetch_question(fetch: FetchView) -> QuestionView {
    match fetch.stage {
        FetchStage::Version => QuestionView::Version,
        FetchStage::Decks => QuestionView::AllDecks,
        FetchStage::Statistics => QuestionView::Statistics {
            deck: fetch.decks[fetch.probes.len() as int].1,
        },
        FetchStage::Cards => QuestionView::Cards { deck: fetch.decks[fetch.probes.len() as int].1 },
        FetchStage::Tree => QuestionView::Tree,
        FetchStage::Clock => QuestionView::Clock,
    }
}

/// What becomes of a fetch on an answer: it goes on, or it is done.
pub enum StepView {
    Ask(FetchView),
    Done(Result<ListDecksView, Seq<char>>),
}

/// The stage after `done` of `listed` decks are done with.
pub open spec fn stage_after(done: nat, listed: nat) -> FetchStage {
    if done < listed {
        FetchStage::Statistics
    } else {
        FetchStage::Tree
    }
}

/// What becomes of `fetch` on `answer`.
///
/// An answer to the question that is awaited moves the fetch on.  A failure
/// to give the version or the decks ends it with that failure, and the time
/// ends it with the report.  An answer to any other question is ignored.
pub open spec fn spec_step(fetch: FetchView, answer: AnswerView) -> StepView {
    match (fetch.stage, answer) {
        (FetchStage::Version, AnswerView::Version(Ok(version))) => StepView::Ask(
            FetchView { stage: FetchStage::Decks, version, ..fetch },
        ),
        (FetchStage::Version, AnswerView::Version(Err(cause))) => StepView::Done(
            Err(connection_failure(cause)),
        ),
        (FetchStage::Decks, AnswerView::AllDecks(Ok(decks))) => StepView::Ask(
            FetchView {
                stage: stage_after(0, decks.len()),
                decks,
                probes: Seq::empty(),
                statistics: None,
                ..fetch
            },
        ),
        (FetchStage::Decks, AnswerView::AllDecks(Err(cause))) => StepView::Done(
            Err(decks_failure(cause)),
        ),
        (FetchStage::Statistics, AnswerView::Statistics(statistics)) => StepView::Ask(
            FetchView { stage: FetchStage::Cards, statistics, ..fetch },
        ),
        (FetchStage::Cards, AnswerView::Cards(card_count)) => {
            let deck = fetch.decks[fetch.probes.len() as int];
            let probes = fetch.probes.push(
                ProbeView { id: deck.0, name: deck.1, statistics: fetch.statistics, card_count },
            );
            StepView::Ask(
                FetchView {
                    stage: stage_after(probes.len(), fetch.decks.len()),
                    probes,
                    statistics: None,
                    ..fetch
                },
            )
        },
        (FetchStage::Tree, AnswerView::Tree(tree)) => StepView::Ask(
            FetchView { stage: FetchStage::Clock, tree, ..fetch },
        ),
        (FetchStage::Clock, AnswerView::Clock(now)) => StepView::Done(
            Ok(report_assembled(fetch.version, fetch.probes, fetch.tree, now)),
        ),
        _ => StepView::Ask(fetch),
    }
}

/// A fetch that goes on is as consistent as it was.
pub proof fn lemma_step_consistent(fetch: FetchView, answer: AnswerView)
    requires
        fetch_consistent(fetch),
    ensures
        spec_step(fetch, answer) matches StepView::Ask(next) ==> fetch_consistent(next),
{
}

/// What becomes of a fetch on an answer: it goes on with the next question,
/// or it is done, with the report or with the failure to make one.
#[derive(Debug, PartialEq, Eq)]
pub enum FetchStep {
    Ask(DeckFetch, FetchQuestion),
    Done(Result<ListDecksResponse, String>),
}

impl View for DeckFetch {
    type V = FetchView;

    closed spec fn view(&self) -> FetchView {
        FetchView {
            stage: self.stage,
            version: self.version,
            decks: decks_listed(self.decks),
            probes: probes_view(self.probes),
            statistics: self.statistics,
            tree: opt_trees_view(self.tree),
        }
    }
}

impl DeckFetch {
    /// The invariant of a fetch.
    #[verifier::type_invariant]
    pub open spec fn consistent(self) -> bool {
        fetch_consistent(self@)
    }

    /// A fetch, and the first question.
    pub fn begin() -> (r: (DeckFetch, FetchQuestion))
        ensures
            r.0@ == fetch_begun(),
            r.1@ == fetch_question(fetch_begun()),
    {
        let fetch = DeckFetch {
            stage: FetchStage::Version,
            version: 0,
            decks: Vec::new(),
            probes: Vec::new(),
            statistics: None,
            tree: None,
        };
        proof {
            assert(decks_listed(fetch.decks) =~= Seq::<(u64, Seq<char>)>::empty());
            assert(probes_view(fetch.probes) =~= Seq::<ProbeView>::empty());
        }
        (fetch, FetchQuestion::Version)
    }

    /// The question that the fetch waits to have answered.
    pub fn question(&self) -> (q: FetchQuestion)
        ensures
            q@ == fetch_question(self@),
    {
        proof {
            use_type_invariant(self);
        }
        match self.stage {
            FetchStage::Version => FetchQuestion::Version,
            FetchStage::Decks => FetchQuestion::AllDecks,
            FetchStage::Statistics => FetchQuestion::Statistics {
                deck: self.decks[self.probes.len()].1.clone(),
            },
            FetchStage::Cards => FetchQuestion::Cards {
                deck: self.decks[self.probes.len()].1.clone(),
            },
            FetchStage::Tree => FetchQuestion::Tree,
            FetchStage::Clock => FetchQuestion::Clock,
        }
    }

    /// Takes an answer, and goes on with the next question or ends.
    pub fn step(self, answer: FetchAnswer) -> (r: FetchStep)
        ensures
            match r {
                FetchStep::Ask(next, question) => spec_step(self@, answer@) == StepView::Ask(next@)
                    && question@ == fetch_question(next@),
                FetchStep::Done(Ok(report)) => spec_step(self@, answer@) == StepView::Done(
                    Ok(report@),
                ),
                FetchStep::Done(Err(failure)) => spec_step(self@, answer@) == StepView::Done(
                    Err(failure@),
                ),
            },
    {
        proof {
            use_type_invariant(&self);
        }
        let ghost before = self@;
        let DeckFetch { stage, version, decks, probes, statistics, tree } = self;
        let next = match (stage, answer) {
            (FetchStage::Version, FetchAnswer::Version(Ok(found))) => DeckFetch {
                stage: FetchStage::Decks,
                version: found,
                decks,
                probes,
                statistics,
                tree,
            },
            (FetchStage::Version, FetchAnswer::Version(Err(cause))) => {
                return FetchStep::Done(Err(ListDecksTool.connection_failure(cause.as_str())));
            },
            (FetchStage::Decks, FetchAnswer::AllDecks(Ok(listed))) => {
                let first = if listed.len() > 0 {
                    FetchStage::Statistics
                } else {
                    FetchStage::Tree
                };
                let none: Vec<DeckProbe> = Vec::new();
                proof {
                    assert(probes_view(none) =~= Seq::<ProbeView>::empty());
                }
                DeckFetch {
                    stage: first,
                    version,
                    decks: listed,
                    probes: none,
                    statistics: None,
                    tree,
                }
            },
            (FetchStage::Decks, FetchAnswer::AllDecks(Err(cause))) => {
                return FetchStep::Done(Err(ListDecksTool.decks_failure(cause.as_str())));
            },
            (FetchStage::Statistics, FetchAnswer::Statistics(found)) => DeckFetch {
                stage: FetchStage::Cards,
                version,
                decks,
                probes,
                statistics: found,
                tree,
            },
            (FetchStage::Cards, FetchAnswer::Cards(card_count)) => {
                let mut probes = probes;
                let at: usize = probes.len();
                let probe = DeckProbe {
                    id: decks[at].0,
                    name: decks[at].1.clone(),
                    statistics,
                    card_count,
                };
                probes.push(probe);
                let after = if probes.len() < decks.len() {
                    FetchStage::Statistics
                } else {
                    FetchStage::Tree
                };
                proof {
                    assert(probes_view(probes) =~= before.probes.push(
                        ProbeView {
                            id: before.decks[at as int].0,
                            name: before.decks[at as int].1,
                            statistics: before.statistics,
                            card_count,
                        },
                    ));
                }
                DeckFetch { stage: after, version, decks, probes, statistics: None, tree }
            },
            (FetchStage::Tree, FetchAnswer::Tree(found)) => DeckFetch {
                stage: FetchStage::Clock,
                version,
                decks,
                probes,
                statistics,
                tree: found,
            },
            (FetchStage::Clock, FetchAnswer::Clock(now)) => {
                return FetchStep::Done(Ok(ListDecksTool.assemble(version, &probes, &tree, now)));
            },
            (stage, _) => DeckFetch { stage, version, decks, probes, statistics, tree },
        };
        let question = next.question();
        FetchStep::Ask(next, question)
    }
}

} // verus!
