//! The merged event stream the state actor consumes, the side effects it
//! asks the surrounding application to perform, and the outcome of one
//! processing step.

use vstd::prelude::*;
use crate::config::{Config, ConfigView};
use crate::keys::KeyCode;
use crate::summaries::{
    BoardSummary,
    BoardView,
    BranchSummary,
    BranchView,
    IssueSummary,
    IssueView,
    TransitionSummary,
    TransitionView,
};

verus! {

/// Which asynchronous operation a completion or failure event belongs to.
#[derive(Clone, Copy, PartialEq, Eq, Structural, Debug)]
pub enum FetchKind {
    Issues,
    Boards,
    Branches,
    Transitions,
    TransitionApplication,
}

/// Mathematical model of an [`Event`].
#[verifier::ext_equal]
pub ghost enum EventView {
    KeyInput(KeyCode),
    IssuesFetched(Seq<IssueView>),
    BoardsFetched(Seq<BoardView>),
    BranchesFetched(Seq<BranchView>),
    TransitionsFetched(Seq<TransitionView>),
    TransitionApplied,
    FetchFailed(FetchKind),
}

/// One event on the merged bus: a raw key press, the completion of one
/// asynchronous fetch, or its explicit failure. Exactly one producer
/// creates a given completion variant; a failed fetch reports
/// [`Event::FetchFailed`] rather than disappearing silently.
pub enum Event {
    KeyInput(KeyCode),
    IssuesFetched(Vec<IssueSummary>),
    BoardsFetched(Vec<BoardSummary>),
    BranchesFetched(Vec<BranchSummary>),
    TransitionsFetched(Vec<TransitionSummary>),
    TransitionApplied,
    FetchFailed(FetchKind),
}

impl View for Event {
    type V = EventView;

    open spec fn view(&self) -> EventView {
        match self {
            Event::KeyInput(k) => EventView::KeyInput(*k),
            Event::IssuesFetched(l) => EventView::IssuesFetched(l.deep_view()),
            Event::BoardsFetched(l) => EventView::BoardsFetched(l.deep_view()),
            Event::BranchesFetched(l) => EventView::BranchesFetched(l.deep_view()),
            Event::TransitionsFetched(l) => EventView::TransitionsFetched(l.deep_view()),
            Event::TransitionApplied => EventView::TransitionApplied,
            Event::FetchFailed(k) => EventView::FetchFailed(*k),
        }
    }
}

/// Mathematical model of an [`Effect`].
#[verifier::ext_equal]
pub ghost enum EffectView {
    FetchIssues(ConfigView),
    FetchBoards(ConfigView),
    FetchBranches(Seq<char>),
    FetchTransitions(Seq<char>),
    ApplyTransition { issue_key: Seq<char>, transition_id: Seq<char> },
    CheckoutBranch(Seq<char>),
    CreateBranch(Seq<char>),
    OpenLink(Seq<char>),
    SaveConfig(ConfigView),
}

/// One side effect the actor asks the surrounding application to perform:
/// a fire-and-forget fetch against a collaborator, a repository operation,
/// opening a link, or persisting the configuration. Each fetch reports at
/// most one completion [`Event`] back onto the bus.
pub enum Effect {
    /// Fetch the tickets matching this configuration's filters.
    FetchIssues(Config),
    /// Fetch the board list, scoped by this configuration's project key.
    FetchBoards(Config),
    /// Look up the local branches whose names start with this ticket key.
    FetchBranches(String),
    /// Fetch the workflow transitions available to this ticket.
    FetchTransitions(String),
    /// Apply one workflow transition to one ticket.
    ApplyTransition { issue_key: String, transition_id: String },
    /// Move the repository's head to this existing branch.
    CheckoutBranch(String),
    /// Create this branch from the repository's default branch and switch
    /// to it.
    CreateBranch(String),
    /// Open this permalink with the operating system.
    OpenLink(String),
    /// Persist this configuration.
    SaveConfig(Config),
}

impl View for Effect {
    type V = EffectView;

    open spec fn view(&self) -> EffectView {
        match self {
            Effect::FetchIssues(c) => EffectView::FetchIssues(c@),
            Effect::FetchBoards(c) => EffectView::FetchBoards(c@),
            Effect::FetchBranches(k) => EffectView::FetchBranches(k@),
            Effect::FetchTransitions(k) => EffectView::FetchTransitions(k@),
            Effect::ApplyTransition { issue_key, transition_id } => EffectView::ApplyTransition {
                issue_key: issue_key@,
                transition_id: transition_id@,
            },
            Effect::CheckoutBranch(n) => EffectView::CheckoutBranch(n@),
            Effect::CreateBranch(n) => EffectView::CreateBranch(n@),
            Effect::OpenLink(l) => EffectView::OpenLink(l@),
            Effect::SaveConfig(c) => EffectView::SaveConfig(c@),
        }
    }
}

impl DeepView for Effect {
    type V = EffectView;

    open spec fn deep_view(&self) -> EffectView {
        self.view()
    }
}

/// Why the actor is done. A user-requested quit and a completed branch
/// operation are explicit outcomes, never errors.
#[derive(Clone, Copy, PartialEq, Eq, Structural, Debug)]
pub enum QuitReason {
    /// The operator asked to leave.
    UserRequest,
    /// An existing branch is being checked out; the client's work is done.
    SwitchedBranch,
    /// A new branch is being created and switched to; the client's work is
    /// done.
    CreatedBranch,
}

/// Whether the actor's loop goes on after a processing step.
#[derive(Clone, Copy, PartialEq, Eq, Structural, Debug)]
pub enum Outcome {
    Continue,
    Quit(QuitReason),
}

/// What one call of the event-processing step hands back: the effects to
/// perform, in order, and whether the loop goes on.
pub struct Step {
    pub effects: Vec<Effect>,
    pub outcome: Outcome,
}

} // verus!
