//! Plain summaries of the tracker's and the repository's objects, as the
//! browsable lists hold them, together with their mathematical views.

use vstd::prelude::*;

verus! {

/// Mathematical model of an [`IssueSummary`].
#[verifier::ext_equal]
pub ghost struct IssueView {
    pub key: Seq<char>,
    pub summary: Seq<char>,
    pub permalink: Seq<char>,
}

/// One ticket: its key, its one-line summary, and a link to it.
#[derive(Clone)]
pub struct IssueSummary {
    pub key: String,
    pub summary: String,
    pub permalink: String,
}

impl View for IssueSummary {
    type V = IssueView;

    open spec fn view(&self) -> IssueView {
        IssueView { key: self.key@, summary: self.summary@, permalink: self.permalink@ }
    }
}

impl DeepView for IssueSummary {
    type V = IssueView;

    open spec fn deep_view(&self) -> IssueView {
        self.view()
    }
}

/// Mathematical model of a [`BoardSummary`].
#[verifier::ext_equal]
pub ghost struct BoardView {
    pub id: u64,
    pub name: Seq<char>,
    pub permalink: Seq<char>,
}

/// One board of the tracker: its numeric id, its name, and a link to it.
#[derive(Clone)]
pub struct BoardSummary {
    pub id: u64,
    pub name: String,
    pub permalink: String,
}

impl View for BoardSummary {
    type V = BoardView;

    open spec fn view(&self) -> BoardView {
        BoardView { id: self.id, name: self.name@, permalink: self.permalink@ }
    }
}

impl DeepView for BoardSummary {
    type V = BoardView;

    open spec fn deep_view(&self) -> BoardView {
        self.view()
    }
}

/// Mathematical model of a [`TransitionSummary`].
#[verifier::ext_equal]
pub ghost struct TransitionView {
    pub id: Seq<char>,
    pub name: Seq<char>,
}

/// One workflow transition a ticket can take: its id and its display name.
#[derive(Clone)]
pub struct TransitionSummary {
    pub id: String,
    pub name: String,
}

impl View for TransitionSummary {
    type V = TransitionView;

    open spec fn view(&self) -> TransitionView {
        TransitionView { id: self.id@, name: self.name@ }
    }
}

impl DeepView for TransitionSummary {
    type V = TransitionView;

    open spec fn deep_view(&self) -> TransitionView {
        self.view()
    }
}

/// Mathematical model of a [`BranchSummary`].
#[verifier::ext_equal]
pub ghost struct BranchView {
    pub name: Seq<char>,
}

/// One local branch of the repository, by name. The branch list shown for a
/// ticket additionally ends with a synthetic entry named `"Create New"`.
#[derive(Clone)]
pub struct BranchSummary {
    pub name: String,
}

impl View for BranchSummary {
    type V = BranchView;

    open spec fn view(&self) -> BranchView {
        BranchView { name: self.name@ }
    }
}

impl DeepView for BranchSummary {
    type V = BranchView;

    open spec fn deep_view(&self) -> BranchView {
        self.view()
    }
}

} // verus!
