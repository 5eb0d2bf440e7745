//! Laws of the event-processing step, proved once and for all over the
//! specification-level transition function [`spec_process`].

use vstd::prelude::*;
use crate::events::{EffectView, EventView, FetchKind, Outcome};
use crate::keys::KeyCode;
use crate::state::{spec_process, spec_toggle_in_progress, InputMode, StateView};
use crate::summaries::{BranchView, IssueView};

verus! {

/// Law: processing any event keeps every cursor absent or valid.
pub proof fn lemma_process_preserves_wf(s: StateView, e: EventView)
    requires
        s.wf(),
    ensures
        spec_process(s, e).state.wf(),
{
}

/// Law: a ticket fetch completing with a non-empty list selects index 0 and
/// triggers exactly one branch lookup, for the key of that first ticket.
pub proof fn lemma_issues_fetched_selects_first(s: StateView, issues: Seq<IssueView>)
    requires
        issues.len() > 0,
    ensures
        ({
            let t = spec_process(s, EventView::IssuesFetched(issues));
            &&& t.state.issues.items == issues
            &&& t.state.issues.cursor == Some(0int)
            &&& t.effects == seq![EffectView::FetchBranches(issues[0].key)]
            &&& t.outcome == Outcome::Continue
        }),
{
}

/// Law: a branch fetch completing always leaves a branch list that holds the
/// fetched branches in order and ends with the `"Create New"` sentinel,
/// whether or not any real branch matched.
pub proof fn lemma_branches_fetched_appends_sentinel(s: StateView, branches: Seq<BranchView>)
    ensures
        ({
            let t = spec_process(s, EventView::BranchesFetched(branches));
            &&& t.state.branches.items.len() == branches.len() + 1
            &&& t.state.branches.items.last() == (BranchView { name: "Create New"@ })
            &&& t.state.branches.items.take(branches.len() as int) == branches
        }),
{
    let t = spec_process(s, EventView::BranchesFetched(branches));
    assert(t.state.branches.items.take(branches.len() as int) =~= branches);
}

/// Law: branch-fetch completions overwrite wholesale, so of two completions
/// the one that arrives last wins — the state ends exactly as if the earlier
/// one had never arrived.
pub proof fn lemma_branches_fetched_last_write_wins(
    s: StateView,
    first: Seq<BranchView>,
    second: Seq<BranchView>,
)
    ensures
        spec_process(
            spec_process(s, EventView::BranchesFetched(first)).state,
            EventView::BranchesFetched(second),
        ).state == spec_process(s, EventView::BranchesFetched(second)).state,
{
    assert(spec_process(
        spec_process(s, EventView::BranchesFetched(first)).state,
        EventView::BranchesFetched(second),
    ).state =~~= spec_process(s, EventView::BranchesFetched(second)).state);
}

/// Law: a failed fetch leaves the state exactly as it was — every list is
/// unchanged — and neither quits nor asks for further effects.
pub proof fn lemma_fetch_failure_is_harmless(s: StateView, kind: FetchKind)
    ensures
        spec_process(s, EventView::FetchFailed(kind)).state == s,
        spec_process(s, EventView::FetchFailed(kind)).effects == Seq::<EffectView>::empty(),
        spec_process(s, EventView::FetchFailed(kind)).outcome == Outcome::Continue,
{
}

/// Law: toggling the in-progress filter from the ticket list flips exactly
/// that flag, persists the new configuration, and fetches tickets afresh
/// under the same new configuration — in that order.
pub proof fn lemma_toggle_in_progress_refetches(s: StateView)
    requires
        s.input_mode == InputMode::IssuesList,
    ensures
        ({
            let t = spec_process(s, EventView::KeyInput(KeyCode::Char('i')));
            let c2 = spec_toggle_in_progress(s.config);
            &&& c2.filter_in_progress == !s.config.filter_in_progress
            &&& c2.filter_mine == s.config.filter_mine
            &&& c2.default_project_key == s.config.default_project_key
            &&& t.state == (StateView { config: c2, ..s })
            &&& t.effects == seq![EffectView::SaveConfig(c2), EffectView::FetchIssues(c2)]
            &&& t.outcome == Outcome::Continue
        }),
{
}

} // verus!
