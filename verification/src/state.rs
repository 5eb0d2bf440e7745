//! The state actor's data and its event-processing step.
//!
//! [`State`] is the aggregate the actor owns exclusively: the four browsable
//! lists, the filter configuration, the active input mode, the focus flag,
//! and the raw text-entry buffer. [`State::process_event`] consumes one
//! event from the merged bus, applies the modal state machine, and returns
//! the side effects to perform together with a `Continue`/`Quit` outcome.
//! The whole transition is pinned down by the specification function
//! [`spec_process`].

use vstd::prelude::*;
use vstd::string::StringExecFns;
use crate::config::{Config, ConfigView};
use crate::events::{Effect, EffectView, Event, EventView, Outcome, QuitReason, Step};
use crate::keys::KeyCode;
use crate::selection::{SelectionList, SelView};
use crate::summaries::{
    BoardSummary,
    BoardView,
    BranchSummary,
    BranchView,
    IssueSummary,
    IssueView,
    TransitionSummary,
    TransitionView,
};

verus! {

/// The mutually exclusive UI states; exactly one is active and gates which
/// key events are meaningful.
#[derive(Clone, Copy, PartialEq, Eq, Structural, Debug)]
pub enum InputMode {
    /// Browsing the ticket list (and, when focus moves right, its branches).
    IssuesList,
    /// Browsing the board list.
    BoardsList,
    /// Composing the free part of a new branch name.
    Editing,
    /// Editing the default project key.
    EditingDefaultProject,
    /// Choosing a workflow transition for the selected ticket.
    UpdateIssueStatus,
}

/// Mathematical model of a [`State`].
#[verifier::ext_equal]
pub ghost struct StateView {
    pub issues: SelView<IssueView>,
    pub boards: SelView<BoardView>,
    pub branches: SelView<BranchView>,
    pub transitions: SelView<TransitionView>,
    pub config: ConfigView,
    pub input_mode: InputMode,
    pub issues_focused: bool,
    pub input: Seq<char>,
}

/// Mathematical model of one processing step: the state after it, the
/// effects it asks for, in order, and whether the loop goes on.
#[verifier::ext_equal]
pub ghost struct StepView {
    pub state: StateView,
    pub effects: Seq<EffectView>,
    pub outcome: Outcome,
}

impl StateView {
    /// All four cursors are absent or valid.
    pub open spec fn wf(self) -> bool {
        &&& self.issues.wf()
        &&& self.boards.wf()
        &&& self.branches.wf()
        &&& self.transitions.wf()
    }

    /// The state at startup: empty lists, the loaded configuration, the
    /// ticket list active and focused, an empty text buffer.
    pub open spec fn initial(config: ConfigView) -> StateView {
        StateView {
            issues: SelView::of_items(Seq::<IssueView>::empty()),
            boards: SelView::of_items(Seq::<BoardView>::empty()),
            branches: SelView::of_items(Seq::<BranchView>::empty()),
            transitions: SelView::of_items(Seq::<TransitionView>::empty()),
            config,
            input_mode: InputMode::IssuesList,
            issues_focused: true,
            input: Seq::<char>::empty(),
        }
    }

    /// The key of the ticket under the cursor, if any.
    pub open spec fn selected_issue_key(self) -> Option<Seq<char>> {
        match self.issues.selected_item() {
            Some(i) => Some(i.key),
            None => None,
        }
    }

    /// The permalink of the ticket under the cursor, if any.
    pub open spec fn selected_issue_permalink(self) -> Option<Seq<char>> {
        match self.issues.selected_item() {
            Some(i) => Some(i.permalink),
            None => None,
        }
    }

    /// The permalink of the board under the cursor, if any.
    pub open spec fn selected_board_permalink(self) -> Option<Seq<char>> {
        match self.boards.selected_item() {
            Some(b) => Some(b.permalink),
            None => None,
        }
    }

    /// The name of the branch under the cursor, if any.
    pub open spec fn selected_branch_name(self) -> Option<Seq<char>> {
        match self.branches.selected_item() {
            Some(b) => Some(b.name),
            None => None,
        }
    }

    /// The id of the transition under the cursor, if any.
    pub open spec fn selected_transition_id(self) -> Option<Seq<char>> {
        match self.transitions.selected_item() {
            Some(t) => Some(t.id),
            None => None,
        }
    }

    /// The name a newly created branch gets: the selected ticket's key and
    /// the text buffer, joined with `-`; a fixed marker when no ticket is
    /// selected.
    pub open spec fn spec_new_branch_name(self) -> Seq<char> {
        match self.selected_issue_key() {
            Some(k) => k + "-"@ + self.input,
            None => "unhandled-error"@,
        }
    }
}

/// A step that only replaces the state: no effects, the loop goes on.
pub open spec fn step_state(s: StateView) -> StepView {
    StepView { state: s, effects: Seq::<EffectView>::empty(), outcome: Outcome::Continue }
}

/// The configuration with the in-progress filter flipped.
pub open spec fn spec_toggle_in_progress(c: ConfigView) -> ConfigView {
    ConfigView { filter_in_progress: !c.filter_in_progress, ..c }
}

/// The configuration with the "mine" filter flipped.
pub open spec fn spec_toggle_mine(c: ConfigView) -> ConfigView {
    ConfigView { filter_mine: !c.filter_mine, ..c }
}

/// Persist `c` and fetch tickets under it: the effect pair every
/// configuration change asks for.
pub open spec fn spec_save_and_refetch(c: ConfigView) -> Seq<EffectView> {
    seq![EffectView::SaveConfig(c), EffectView::FetchIssues(c)]
}

/// Key handling while the ticket list is shown.
pub open spec fn spec_key_issues(s: StateView, k: KeyCode) -> StepView {
    match k {
        KeyCode::Char(c) => if c == 'b' {
            StepView {
                state: StateView { input_mode: InputMode::BoardsList, ..s },
                effects: seq![EffectView::FetchBoards(s.config)],
                outcome: Outcome::Continue,
            }
        } else if c == 'c' || c == 'p' {
            step_state(
                StateView {
                    input: s.config.default_project_key,
                    input_mode: InputMode::EditingDefaultProject,
                    ..s
                },
            )
        } else if c == 'i' {
            StepView {
                state: StateView { config: spec_toggle_in_progress(s.config), ..s },
                effects: spec_save_and_refetch(spec_toggle_in_progress(s.config)),
                outcome: Outcome::Continue,
            }
        } else if c == 'm' {
            StepView {
                state: StateView { config: spec_toggle_mine(s.config), ..s },
                effects: spec_save_and_refetch(spec_toggle_mine(s.config)),
                outcome: Outcome::Continue,
            }
        } else if c == 'o' {
            StepView {
                state: s,
                effects: match s.selected_issue_permalink() {
                    Some(l) => seq![EffectView::OpenLink(l)],
                    None => Seq::<EffectView>::empty(),
                },
                outcome: Outcome::Continue,
            }
        } else if c == 'q' {
            StepView {
                state: s,
                effects: Seq::<EffectView>::empty(),
                outcome: Outcome::Quit(QuitReason::UserRequest),
            }
        } else if c == 'r' {
            StepView {
                state: s,
                effects: seq![EffectView::FetchIssues(s.config)],
                outcome: Outcome::Continue,
            }
        } else if c == 's' {
            StepView {
                state: StateView { input_mode: InputMode::UpdateIssueStatus, ..s },
                effects: match s.selected_issue_key() {
                    Some(key) => seq![EffectView::FetchTransitions(key)],
                    None => Seq::<EffectView>::empty(),
                },
                outcome: Outcome::Continue,
            }
        } else {
            step_state(s)
        },
        KeyCode::Enter => if s.issues_focused {
            step_state(StateView { branches: s.branches.advanced(), issues_focused: false, ..s })
        } else {
            match s.selected_branch_name() {
                Some(name) => if name == "Create New"@ {
                    step_state(StateView { input_mode: InputMode::Editing, ..s })
                } else {
                    StepView {
                        state: s,
                        effects: seq![EffectView::CheckoutBranch(name)],
                        outcome: Outcome::Quit(QuitReason::SwitchedBranch),
                    }
                },
                None => step_state(s),
            }
        },
        KeyCode::Right => if s.issues_focused && s.selected_issue_key() is Some {
            step_state(StateView { branches: s.branches.advanced(), issues_focused: false, ..s })
        } else {
            step_state(s)
        },
        KeyCode::Left => if s.issues_focused {
            step_state(
                StateView {
                    issues: s.issues.cleared(),
                    branches: SelView::of_items(Seq::<BranchView>::empty()),
                    ..s
                },
            )
        } else {
            step_state(StateView { branches: s.branches.cleared(), issues_focused: true, ..s })
        },
        KeyCode::Down => if s.issues_focused {
            let s2 = StateView { issues: s.issues.advanced(), ..s };
            StepView {
                state: s2,
                effects: match s2.selected_issue_key() {
                    Some(key) => seq![EffectView::FetchBranches(key)],
                    None => Seq::<EffectView>::empty(),
                },
                outcome: Outcome::Continue,
            }
        } else {
            step_state(StateView { branches: s.branches.advanced(), ..s })
        },
        KeyCode::Up => if s.issues_focused {
            let s2 = StateView { issues: s.issues.retreated(), ..s };
            StepView {
                state: s2,
                effects: match s2.selected_issue_key() {
                    Some(key) => seq![EffectView::FetchBranches(key)],
                    None => Seq::<EffectView>::empty(),
                },
                outcome: Outcome::Continue,
            }
        } else {
            step_state(StateView { branches: s.branches.retreated(), ..s })
        },
        _ => step_state(s),
    }
}

/// Key handling while the board list is shown.
pub open spec fn spec_key_boards(s: StateView, k: KeyCode) -> StepView {
    match k {
        KeyCode::Esc => step_state(StateView { input_mode: InputMode::IssuesList, ..s }),
        KeyCode::Down => step_state(StateView { boards: s.boards.advanced(), ..s }),
        KeyCode::Up => step_state(StateView { boards: s.boards.retreated(), ..s }),
        KeyCode::Char(c) => if c == 'o' {
            StepView {
                state: s,
                effects: match s.selected_board_permalink() {
                    Some(l) => seq![EffectView::OpenLink(l)],
                    None => Seq::<EffectView>::empty(),
                },
                outcome: Outcome::Continue,
            }
        } else {
            step_state(s)
        },
        _ => step_state(s),
    }
}

/// Key handling while a workflow transition is being chosen.
pub open spec fn spec_key_transitions(s: StateView, k: KeyCode) -> StepView {
    match k {
        KeyCode::Esc => step_state(StateView { input_mode: InputMode::IssuesList, ..s }),
        KeyCode::Down => step_state(StateView { transitions: s.transitions.advanced(), ..s }),
        KeyCode::Up => step_state(StateView { transitions: s.transitions.retreated(), ..s }),
        KeyCode::Enter => match (s.selected_transition_id(), s.selected_issue_key()) {
            (Some(tid), Some(key)) => StepView {
                state: s,
                effects: seq![
                    EffectView::ApplyTransition { issue_key: key, transition_id: tid },
                ],
                outcome: Outcome::Continue,
            },
            _ => step_state(s),
        },
        _ => step_state(s),
    }
}

/// Key handling while a new branch name is being composed.
pub open spec fn spec_key_editing(s: StateView, k: KeyCode) -> StepView {
    match k {
        KeyCode::Enter => StepView {
            state: s,
            effects: seq![EffectView::CreateBranch(s.spec_new_branch_name())],
            outcome: Outcome::Quit(QuitReason::CreatedBranch),
        },
        KeyCode::Char(c) => step_state(StateView { input: s.input.push(c), ..s }),
        KeyCode::Backspace => step_state(
            StateView {
                input: if s.input.len() > 0 {
                    s.input.drop_last()
                } else {
                    s.input
                },
                ..s
            },
        ),
        KeyCode::Esc => step_state(StateView { input_mode: InputMode::IssuesList, ..s }),
        _ => step_state(s),
    }
}

/// Key handling while the default project key is being edited.
pub open spec fn spec_key_editing_project(s: StateView, k: KeyCode) -> StepView {
    match k {
        KeyCode::Enter => {
            let c2 = ConfigView { default_project_key: s.input, ..s.config };
            StepView {
                state: StateView { config: c2, input_mode: InputMode::IssuesList, ..s },
                effects: spec_save_and_refetch(c2),
                outcome: Outcome::Continue,
            }
        },
        KeyCode::Char(c) => step_state(StateView { input: s.input.push(c), ..s }),
        KeyCode::Backspace => step_state(
            StateView {
                input: if s.input.len() > 0 {
                    s.input.drop_last()
                } else {
                    s.input
                },
                ..s
            },
        ),
        KeyCode::Esc => step_state(StateView { input_mode: InputMode::IssuesList, ..s }),
        _ => step_state(s),
    }
}

/// Key handling: dispatch on the active input mode.
pub open spec fn spec_key(s: StateView, k: KeyCode) -> StepView {
    match s.input_mode {
        InputMode::IssuesList => spec_key_issues(s, k),
        InputMode::BoardsList => spec_key_boards(s, k),
        InputMode::UpdateIssueStatus => spec_key_transitions(s, k),
        InputMode::Editing => spec_key_editing(s, k),
        InputMode::EditingDefaultProject => spec_key_editing_project(s, k),
    }
}

/// What one event does to the state, which effects it asks for, and whether
/// the loop goes on. Completion events replace the matching list whatever
/// the input mode; key events go through the modal state machine.
pub open spec fn spec_process(s: StateView, e: EventView) -> StepView {
    match e {
        EventView::KeyInput(k) => spec_key(s, k),
        EventView::IssuesFetched(l) => StepView {
            state: StateView { issues: SelView::of_items(l), ..s },
            effects: if l.len() > 0 {
                seq![EffectView::FetchBranches(l[0].key)]
            } else {
                Seq::<EffectView>::empty()
            },
            outcome: Outcome::Continue,
        },
        EventView::BoardsFetched(l) => step_state(
            StateView { boards: SelView::of_items(l), ..s },
        ),
        EventView::BranchesFetched(l) => step_state(
            StateView {
                branches: SelView::of_items(l.push(BranchView { name: "Create New"@ })),
                ..s
            },
        ),
        EventView::TransitionsFetched(l) => step_state(
            StateView { transitions: SelView::of_items(l), ..s },
        ),
        EventView::TransitionApplied => step_state(
            StateView {
                transitions: SelView::of_items(Seq::<TransitionView>::empty()),
                input_mode: InputMode::IssuesList,
                ..s
            },
        ),
        // A failed fetch leaves every list, and the rest of the state,
        // untouched; it only keeps the failure from vanishing silently.
        EventView::FetchFailed(_) => step_state(s),
    }
}

/// `r` and the state after the call realize the step `t`.
pub open spec fn matches_step(post: StateView, r: Step, t: StepView) -> bool {
    &&& post == t.state
    &&& r.effects.deep_view() == t.effects
    &&& r.outcome == t.outcome
}

/// The application state the actor owns exclusively. All mutation happens
/// inside [`State::process_event`]; everything else only reads it.
#[derive(Clone)]
pub struct State {
    issues: SelectionList<IssueSummary>,
    boards: SelectionList<BoardSummary>,
    branches: SelectionList<BranchSummary>,
    transitions: SelectionList<TransitionSummary>,
    config: Config,
    input_mode: InputMode,
    issues_focused: bool,
    input: String,
}

impl View for State {
    type V = StateView;

    closed spec fn view(&self) -> StateView {
        StateView {
            issues: self.issues@,
            boards: self.boards@,
            branches: self.branches@,
            transitions: self.transitions@,
            config: self.config@,
            input_mode: self.input_mode,
            issues_focused: self.issues_focused,
            input: self.input@,
        }
    }
}

/// A step with no effects whose outcome is `Continue`.
fn step_none() -> (r: Step)
    ensures
        r.effects.deep_view() == Seq::<EffectView>::empty(),
        r.outcome == Outcome::Continue,
{
    let effects: Vec<Effect> = Vec::new();
    proof {
        assert(effects.deep_view() =~= Seq::<EffectView>::empty());
    }
    Step { effects, outcome: Outcome::Continue }
}

/// A step with one effect.
fn step_one(e: Effect, outcome: Outcome) -> (r: Step)
    ensures
        r.effects.deep_view() == seq![e@],
        r.outcome == outcome,
{
    let mut effects: Vec<Effect> = Vec::new();
    effects.push(e);
    proof {
        assert(effects.deep_view() =~= seq![e@]);
    }
    Step { effects, outcome }
}

/// A step with two effects, in order.
fn step_two(e1: Effect, e2: Effect, outcome: Outcome) -> (r: Step)
    ensures
        r.effects.deep_view() == seq![e1@, e2@],
        r.outcome == outcome,
{
    let mut effects: Vec<Effect> = Vec::new();
    effects.push(e1);
    effects.push(e2);
    proof {
        assert(effects.deep_view() =~= seq![e1@, e2@]);
    }
    Step { effects, outcome }
}

impl State {
    /// The state at startup, from the loaded (or defaulted) configuration.
    pub fn new(config: Config) -> (r: State)
        ensures
            r@ == StateView::initial(config@),
            r@.wf(),
    {
        let r = State {
            issues: SelectionList::new(),
            boards: SelectionList::new(),
            branches: SelectionList::new(),
            transitions: SelectionList::new(),
            config,
            input_mode: InputMode::IssuesList,
            issues_focused: true,
            input: String::new(),
        };
        proof {
            assert(r@ =~~= StateView::initial(r.config@));
        }
        r
    }

    /// The ticket list.
    pub fn issues(&self) -> (r: &SelectionList<IssueSummary>)
        ensures
            r@ == self@.issues,
    {
        &self.issues
    }

    /// The board list.
    pub fn boards(&self) -> (r: &SelectionList<BoardSummary>)
        ensures
            r@ == self@.boards,
    {
        &self.boards
    }

    /// The branch list for the selected ticket.
    pub fn branches(&self) -> (r: &SelectionList<BranchSummary>)
        ensures
            r@ == self@.branches,
    {
        &self.branches
    }

    /// The transition list for the selected ticket.
    pub fn transitions(&self) -> (r: &SelectionList<TransitionSummary>)
        ensures
            r@ == self@.transitions,
    {
        &self.transitions
    }

    /// The current filter configuration.
    pub fn config(&self) -> (r: &Config)
        ensures
            r@ == self@.config,
    {
        &self.config
    }

    /// The active input mode.
    pub fn input_mode(&self) -> (r: InputMode)
        ensures
            r == self@.input_mode,
    {
        self.input_mode
    }

    /// Whether the ticket list, rather than the branch list, has focus.
    pub fn issues_focused(&self) -> (r: bool)
        ensures
            r == self@.issues_focused,
    {
        self.issues_focused
    }

    /// A copy of the raw text-entry buffer.
    pub fn raw_input_clone(&self) -> (r: String)
        ensures
            r@ == self@.input,
    {
        self.input.clone()
    }

    /// The key of the selected ticket, if any.
    pub fn selected_issue_key(&self) -> (r: Option<String>)
        requires
            self@.wf(),
        ensures
            r.deep_view() == self@.selected_issue_key(),
    {
        match self.issues.selected() {
            Some(i) => Some(i.key.clone()),
            None => None,
        }
    }

    /// The permalink of the selected ticket, if any.
    pub fn selected_issue_permalink(&self) -> (r: Option<String>)
        requires
            self@.wf(),
        ensures
            r.deep_view() == self@.selected_issue_permalink(),
    {
        match self.issues.selected() {
            Some(i) => Some(i.permalink.clone()),
            None => None,
        }
    }

    /// The name of the selected branch, if any.
    pub fn selected_branch_name(&self) -> (r: Option<String>)
        requires
            self@.wf(),
        ensures
            r.deep_view() == self@.selected_branch_name(),
    {
        match self.branches.selected() {
            Some(b) => Some(b.name.clone()),
            None => None,
        }
    }

    /// The name a branch created now would get: the selected ticket's key
    /// and the text buffer, joined with `-`.
    pub fn new_branch_name(&self) -> (r: String)
        requires
            self@.wf(),
        ensures
            r@ == self@.spec_new_branch_name(),
    {
        match self.selected_issue_key() {
            Some(key) => {
                let mut r = key;
                r.append("-");
                r.append(self.input.as_str());
                r
            },
            None => "unhandled-error".to_owned(),
        }
    }

    /// Process one event from the merged bus: advance the state as
    /// [`spec_process`] says, and hand back the effects to perform and the
    /// outcome.
    pub fn process_event(&mut self, e: Event) -> (r: Step)
        requires
            old(self)@.wf(),
        ensures
            matches_step(final(self)@, r, spec_process(old(self)@, e@)),
            final(self)@.wf(),
    {
        let ghost t = spec_process(old(self)@, e@);
        match e {
            Event::KeyInput(k) => self.handle_input(k),
            Event::IssuesFetched(l) => {
                self.issues.replace(l);
                let r = if self.issues.len() > 0 {
                    step_one(
                        Effect::FetchBranches(self.issues.get(0).key.clone()),
                        Outcome::Continue,
                    )
                } else {
                    step_none()
                };
                proof {
                    assert(self@ =~~= t.state);
                    assert(r.effects.deep_view() =~~= t.effects);
                }
                r
            },
            Event::BoardsFetched(l) => {
                self.boards.replace(l);
                proof {
                    assert(self@ =~~= t.state);
                }
                step_none()
            },
            Event::BranchesFetched(l) => {
                let mut items = l;
                items.push(BranchSummary { name: "Create New".to_owned() });
                proof {
                    assert(items.deep_view() =~~= t.state.branches.items);
                }
                self.branches.replace(items);
                proof {
                    assert(self@ =~~= t.state);
                }
                step_none()
            },
            Event::TransitionsFetched(l) => {
                self.transitions.replace(l);
                proof {
                    assert(self@ =~~= t.state);
                }
                step_none()
            },
            Event::TransitionApplied => {
                self.transitions.clear();
                self.input_mode = InputMode::IssuesList;
                proof {
                    assert(self@ =~~= t.state);
                }
                step_none()
            },
            Event::FetchFailed(_) => {
                proof {
                    assert(self@ =~~= t.state);
                }
                step_none()
            },
        }
    }

    /// One key press, dispatched on the active input mode.
    pub fn handle_input(&mut self, k: KeyCode) -> (r: Step)
        requires
            old(self)@.wf(),
        ensures
            matches_step(final(self)@, r, spec_key(old(self)@, k)),
            final(self)@.wf(),
    {
        match self.input_mode {
            InputMode::IssuesList => self.key_issues(k),
            InputMode::BoardsList => self.key_boards(k),
            InputMode::UpdateIssueStatus => self.key_transitions(k),
            InputMode::Editing => self.key_editing(k),
            InputMode::EditingDefaultProject => self.key_editing_project(k),
        }
    }

    /// Key handling while the ticket list is shown.
    fn key_issues(&mut self, k: KeyCode) -> (r: Step)
        requires
            old(self)@.wf(),
            old(self)@.input_mode == InputMode::IssuesList,
        ensures
            matches_step(final(self)@, r, spec_key_issues(old(self)@, k)),
            final(self)@.wf(),
    {
        let ghost t = spec_key_issues(old(self)@, k);
        match k {
            KeyCode::Char(c) => {
                if c == 'b' {
                    self.input_mode = InputMode::BoardsList;
                    let r = step_one(Effect::FetchBoards(self.config.clone()), Outcome::Continue);
                    proof {
                        assert(self@ =~~= t.state);
                        assert(r.effects.deep_view() =~~= t.effects);
                    }
                    r
                } else if c == 'c' || c == 'p' {
                    self.input = self.config.default_project_key.clone();
                    self.input_mode = InputMode::EditingDefaultProject;
                    proof {
                        assert(self@ =~~= t.state);
                    }
                    step_none()
                } else if c == 'i' {
                    self.config.filter_in_progress = !self.config.filter_in_progress;
                    let r = step_two(
                        Effect::SaveConfig(self.config.clone()),
                        Effect::FetchIssues(self.config.clone()),
                        Outcome::Continue,
                    );
                    proof {
                        assert(self@ =~~= t.state);
                        assert(r.effects.deep_view() =~~= t.effects);
                    }
                    r
                } else if c == 'm' {
                    self.config.filter_mine = !self.config.filter_mine;
                    let r = step_two(
                        Effect::SaveConfig(self.config.clone()),
                        Effect::FetchIssues(self.config.clone()),
                        Outcome::Continue,
                    );
                    proof {
                        assert(self@ =~~= t.state);
                        assert(r.effects.deep_view() =~~= t.effects);
                    }
                    r
                } else if c == 'o' {
                    let r = match self.selected_issue_permalink() {
                        Some(link) => step_one(Effect::OpenLink(link), Outcome::Continue),
                        None => step_none(),
                    };
                    proof {
                        assert(self@ =~~= t.state);
                        assert(r.effects.deep_view() =~~= t.effects);
                    }
                    r
                } else if c == 'q' {
                    let effects: Vec<Effect> = Vec::new();
                    proof {
                        assert(effects.deep_view() =~= Seq::<EffectView>::empty());
                        assert(self@ =~~= t.state);
                    }
                    Step { effects, outcome: Outcome::Quit(QuitReason::UserRequest) }
                } else if c == 'r' {
                    let r = step_one(Effect::FetchIssues(self.config.clone()), Outcome::Continue);
                    proof {
                        assert(self@ =~~= t.state);
                        assert(r.effects.deep_view() =~~= t.effects);
                    }
                    r
                } else if c == 's' {
                    let key = self.selected_issue_key();
                    self.input_mode = InputMode::UpdateIssueStatus;
                    let r = match key {
                        Some(key) => step_one(Effect::FetchTransitions(key), Outcome::Continue),
                        None => step_none(),
                    };
                    proof {
                        assert(self@ =~~= t.state);
                        assert(r.effects.deep_view() =~~= t.effects);
                    }
                    r
                } else {
                    proof {
                        assert(self@ =~~= t.state);
                    }
                    step_none()
                }
            },
            KeyCode::Enter => {
                if self.issues_focused {
                    self.branches.advance();
                    self.issues_focused = false;
                    proof {
                        assert(self@ =~~= t.state);
                    }
                    step_none()
                } else {
                    match self.selected_branch_name() {
                        Some(name) => {
                            let sentinel: String = "Create New".to_owned();
                            if name == sentinel {
                                self.input_mode = InputMode::Editing;
                                proof {
                                    assert(self@ =~~= t.state);
                                }
                                step_none()
                            } else {
                                let r = step_one(
                                    Effect::CheckoutBranch(name),
                                    Outcome::Quit(QuitReason::SwitchedBranch),
                                );
                                proof {
                                    assert(self@ =~~= t.state);
                                    assert(r.effects.deep_view() =~~= t.effects);
                                }
                                r
                            }
                        },
                        None => {
                            proof {
                                assert(self@ =~~= t.state);
                            }
                            step_none()
                        },
                    }
                }
            },
            KeyCode::Right => {
                if self.issues_focused && self.selected_issue_key().is_some() {
                    self.branches.advance();
                    self.issues_focused = false;
                }
                proof {
                    assert(self@ =~~= t.state);
                }
                step_none()
            },
            KeyCode::Left => {
                if self.issues_focused {
                    self.issues.clear_selection();
                    self.branches.clear();
                } else {
                    self.branches.clear_selection();
                    self.issues_focused = true;
                }
                proof {
                    assert(self@ =~~= t.state);
                }
                step_none()
            },
            KeyCode::Down => {
                let r = if self.issues_focused {
                    self.issues.advance();
                    match self.selected_issue_key() {
                        Some(key) => step_one(Effect::FetchBranches(key), Outcome::Continue),
                        None => step_none(),
                    }
                } else {
                    self.branches.advance();
                    step_none()
                };
                proof {
                    assert(self@ =~~= t.state);
                    assert(r.effects.deep_view() =~~= t.effects);
                }
                r
            },
            KeyCode::Up => {
                let r = if self.issues_focused {
                    self.issues.retreat();
                    match self.selected_issue_key() {
                        Some(key) => step_one(Effect::FetchBranches(key), Outcome::Continue),
                        None => step_none(),
                    }
                } else {
                    self.branches.retreat();
                    step_none()
                };
                proof {
                    assert(self@ =~~= t.state);
                    assert(r.effects.deep_view() =~~= t.effects);
                }
                r
            },
            _ => {
                proof {
                    assert(self@ =~~= t.state);
                }
                step_none()
            },
        }
    }

    /// Key handling while the board list is shown.
    fn key_boards(&mut self, k: KeyCode) -> (r: Step)
        requires
            old(self)@.wf(),
            old(self)@.input_mode == InputMode::BoardsList,
        ensures
            matches_step(final(self)@, r, spec_key_boards(old(self)@, k)),
            final(self)@.wf(),
    {
        let ghost t = spec_key_boards(old(self)@, k);
        match k {
            KeyCode::Esc => {
                self.input_mode = InputMode::IssuesList;
                proof {
                    assert(self@ =~~= t.state);
                }
                step_none()
            },
            KeyCode::Down => {
                self.boards.advance();
                proof {
                    assert(self@ =~~= t.state);
                }
                step_none()
            },
            KeyCode::Up => {
                self.boards.retreat();
                proof {
                    assert(self@ =~~= t.state);
                }
                step_none()
            },
            KeyCode::Char(c) => {
                let r = if c == 'o' {
                    match self.boards.selected() {
                        Some(b) => step_one(Effect::OpenLink(b.permalink.clone()), Outcome::Continue),
                        None => step_none(),
                    }
                } else {
                    step_none()
                };
                proof {
                    assert(self@ =~~= t.state);
                    assert(r.effects.deep_view() =~~= t.effects);
                }
                r
            },
            _ => {
                proof {
                    assert(self@ =~~= t.state);
                }
                step_none()
            },
        }
    }

    /// Key handling while a workflow transition is being chosen.
    fn key_transitions(&mut self, k: KeyCode) -> (r: Step)
        requires
            old(self)@.wf(),
            old(self)@.input_mode == InputMode::UpdateIssueStatus,
        ensures
            matches_step(final(self)@, r, spec_key_transitions(old(self)@, k)),
            final(self)@.wf(),
    {
        let ghost t = spec_key_transitions(old(self)@, k);
        match k {
            KeyCode::Esc => {
                self.input_mode = InputMode::IssuesList;
                proof {
                    assert(self@ =~~= t.state);
                }
                step_none()
            },
            KeyCode::Down => {
                self.transitions.advance();
                proof {
                    assert(self@ =~~= t.state);
                }
                step_none()
            },
            KeyCode::Up => {
                self.transitions.retreat();
                proof {
                    assert(self@ =~~= t.state);
                }
                step_none()
            },
            KeyCode::Enter => {
                let tid = match self.transitions.selected() {
                    Some(tr) => Some(tr.id.clone()),
                    None => None,
                };
                let r = match (tid, self.selected_issue_key()) {
                    (Some(transition_id), Some(issue_key)) => step_one(
                        Effect::ApplyTransition { issue_key, transition_id },
                        Outcome::Continue,
                    ),
                    _ => step_none(),
                };
                proof {
                    assert(self@ =~~= t.state);
                    assert(r.effects.deep_view() =~~= t.effects);
                }
                r
            },
            _ => {
                proof {
                    assert(self@ =~~= t.state);
                }
                step_none()
            },
        }
    }

    /// Key handling while a new branch name is being composed.
    fn key_editing(&mut self, k: KeyCode) -> (r: Step)
        requires
            old(self)@.wf(),
            old(self)@.input_mode == InputMode::Editing,
        ensures
            matches_step(final(self)@, r, spec_key_editing(old(self)@, k)),
            final(self)@.wf(),
    {
        let ghost t = spec_key_editing(old(self)@, k);
        match k {
            KeyCode::Enter => {
                let r = step_one(
                    Effect::CreateBranch(self.new_branch_name()),
                    Outcome::Quit(QuitReason::CreatedBranch),
                );
                proof {
                    assert(self@ =~~= t.state);
                    assert(r.effects.deep_view() =~~= t.effects);
                }
                r
            },
            KeyCode::Char(c) => {
                self.input.push(c);
                proof {
                    assert(self@ =~~= t.state);
                }
                step_none()
            },
            KeyCode::Backspace => {
                let _ = self.input.pop();
                proof {
                    assert(self@ =~~= t.state);
                }
                step_none()
            },
            KeyCode::Esc => {
                self.input_mode = InputMode::IssuesList;
                proof {
                    assert(self@ =~~= t.state);
                }
                step_none()
            },
            _ => {
                proof {
                    assert(self@ =~~= t.state);
                }
                step_none()
            },
        }
    }

    /// Key handling while the default project key is being edited.
    fn key_editing_project(&mut self, k: KeyCode) -> (r: Step)
        requires
            old(self)@.wf(),
            old(self)@.input_mode == InputMode::EditingDefaultProject,
        ensures
            matches_step(final(self)@, r, spec_key_editing_project(old(self)@, k)),
            final(self)@.wf(),
    {
        let ghost t = spec_key_editing_project(old(self)@, k);
        match k {
            KeyCode::Enter => {
                self.config.default_project_key = self.input.clone();
                self.input_mode = InputMode::IssuesList;
                let r = step_two(
                    Effect::SaveConfig(self.config.clone()),
                    Effect::FetchIssues(self.config.clone()),
                    Outcome::Continue,
                );
                proof {
                    assert(self@ =~~= t.state);
                    assert(r.effects.deep_view() =~~= t.effects);
                }
                r
            },
            KeyCode::Char(c) => {
                self.input.push(c);
                proof {
                    assert(self@ =~~= t.state);
                }
                step_none()
            },
            KeyCode::Backspace => {
                let _ = self.input.pop();
                proof {
                    assert(self@ =~~= t.state);
                }
                step_none()
            },
            KeyCode::Esc => {
                self.input_mode = InputMode::IssuesList;
                proof {
                    assert(self@ =~~= t.state);
                }
                step_none()
            },
            _ => {
                proof {
                    assert(self@ =~~= t.state);
                }
                step_none()
            },
        }
    }
}

} // verus!
