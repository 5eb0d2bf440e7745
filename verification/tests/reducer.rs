use jira_tui::events::{Effect, Event, FetchKind, Outcome, QuitReason, Step};
use jira_tui::jql::issues_query;
use jira_tui::keys::KeyCode;
use jira_tui::state::{InputMode, State};
use jira_tui::summaries::{BoardSummary, BranchSummary, IssueSummary, TransitionSummary};
use jira_tui::Config;

fn issue(key: &str) -> IssueSummary {
    IssueSummary {
        key: key.to_string(),
        summary: format!("summary of {}", key),
        permalink: format!("https://tracker.example/browse/{}", key),
    }
}

fn branch(name: &str) -> BranchSummary {
    BranchSummary { name: name.to_string() }
}

fn fresh() -> State {
    State::new(Config::default())
}

fn key(state: &mut State, k: KeyCode) -> Step {
    state.process_event(Event::KeyInput(k))
}

fn type_text(state: &mut State, text: &str) {
    for c in text.chars() {
        key(state, KeyCode::Char(c));
    }
}

fn branch_names(state: &State) -> Vec<String> {
    let mut names = Vec::new();
    let branches = state.branches();
    let mut i = 0;
    while i < branches.len() {
        names.push(branches.get(i).name.clone());
        i += 1;
    }
    names
}

#[test]
fn issues_fetched_selects_first_and_looks_up_its_branches() {
    let mut s = fresh();
    let step = s.process_event(Event::IssuesFetched(vec![issue("OPS-1"), issue("OPS-2")]));
    assert_eq!(s.issues().selected_index(), Some(0));
    assert_eq!(s.issues().len(), 2);
    assert_eq!(step.effects.len(), 1);
    match &step.effects[0] {
        Effect::FetchBranches(k) => assert_eq!(k, "OPS-1"),
        _ => panic!("expected a branch lookup"),
    }
    assert_eq!(step.outcome, Outcome::Continue);
}

#[test]
fn issues_fetched_empty_triggers_nothing() {
    let mut s = fresh();
    let step = s.process_event(Event::IssuesFetched(Vec::new()));
    assert_eq!(s.issues().selected_index(), None);
    assert!(step.effects.is_empty());
}

#[test]
fn branches_fetched_ends_with_sentinel_when_non_empty() {
    let mut s = fresh();
    s.process_event(Event::BranchesFetched(vec![branch("OPS-1-fix"), branch("OPS-1-try")]));
    let names = branch_names(&s);
    assert_eq!(names, vec!["OPS-1-fix", "OPS-1-try", "Create New"]);
    assert_eq!(s.branches().selected_index(), Some(0));
}

#[test]
fn branches_fetched_ends_with_sentinel_when_empty() {
    let mut s = fresh();
    s.process_event(Event::BranchesFetched(Vec::new()));
    assert_eq!(branch_names(&s), vec!["Create New"]);
}

#[test]
fn branch_completions_apply_last_write_wins_in_either_order() {
    let stale = vec![branch("OPS-1-fix")];
    let latest = vec![branch("OPS-2-feature")];

    let mut first_then_second = fresh();
    first_then_second.process_event(Event::BranchesFetched(stale.clone()));
    first_then_second.process_event(Event::BranchesFetched(latest.clone()));
    assert_eq!(branch_names(&first_then_second), vec!["OPS-2-feature", "Create New"]);

    let mut second_then_first = fresh();
    second_then_first.process_event(Event::BranchesFetched(latest));
    second_then_first.process_event(Event::BranchesFetched(stale));
    assert_eq!(branch_names(&second_then_first), vec!["OPS-1-fix", "Create New"]);
}

#[test]
fn toggling_in_progress_persists_and_refetches_with_new_clause() {
    let mut s = fresh();
    let step = key(&mut s, KeyCode::Char('i'));
    assert!(!s.config().filter_in_progress);
    assert_eq!(step.effects.len(), 2);
    match &step.effects[0] {
        Effect::SaveConfig(c) => assert!(!c.filter_in_progress),
        _ => panic!("expected the new configuration to be persisted first"),
    }
    match &step.effects[1] {
        Effect::FetchIssues(c) => {
            assert!(!c.filter_in_progress);
            assert_eq!(issues_query(c), "assignee=currentuser() AND status=\"Prioritised\"");
        }
        _ => panic!("expected a fresh ticket fetch"),
    }
}

#[test]
fn toggling_mine_persists_and_refetches_with_new_clause() {
    let mut s = fresh();
    let step = key(&mut s, KeyCode::Char('m'));
    assert!(!s.config().filter_mine);
    assert_eq!(step.effects.len(), 2);
    match &step.effects[1] {
        Effect::FetchIssues(c) => {
            assert!(!c.filter_mine);
            assert_eq!(issues_query(c), "status=3");
        }
        _ => panic!("expected a fresh ticket fetch"),
    }
}

#[test]
fn quit_key_is_an_outcome_not_an_error() {
    let mut s = fresh();
    let step = key(&mut s, KeyCode::Char('q'));
    assert_eq!(step.outcome, Outcome::Quit(QuitReason::UserRequest));
    assert!(step.effects.is_empty());
}

#[test]
fn refresh_key_refetches_under_current_config() {
    let mut s = fresh();
    let step = key(&mut s, KeyCode::Char('r'));
    assert_eq!(step.effects.len(), 1);
    match &step.effects[0] {
        Effect::FetchIssues(c) => assert_eq!(issues_query(c), "assignee=currentuser() AND status=3"),
        _ => panic!("expected a ticket fetch"),
    }
}

#[test]
fn board_mode_fetches_boards_and_escape_returns() {
    let mut s = fresh();
    let step = key(&mut s, KeyCode::Char('b'));
    assert_eq!(s.input_mode(), InputMode::BoardsList);
    assert_eq!(step.effects.len(), 1);
    assert!(matches!(step.effects[0], Effect::FetchBoards(_)));
    let step = key(&mut s, KeyCode::Esc);
    assert_eq!(s.input_mode(), InputMode::IssuesList);
    assert!(step.effects.is_empty());
}

#[test]
fn boards_are_replaced_navigated_and_opened() {
    let mut s = fresh();
    key(&mut s, KeyCode::Char('b'));
    s.process_event(Event::BoardsFetched(vec![
        BoardSummary { id: 7, name: "Ops".to_string(), permalink: "https://tracker.example/boards/7".to_string() },
        BoardSummary { id: 9, name: "Web".to_string(), permalink: "https://tracker.example/boards/9".to_string() },
    ]));
    assert_eq!(s.boards().selected_index(), Some(0));
    key(&mut s, KeyCode::Down);
    assert_eq!(s.boards().selected_index(), Some(1));
    let step = key(&mut s, KeyCode::Char('o'));
    match &step.effects[0] {
        Effect::OpenLink(l) => assert_eq!(l, "https://tracker.example/boards/9"),
        _ => panic!("expected the selected board's permalink to be opened"),
    }
}

#[test]
fn transition_flow_fetches_applies_and_resets() {
    let mut s = fresh();
    s.process_event(Event::IssuesFetched(vec![issue("OPS-1")]));
    let step = key(&mut s, KeyCode::Char('s'));
    assert_eq!(s.input_mode(), InputMode::UpdateIssueStatus);
    match &step.effects[0] {
        Effect::FetchTransitions(k) => assert_eq!(k, "OPS-1"),
        _ => panic!("expected a transition fetch"),
    }
    s.process_event(Event::TransitionsFetched(vec![
        TransitionSummary { id: "31".to_string(), name: "Done".to_string() },
    ]));
    assert_eq!(s.transitions().selected_index(), Some(0));
    let step = key(&mut s, KeyCode::Enter);
    match &step.effects[0] {
        Effect::ApplyTransition { issue_key, transition_id } => {
            assert_eq!(issue_key, "OPS-1");
            assert_eq!(transition_id, "31");
        }
        _ => panic!("expected the selected transition to be applied"),
    }
    let step = s.process_event(Event::TransitionApplied);
    assert_eq!(s.transitions().len(), 0);
    assert_eq!(s.input_mode(), InputMode::IssuesList);
    assert!(step.effects.is_empty());
}

#[test]
fn status_key_without_selection_fetches_nothing() {
    let mut s = fresh();
    let step = key(&mut s, KeyCode::Char('s'));
    assert_eq!(s.input_mode(), InputMode::UpdateIssueStatus);
    assert!(step.effects.is_empty());
}

#[test]
fn composing_a_branch_name_for_the_selected_ticket() {
    let mut s = fresh();
    s.process_event(Event::IssuesFetched(vec![issue("OPS-12")]));
    s.process_event(Event::BranchesFetched(Vec::new()));
    key(&mut s, KeyCode::Enter);
    assert!(!s.issues_focused());
    key(&mut s, KeyCode::Enter);
    assert_eq!(s.input_mode(), InputMode::Editing);
    type_text(&mut s, "fix-bug");
    assert_eq!(s.new_branch_name(), "OPS-12-fix-bug");
    let step = key(&mut s, KeyCode::Enter);
    assert_eq!(step.outcome, Outcome::Quit(QuitReason::CreatedBranch));
    match &step.effects[0] {
        Effect::CreateBranch(n) => assert_eq!(n, "OPS-12-fix-bug"),
        _ => panic!("expected the branch to be created"),
    }
}

#[test]
fn editing_buffer_backspace_drops_the_last_character() {
    let mut s = fresh();
    s.process_event(Event::IssuesFetched(vec![issue("OPS-3")]));
    s.process_event(Event::BranchesFetched(Vec::new()));
    key(&mut s, KeyCode::Enter);
    key(&mut s, KeyCode::Enter);
    type_text(&mut s, "ab");
    assert_eq!(s.raw_input_clone(), "ab");
    key(&mut s, KeyCode::Backspace);
    assert_eq!(s.raw_input_clone(), "a");
    key(&mut s, KeyCode::Backspace);
    key(&mut s, KeyCode::Backspace);
    assert_eq!(s.raw_input_clone(), "");
}

#[test]
fn entering_an_existing_branch_checks_it_out_and_quits() {
    let mut s = fresh();
    s.process_event(Event::IssuesFetched(vec![issue("OPS-1")]));
    s.process_event(Event::BranchesFetched(vec![branch("OPS-1-fix")]));
    key(&mut s, KeyCode::Enter);
    assert_eq!(s.branches().selected_index(), Some(1));
    key(&mut s, KeyCode::Down);
    assert_eq!(s.branches().selected_index(), Some(0));
    let step = key(&mut s, KeyCode::Enter);
    assert_eq!(step.outcome, Outcome::Quit(QuitReason::SwitchedBranch));
    match &step.effects[0] {
        Effect::CheckoutBranch(n) => assert_eq!(n, "OPS-1-fix"),
        _ => panic!("expected the branch to be checked out"),
    }
}

#[test]
fn right_moves_focus_only_when_a_ticket_is_selected() {
    let mut s = fresh();
    key(&mut s, KeyCode::Right);
    assert!(s.issues_focused());
    s.process_event(Event::IssuesFetched(vec![issue("OPS-1")]));
    key(&mut s, KeyCode::Right);
    assert!(!s.issues_focused());
}

#[test]
fn left_returns_focus_then_clears_ticket_selection() {
    let mut s = fresh();
    s.process_event(Event::IssuesFetched(vec![issue("OPS-1")]));
    s.process_event(Event::BranchesFetched(vec![branch("OPS-1-fix")]));
    key(&mut s, KeyCode::Right);
    key(&mut s, KeyCode::Left);
    assert!(s.issues_focused());
    assert_eq!(s.branches().selected_index(), None);
    key(&mut s, KeyCode::Left);
    assert_eq!(s.issues().selected_index(), None);
    assert_eq!(s.branches().len(), 0);
}

#[test]
fn down_and_up_retrigger_branch_lookups_for_the_new_selection() {
    let mut s = fresh();
    s.process_event(Event::IssuesFetched(vec![issue("OPS-1"), issue("OPS-2")]));
    let step = key(&mut s, KeyCode::Down);
    assert_eq!(s.issues().selected_index(), Some(1));
    match &step.effects[0] {
        Effect::FetchBranches(k) => assert_eq!(k, "OPS-2"),
        _ => panic!("expected a branch lookup"),
    }
    let step = key(&mut s, KeyCode::Up);
    assert_eq!(s.issues().selected_index(), Some(0));
    match &step.effects[0] {
        Effect::FetchBranches(k) => assert_eq!(k, "OPS-1"),
        _ => panic!("expected a branch lookup"),
    }
}

#[test]
fn open_key_uses_the_selected_tickets_permalink() {
    let mut s = fresh();
    let step = key(&mut s, KeyCode::Char('o'));
    assert!(step.effects.is_empty());
    s.process_event(Event::IssuesFetched(vec![issue("OPS-5")]));
    let step = key(&mut s, KeyCode::Char('o'));
    match &step.effects[0] {
        Effect::OpenLink(l) => assert_eq!(l, "https://tracker.example/browse/OPS-5"),
        _ => panic!("expected the ticket's permalink to be opened"),
    }
}

#[test]
fn editing_the_default_project_key_seeds_saves_and_refetches() {
    let mut s = fresh();
    let step = key(&mut s, KeyCode::Char('p'));
    assert_eq!(s.input_mode(), InputMode::EditingDefaultProject);
    assert_eq!(s.raw_input_clone(), "");
    assert!(step.effects.is_empty());
    type_text(&mut s, "OPS");
    let step = key(&mut s, KeyCode::Enter);
    assert_eq!(s.input_mode(), InputMode::IssuesList);
    assert_eq!(s.config().default_project_key, "OPS");
    assert_eq!(step.effects.len(), 2);
    match &step.effects[0] {
        Effect::SaveConfig(c) => assert_eq!(c.default_project_key, "OPS"),
        _ => panic!("expected the new configuration to be persisted"),
    }
    match &step.effects[1] {
        Effect::FetchIssues(c) => assert_eq!(
            issues_query(c),
            "assignee=currentuser() AND status=3 AND project = \"OPS\"",
        ),
        _ => panic!("expected a fresh ticket fetch"),
    }
}

#[test]
fn project_key_editing_is_seeded_with_the_current_key() {
    let mut s = fresh();
    type_text(&mut s, "p");
    type_text(&mut s, "WEB");
    key(&mut s, KeyCode::Enter);
    let step = key(&mut s, KeyCode::Char('c'));
    assert_eq!(s.raw_input_clone(), "WEB");
    assert!(step.effects.is_empty());
    key(&mut s, KeyCode::Esc);
    assert_eq!(s.input_mode(), InputMode::IssuesList);
    assert_eq!(s.config().default_project_key, "WEB");
}

#[test]
fn unknown_keys_are_ignored() {
    let mut s = fresh();
    let step = key(&mut s, KeyCode::Other);
    assert_eq!(step.outcome, Outcome::Continue);
    assert!(step.effects.is_empty());
    assert_eq!(s.input_mode(), InputMode::IssuesList);
}

#[test]
fn completion_events_are_not_gated_by_mode() {
    let mut s = fresh();
    key(&mut s, KeyCode::Char('b'));
    assert_eq!(s.input_mode(), InputMode::BoardsList);
    s.process_event(Event::IssuesFetched(vec![issue("OPS-1")]));
    assert_eq!(s.issues().len(), 1);
    assert_eq!(s.input_mode(), InputMode::BoardsList);
}

#[test]
fn a_failed_fetch_leaves_the_state_untouched() {
    let mut s = fresh();
    s.process_event(Event::IssuesFetched(vec![issue("OPS-1")]));
    s.process_event(Event::BranchesFetched(vec![branch("OPS-1-fix")]));
    let step = s.process_event(Event::FetchFailed(FetchKind::Branches));
    assert_eq!(step.outcome, Outcome::Continue);
    assert!(step.effects.is_empty());
    assert_eq!(s.issues().len(), 1);
    assert_eq!(s.issues().selected_index(), Some(0));
    assert_eq!(branch_names(&s), vec!["OPS-1-fix", "Create New"]);
}

#[test]
fn initial_state_is_empty_and_focused_on_tickets() {
    let s = fresh();
    assert_eq!(s.issues().len(), 0);
    assert_eq!(s.boards().len(), 0);
    assert_eq!(s.branches().len(), 0);
    assert_eq!(s.transitions().len(), 0);
    assert_eq!(s.input_mode(), InputMode::IssuesList);
    assert!(s.issues_focused());
    assert_eq!(s.raw_input_clone(), "");
}
