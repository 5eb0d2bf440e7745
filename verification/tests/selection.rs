use jira_tui::selection::SelectionList;
use jira_tui::summaries::BranchSummary;

fn branch(name: &str) -> BranchSummary {
    BranchSummary { name: name.to_string() }
}

fn list_of(names: &[&str]) -> SelectionList<BranchSummary> {
    let mut l = SelectionList::new();
    l.replace(names.iter().map(|n| branch(n)).collect());
    l
}

#[test]
fn new_list_is_empty_and_unselected() {
    let l: SelectionList<BranchSummary> = SelectionList::new();
    assert_eq!(l.len(), 0);
    assert_eq!(l.selected_index(), None);
}

#[test]
fn replace_selects_first_when_non_empty() {
    let l = list_of(&["a", "b", "c"]);
    assert_eq!(l.len(), 3);
    assert_eq!(l.selected_index(), Some(0));
    assert_eq!(l.get(1).name, "b");
}

#[test]
fn replace_with_empty_clears_selection() {
    let mut l = list_of(&["a"]);
    l.replace(Vec::new());
    assert_eq!(l.len(), 0);
    assert_eq!(l.selected_index(), None);
}

#[test]
fn advance_on_empty_is_a_no_op() {
    let mut l: SelectionList<BranchSummary> = SelectionList::new();
    l.advance();
    assert_eq!(l.selected_index(), None);
    l.retreat();
    assert_eq!(l.selected_index(), None);
}

#[test]
fn advance_from_absent_selects_first() {
    let mut l = list_of(&["a", "b"]);
    l.clear_selection();
    l.advance();
    assert_eq!(l.selected_index(), Some(0));
}

#[test]
fn retreat_from_absent_selects_last() {
    let mut l = list_of(&["a", "b", "c"]);
    l.clear_selection();
    l.retreat();
    assert_eq!(l.selected_index(), Some(2));
}

#[test]
fn advance_past_last_wraps_to_first() {
    let mut l = list_of(&["a", "b", "c"]);
    l.advance();
    l.advance();
    assert_eq!(l.selected_index(), Some(2));
    l.advance();
    assert_eq!(l.selected_index(), Some(0));
}

#[test]
fn retreat_past_first_wraps_to_last() {
    let mut l = list_of(&["a", "b", "c"]);
    assert_eq!(l.selected_index(), Some(0));
    l.retreat();
    assert_eq!(l.selected_index(), Some(2));
    l.retreat();
    assert_eq!(l.selected_index(), Some(1));
}

#[test]
fn cursor_stays_valid_under_any_navigation() {
    let mut l = list_of(&["a", "b", "c", "d"]);
    let moves = [0, 1, 1, 0, 2, 0, 0, 1, 2, 2, 0, 1];
    for m in moves {
        match m {
            0 => l.advance(),
            1 => l.retreat(),
            _ => l.clear_selection(),
        }
        match l.selected_index() {
            Some(i) => assert!(i < l.len()),
            None => {}
        }
    }
}

#[test]
fn clear_selection_keeps_items() {
    let mut l = list_of(&["a", "b"]);
    l.clear_selection();
    assert_eq!(l.selected_index(), None);
    assert_eq!(l.len(), 2);
}

#[test]
fn selected_returns_item_under_cursor() {
    let mut l = list_of(&["a", "b"]);
    l.advance();
    assert_eq!(l.selected().unwrap().name, "b");
    l.clear_selection();
    assert!(l.selected().is_none());
}
