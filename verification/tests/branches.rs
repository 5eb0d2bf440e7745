use jira_tui::branches::{matching_branches, str_starts_with};

fn names(list: &[&str]) -> Vec<String> {
    list.iter().map(|n| n.to_string()).collect()
}

fn matched(list: &[&str], key: &str) -> Vec<String> {
    matching_branches(names(list), key).into_iter().map(|b| b.name).collect()
}

#[test]
fn keeps_exactly_the_prefixed_names_in_order() {
    let got = matched(&["OPS-1-fix", "WEB-2-x", "OPS-12-more", "ops-1-case"], "OPS-1");
    assert_eq!(got, vec!["OPS-1-fix", "OPS-12-more"]);
}

#[test]
fn empty_prefix_matches_every_name() {
    let got = matched(&["a", "b"], "");
    assert_eq!(got, vec!["a", "b"]);
}

#[test]
fn no_match_yields_an_empty_list() {
    let got = matched(&["main", "develop"], "OPS-9");
    assert!(got.is_empty());
}

#[test]
fn prefix_matching_handles_multibyte_names() {
    let got = matched(&["OPS-1-héllo", "OPS-1-日本語", "héllo-OPS-1"], "OPS-1");
    assert_eq!(got, vec!["OPS-1-héllo", "OPS-1-日本語"]);
}

#[test]
fn starts_with_agrees_with_std() {
    let cases = [("abc", "ab"), ("abc", "abc"), ("abc", "abcd"), ("abc", ""), ("", "a"), ("déjà", "dé")];
    for (s, p) in cases {
        assert_eq!(str_starts_with(s, p), s.starts_with(p));
    }
}
