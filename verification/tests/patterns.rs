use verified_bot_commit::patterns::{decide_selection, is_file_selected, pattern_matches};

fn pats(ps: &[&str]) -> Vec<String> {
    ps.iter().map(|p| p.to_string()).collect()
}

#[test]
fn readme_patterns() {
    let p = pats(&["README.md", "*.txt", "src/**/tests/*", "!test-data/dont-include-this", "test-data/**"]);
    assert!(is_file_selected("README.md", &p));
    assert!(is_file_selected("notes.txt", &p));
    assert!(is_file_selected("src/a/b/tests/t.rs", &p));
    assert!(is_file_selected("test-data/keep", &p));
    assert!(!is_file_selected("test-data/dont-include-this", &p));
    assert!(!is_file_selected("src/main.rs", &p));
}

#[test]
fn no_patterns_select_nothing() {
    assert!(!is_file_selected("README.md", &Vec::new()));
}

#[test]
fn comments_and_blanks_are_ignored() {
    let p = pats(&["#*.md", "", "*.md"]);
    assert_eq!(pattern_matches("README.md", &p), vec![false, false, true]);
    assert!(is_file_selected("README.md", &p));
    assert!(!is_file_selected("README.md", &pats(&["#README.md"])));
}

#[test]
fn first_match_decides() {
    let p = pats(&["!*.md", "README.md"]);
    assert!(!is_file_selected("README.md", &p));
    let p = pats(&["README.md", "!*.md"]);
    assert!(is_file_selected("README.md", &p));
}

#[test]
fn decide_from_given_matches() {
    let p = pats(&["# c", "!a", "b", "c"]);
    assert!(!decide_selection(&p, &vec![true, false, false, false]));
    assert!(!decide_selection(&p, &vec![false, true, true, true]));
    assert!(decide_selection(&p, &vec![false, false, true, false]));
    assert!(decide_selection(&p, &vec![true, false, false, true]));
}

#[test]
fn wildcards_match() {
    let p = pats(&["docs/**", "*.{rs,toml}", "!secret?.txt", "?.txt"]);
    assert!(is_file_selected("docs/a/b.md", &p));
    assert!(is_file_selected("Cargo.toml", &p));
    assert!(is_file_selected("a.txt", &p));
    assert!(!is_file_selected("secret1.txt", &p));
    assert!(!is_file_selected("src/lib.rs", &p));
    assert_eq!(pattern_matches("docs/x", &p), vec![true, false, false, false]);
}
