use git_commitizen::message::build_commit_message;

#[test]
fn header_with_scope() {
    let message = build_commit_message("feat", "api", "add login endpoint", "", "");
    assert_eq!(message, "feat(api): add login endpoint");
}

#[test]
fn header_without_scope_then_body() {
    let message = build_commit_message("fix", "", "null pointer", "Detailed repro steps.", "");
    assert_eq!(message, "fix: null pointer\n\nDetailed repro steps.");
}

#[test]
fn footer_follows_header_after_one_blank_line() {
    let message = build_commit_message("fix", "", "null pointer", "", "close: #42");
    assert_eq!(message, "fix: null pointer\n\nclose: #42");
}

#[test]
fn body_and_footer_each_after_one_blank_line() {
    let message = build_commit_message("feat", "core", "x", "body text", "fix: #7");
    assert_eq!(message, "feat(core): x\n\nbody text\n\nfix: #7");
}

#[test]
fn empty_scope_adds_no_parentheses() {
    let message = build_commit_message("docs", "", "tidy", "b", "f");
    assert!(!message.contains('('));
    assert!(!message.contains(')'));
    let kept = build_commit_message("docs", "", "tidy (again)", "", "");
    assert_eq!(kept, "docs: tidy (again)");
}

#[test]
fn scope_group_stands_between_type_and_colon() {
    let message = build_commit_message("perf", "db", "index", "", "");
    assert!(message.starts_with("perf(db): "));
    assert_eq!(message.matches('(').count(), 1);
    assert_eq!(message.matches(')').count(), 1);
}

#[test]
fn building_twice_gives_the_same_bytes() {
    let first = build_commit_message("feat", "ui", "héllo", "b\nb", "close: #1");
    let second = build_commit_message("feat", "ui", "héllo", "b\nb", "close: #1");
    assert_eq!(first.as_bytes(), second.as_bytes());
}

#[test]
fn malformed_parts_are_taken_as_they_are() {
    assert_eq!(build_commit_message("", "", "", "", ""), ": ");
    assert_eq!(build_commit_message("a", "(", "", "", ""), "a((): ");
}

#[test]
fn names_are_reachable_from_the_crate_root() {
    let lines = git_commitizen::format_commit_types(git_commitizen::build_commit_types());
    assert_eq!(lines.len(), 11);
    assert_eq!(git_commitizen::build_commit_message("ci", "", "x", "", ""), "ci: x");
    assert_eq!(git_commitizen::has_unstaged_tracked_files(Some(&Vec::new())), Ok(false));
}
