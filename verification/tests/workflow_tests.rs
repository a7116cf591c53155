use git_commitizen::catalog::{build_commit_types, format_commit_types};
use git_commitizen::error::ErrorKind;
use git_commitizen::workflow::{Event, Step, Workflow};

const REJECTED: Result<(), ErrorKind> = Err(ErrorKind::Validation);

fn reply(text: &str) -> Event {
    Event::Reply(text.to_string())
}

fn at_footer_confirm(selection: &str, scope: &str, description: &str, body: &str) -> Workflow {
    let mut run = Workflow::new();
    assert_eq!(run.advance(Event::Inspected(false)), Ok(()));
    assert_eq!(run.advance(reply(selection)), Ok(()));
    assert_eq!(run.advance(reply(scope)), Ok(()));
    assert_eq!(run.advance(reply(description)), Ok(()));
    assert_eq!(run.advance(reply(body)), Ok(()));
    assert_eq!(run.step(), Step::FooterConfirm);
    run
}

#[test]
fn run_starts_by_checking_the_staging() {
    let run = Workflow::new();
    assert_eq!(run.step(), Step::CheckStaging);
    assert!(!run.is_finished());
    assert_eq!(run.message(), "");
    assert_eq!(run.error(), None);
}

#[test]
fn clean_tree_skips_the_staging_question() {
    let mut run = Workflow::new();
    assert_eq!(run.advance(Event::Inspected(false)), Ok(()));
    assert_eq!(run.step(), Step::SelectType);
}

#[test]
fn unstaged_changes_are_staged_on_yes_or_empty_reply() {
    for answer in ["y", "YES", "", "  ", "whatever"] {
        let mut run = Workflow::new();
        assert_eq!(run.advance(Event::Inspected(true)), Ok(()));
        assert_eq!(run.step(), Step::StageConfirm);
        assert_eq!(run.advance(reply(answer)), Ok(()));
        assert_eq!(run.step(), Step::StageApply);
        assert_eq!(run.advance(Event::Completed), Ok(()));
        assert_eq!(run.step(), Step::SelectType);
    }
}

#[test]
fn unstaged_changes_are_left_on_no() {
    for answer in ["n", "No", " NO "] {
        let mut run = Workflow::new();
        run.advance(Event::Inspected(true)).unwrap();
        assert_eq!(run.advance(reply(answer)), Ok(()));
        assert_eq!(run.step(), Step::SelectType);
    }
}

#[test]
fn failed_staging_ends_the_run() {
    let mut run = Workflow::new();
    run.advance(Event::Inspected(true)).unwrap();
    run.advance(reply("y")).unwrap();
    assert_eq!(run.advance(Event::Failed(ErrorKind::IndexWrite)), Ok(()));
    assert_eq!(run.step(), Step::Failed);
    assert_eq!(run.error(), Some(ErrorKind::IndexWrite));
    assert!(run.is_finished());
    assert_eq!(run.advance(Event::Completed), Ok(()));
    assert_eq!(run.step(), Step::Failed);
}

#[test]
fn failed_inspection_ends_the_run() {
    let mut run = Workflow::new();
    assert_eq!(run.advance(Event::Failed(ErrorKind::RepositoryAccess)), Ok(()));
    assert_eq!(run.step(), Step::Failed);
    assert_eq!(run.error(), Some(ErrorKind::RepositoryAccess));
}

#[test]
fn selected_line_gives_the_type() {
    let lines = format_commit_types(build_commit_types());
    let tags = build_commit_types();
    for (line, entry) in lines.iter().zip(tags.iter()) {
        let mut run = Workflow::new();
        run.advance(Event::Inspected(false)).unwrap();
        assert_eq!(run.advance(reply(line)), Ok(()));
        assert_eq!(run.step(), Step::InputScope);
        assert_eq!(run.commit_type(), entry.0);
    }
}

#[test]
fn selection_without_a_word_ends_the_run_without_commit() {
    for selection in ["", "   "] {
        let mut run = Workflow::new();
        run.advance(Event::Inspected(false)).unwrap();
        assert_eq!(run.advance(reply(selection)), Ok(()));
        assert_eq!(run.step(), Step::Cancelled);
        assert!(run.is_finished());
        assert_eq!(run.message(), "");
    }
}

#[test]
fn message_with_scope_and_no_body_or_footer() {
    let mut run = at_footer_confirm("feat     - A new feature", "api", "add login endpoint", "");
    assert_eq!(run.advance(reply("")), Ok(()));
    assert_eq!(run.step(), Step::Commit);
    assert_eq!(run.message(), "feat(api): add login endpoint");
    assert_eq!(run.advance(Event::Completed), Ok(()));
    assert_eq!(run.step(), Step::Done);
    assert!(run.is_finished());
    assert_eq!(run.message(), "feat(api): add login endpoint");
}

#[test]
fn message_without_scope_with_body() {
    let mut run =
        at_footer_confirm("fix      - A bug fix", "", "null pointer", "Detailed repro steps.");
    assert_eq!(run.advance(reply("n")), Ok(()));
    assert_eq!(run.message(), "fix: null pointer\n\nDetailed repro steps.");
    assert_eq!(run.scope(), "");
    assert_eq!(run.description(), "null pointer");
    assert_eq!(run.body(), "Detailed repro steps.");
    assert_eq!(run.footer(), "");
}

#[test]
fn footer_close_42_is_appended_after_a_blank_line() {
    let mut run = at_footer_confirm("fix", "", "null pointer", "");
    assert_eq!(run.advance(reply("yes")), Ok(()));
    assert_eq!(run.step(), Step::SelectFooterType);
    assert_eq!(run.advance(reply("close")), Ok(()));
    assert_eq!(run.step(), Step::InputIssueNumber);
    assert_eq!(run.advance(reply("42")), Ok(()));
    assert_eq!(run.step(), Step::Commit);
    assert_eq!(run.footer(), "close: #42");
    assert_eq!(run.message(), "fix: null pointer\n\nclose: #42");
}

#[test]
fn footer_follows_the_body_after_a_blank_line() {
    let mut run = at_footer_confirm("feat", "ui", "button", "Adds the button.");
    run.advance(reply("Y")).unwrap();
    run.advance(reply("fix")).unwrap();
    assert_eq!(run.advance(reply("7")), Ok(()));
    assert_eq!(run.message(), "feat(ui): button\n\nAdds the button.\n\nfix: #7");
}

#[test]
fn issue_number_abc_is_rejected_until_an_integer_comes() {
    let mut run = at_footer_confirm("fix", "", "null pointer", "");
    run.advance(reply("y")).unwrap();
    run.advance(reply("close")).unwrap();
    assert_eq!(run.advance(reply("abc")), REJECTED);
    assert_eq!(run.step(), Step::InputIssueNumber);
    assert_eq!(run.footer(), "");
    assert_eq!(run.message(), "");
    assert_eq!(run.error(), None);
    assert_eq!(run.advance(reply("")), REJECTED);
    assert_eq!(run.advance(reply("4 2")), REJECTED);
    assert_eq!(run.step(), Step::InputIssueNumber);
    assert_eq!(run.footer(), "");
    assert_eq!(run.advance(reply("42")), Ok(()));
    assert_eq!(run.step(), Step::Commit);
    assert_eq!(run.footer(), "close: #42");
}

#[test]
fn unknown_footer_type_is_asked_again() {
    let mut run = at_footer_confirm("fix", "", "d", "");
    run.advance(reply("y")).unwrap();
    assert_eq!(run.advance(reply("resolve")), REJECTED);
    assert_eq!(run.step(), Step::SelectFooterType);
    assert_eq!(run.advance(reply("fix")), Ok(()));
    assert_eq!(run.step(), Step::InputIssueNumber);
}

#[test]
fn empty_description_is_asked_again() {
    let mut run = Workflow::new();
    run.advance(Event::Inspected(false)).unwrap();
    run.advance(reply("docs")).unwrap();
    run.advance(reply("")).unwrap();
    assert_eq!(run.step(), Step::InputDescription);
    assert_eq!(run.advance(reply("")), REJECTED);
    assert_eq!(run.step(), Step::InputDescription);
    assert_eq!(run.advance(reply("explain")), Ok(()));
    assert_eq!(run.step(), Step::InputBody);
}

#[test]
fn body_token_e_opens_the_editor() {
    for token in ["e", "E", "  e  "] {
        let mut run = Workflow::new();
        run.advance(Event::Inspected(false)).unwrap();
        run.advance(reply("feat")).unwrap();
        run.advance(reply("core")).unwrap();
        run.advance(reply("thing")).unwrap();
        assert_eq!(run.advance(reply(token)), Ok(()));
        assert_eq!(run.step(), Step::BodyEditorEscape);
        assert_eq!(run.body(), "");
        assert_eq!(run.advance(reply("Written in the editor.\n")), Ok(()));
        assert_eq!(run.step(), Step::FooterConfirm);
        assert_eq!(run.body(), "Written in the editor.\n");
        run.advance(reply("n")).unwrap();
        assert_eq!(run.message(), "feat(core): thing\n\nWritten in the editor.\n");
    }
}

#[test]
fn editor_that_cannot_start_ends_the_run() {
    let mut run = Workflow::new();
    run.advance(Event::Inspected(false)).unwrap();
    run.advance(reply("feat")).unwrap();
    run.advance(reply("")).unwrap();
    run.advance(reply("thing")).unwrap();
    run.advance(reply("e")).unwrap();
    assert_eq!(run.advance(Event::Failed(ErrorKind::EditorInvocation)), Ok(()));
    assert_eq!(run.step(), Step::Failed);
    assert_eq!(run.error(), Some(ErrorKind::EditorInvocation));
}

#[test]
fn cancellation_ends_the_run_at_every_prompt() {
    let replies = ["y", "feat", "api", "describe", "e", "edited", "y", "close"];
    for answered in 0..=replies.len() {
        let mut run = Workflow::new();
        run.advance(Event::Inspected(true)).unwrap();
        for text in &replies[..answered] {
            if run.step() == Step::StageApply {
                run.advance(Event::Completed).unwrap();
            }
            assert_eq!(run.advance(reply(text)), Ok(()));
        }
        if run.step() == Step::StageApply {
            run.advance(Event::Completed).unwrap();
        }
        assert_eq!(run.advance(Event::Cancelled), Ok(()));
        assert_eq!(run.step(), Step::Cancelled);
        assert_eq!(run.message(), "");
        assert_eq!(run.advance(Event::Completed), Ok(()));
        assert_eq!(run.advance(reply("42")), Ok(()));
        assert_eq!(run.step(), Step::Cancelled);
    }
}

#[test]
fn failed_commit_ends_the_run() {
    let mut run = at_footer_confirm("fix", "", "d", "");
    run.advance(reply("n")).unwrap();
    assert_eq!(run.step(), Step::Commit);
    assert_eq!(run.advance(Event::Failed(ErrorKind::NothingToCommit)), Ok(()));
    assert_eq!(run.step(), Step::Failed);
    assert_eq!(run.error(), Some(ErrorKind::NothingToCommit));
}

#[test]
fn validation_failure_never_ends_a_run() {
    let mut run = at_footer_confirm("fix", "", "d", "");
    assert_eq!(run.advance(Event::Failed(ErrorKind::Validation)), Ok(()));
    assert_eq!(run.step(), Step::FooterConfirm);
    assert_eq!(run.error(), None);
}

#[test]
fn events_that_a_step_does_not_await_change_nothing() {
    let mut run = Workflow::new();
    assert_eq!(run.advance(reply("feat")), Ok(()));
    assert_eq!(run.advance(Event::Completed), Ok(()));
    assert_eq!(run.step(), Step::CheckStaging);
    run.advance(Event::Inspected(false)).unwrap();
    assert_eq!(run.advance(Event::Inspected(true)), Ok(()));
    assert_eq!(run.advance(Event::Completed), Ok(()));
    assert_eq!(run.step(), Step::SelectType);
}

#[test]
fn done_run_takes_no_further_event() {
    let mut run = at_footer_confirm("fix", "", "d", "");
    run.advance(reply("n")).unwrap();
    run.advance(Event::Completed).unwrap();
    assert_eq!(run.step(), Step::Done);
    assert_eq!(run.advance(Event::Cancelled), Ok(()));
    assert_eq!(run.advance(Event::Failed(ErrorKind::CommitCreation)), Ok(()));
    assert_eq!(run.step(), Step::Done);
    assert_eq!(run.error(), None);
}
