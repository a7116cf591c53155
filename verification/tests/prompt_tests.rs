use git_commitizen::prompt::{
    build_footer, confirm_prompt, confirm_reply, confirmation, filter_items,
    footer_labels, is_editor_token, is_valid_issue_number, issue_number_error, normalize,
    wants_editor, FooterKind,
};

#[test]
fn normalize_trims_and_lowers() {
    assert_eq!(normalize("  YES \n"), "yes");
    assert_eq!(normalize("No"), "no");
    assert_eq!(normalize("   "), "");
    assert_eq!(normalize(" ÉCOLE "), "école");
}

#[test]
fn confirm_prompt_names_the_default() {
    assert_eq!(
        confirm_prompt("Do you want to add a footer?", false),
        "Do you want to add a footer? (y/n, default N)"
    );
    assert_eq!(confirm_prompt("Stage?", true), "Stage? (y/n, default Y)");
}

#[test]
fn confirmation_judges_normalized_replies() {
    for default in [true, false] {
        assert!(confirmation("y", default));
        assert!(confirmation("yes", default));
        assert!(!confirmation("n", default));
        assert!(!confirmation("no", default));
        assert_eq!(confirmation("", default), default);
        assert_eq!(confirmation("maybe", default), default);
        assert_eq!(confirmation("Y", default), default);
        assert_eq!(confirmation("yes ", default), default);
    }
}

#[test]
fn confirm_reply_ignores_case_and_white_space() {
    assert!(confirm_reply("  YES ", false));
    assert!(confirm_reply("Y", false));
    assert!(confirm_reply("y\n", false));
    assert!(!confirm_reply(" No", true));
    assert!(!confirm_reply("N", true));
}

#[test]
fn confirm_reply_falls_back_to_the_default() {
    assert!(confirm_reply("", true));
    assert!(!confirm_reply("", false));
    assert!(confirm_reply("what", true));
    assert!(!confirm_reply("what", false));
    assert!(confirm_reply("   ", true));
    assert!(!confirm_reply("yess", false));
}

#[test]
fn editor_token_is_the_letter_e() {
    assert!(is_editor_token("e"));
    assert!(!is_editor_token("E"));
    assert!(!is_editor_token(""));
    assert!(!is_editor_token("ee"));
    assert!(wants_editor("e"));
    assert!(wants_editor("E"));
    assert!(wants_editor("  e\n"));
    assert!(wants_editor("\tE "));
    assert!(!wants_editor(""));
    assert!(!wants_editor("edit"));
    assert!(!wants_editor("e e"));
    assert!(!wants_editor("Some body text"));
}

#[test]
fn filter_keeps_items_that_hold_the_text() {
    let items: Vec<String> = vec![
        "feat     - A new feature".to_string(),
        "fix      - A bug fix".to_string(),
        "docs     - Documentation only changes".to_string(),
    ];
    assert_eq!(filter_items("f", &items), vec![items[0].clone(), items[1].clone()]);
    assert_eq!(filter_items("fix", &items), vec![items[1].clone()]);
    assert_eq!(filter_items("", &items), items);
    assert_eq!(filter_items("zzz", &items), Vec::<String>::new());
    assert_eq!(filter_items("Fix", &items), Vec::<String>::new());
    assert_eq!(filter_items("x", &Vec::new()), Vec::<String>::new());
}

#[test]
fn filter_agrees_with_std() {
    let items: Vec<String> =
        ["alpha", "beta", "gamma", "", "alphabet", "ßeta"].iter().map(|s| s.to_string()).collect();
    for text in ["", "a", "alp", "et", "ß", "gamma", "gammas"] {
        let expected: Vec<String> =
            items.iter().filter(|item| item.contains(text)).cloned().collect();
        assert_eq!(filter_items(text, &items), expected);
    }
}

#[test]
fn issue_number_must_be_an_integer() {
    assert!(is_valid_issue_number("42"));
    assert!(is_valid_issue_number(" 42 "));
    assert!(is_valid_issue_number("-1"));
    assert!(!is_valid_issue_number("abc"));
    assert!(!is_valid_issue_number(""));
    assert!(!is_valid_issue_number("4 2"));
    assert!(!is_valid_issue_number("#42"));
    assert!(!is_valid_issue_number("9999999999"));
}

#[test]
fn issue_number_error_quotes_the_text() {
    assert_eq!(issue_number_error("abc"), "'abc' is not a valid integer");
    assert_eq!(issue_number_error(""), "'' is not a valid integer");
}

#[test]
fn footer_kinds_are_fix_and_close() {
    assert_eq!(footer_labels(), vec!["fix".to_string(), "close".to_string()]);
    assert_eq!(FooterKind::Fix.label(), "fix");
    assert_eq!(FooterKind::Close.label(), "close");
    assert_eq!(FooterKind::from_label("fix"), Some(FooterKind::Fix));
    assert_eq!(FooterKind::from_label("close"), Some(FooterKind::Close));
    assert_eq!(FooterKind::from_label("Close"), None);
    assert_eq!(FooterKind::from_label(""), None);
    assert_eq!(FooterKind::from_label("closes"), None);
}

#[test]
fn footer_names_kind_and_issue() {
    assert_eq!(build_footer(FooterKind::Close, "42"), "close: #42");
    assert_eq!(build_footer(FooterKind::Fix, "7"), "fix: #7");
    assert_eq!(build_footer(FooterKind::Fix, " 7 "), "fix: # 7 ");
}
