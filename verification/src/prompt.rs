//! What the prompts decide: how a reply to a yes-or-no question counts, which
//! items a typed text leaves in a list, which description and which issue
//! number are accepted, and how the footer reads.

use crate::text::{
    contains_text, is_i32_text, is_integer, lowercase, occurs_in, same_text, trim, trimmed,
};
use vstd::prelude::*;
use vstd::string::*;

verus! {

/// A reply as it is judged: white space taken off its ends, then in lower
/// case.
pub open spec fn normalized(reply: Seq<char>) -> Seq<char> {
    lowercase(trimmed(reply))
}

/// The reply as it is judged.
pub fn normalize(reply: &str) -> (normal: String)
    ensures
        normal@ == normalized(reply@),
{
    trim(reply).to_lowercase()
}

/// The question as the operator reads it: the message, then the two answers
/// and which of them an empty reply stands for.
pub open spec fn confirm_prompt_text(message: Seq<char>, default: bool) -> Seq<char> {
    let mark = if default {
        "Y"@
    } else {
        "N"@
    };
    message + " (y/n, default "@ + mark + ")"@
}

/// The title of a yes-or-no prompt.
pub fn confirm_prompt(message: &str, default: bool) -> (title: String)
    ensures
        title@ == confirm_prompt_text(message@, default),
{
    let mut title = String::from_str(message);
    title.append(" (y/n, default ");
    if default {
        title.append("Y");
    } else {
        title.append("N");
    }
    title.append(")");
    title
}

/// How a normalized reply to a yes-or-no question counts: `y` and `yes` are
/// yes, `n` and `no` are no, and every other reply, the empty one too, is the
/// default.
pub open spec fn confirmed(normal: Seq<char>, default: bool) -> bool {
    if normal == "y"@ || normal == "yes"@ {
        true
    } else if normal == "n"@ || normal == "no"@ {
        false
    } else {
        default
    }
}

/// Judges a reply that is normalized already.
pub fn confirmation(normal: &str, default: bool) -> (yes: bool)
    ensures
        yes == confirmed(normal@, default),
{
    if same_text(normal, "y") || same_text(normal, "yes") {
        true
    } else if same_text(normal, "n") || same_text(normal, "no") {
        false
    } else {
        default
    }
}

/// Judges the reply to a yes-or-no question, whatever its case and the white
/// space around it.
pub fn confirm_reply(reply: &str, default: bool) -> (yes: bool)
    ensures
        yes == confirmed(normalized(reply@), default),
{
    let normal = normalize(reply);
    confirmation(normal.as_str(), default)
}

/// Whether a normalized body is the token that asks for the editor.
pub fn is_editor_token(normal: &str) -> (token: bool)
    ensures
        token == (normal@ == "e"@),
{
    same_text(normal, "e")
}

/// Whether the text entered as the body asks for the editor in its place: the
/// single letter `e`, in either case, with white space around it or none.
pub fn wants_editor(body: &str) -> (editor: bool)
    ensures
        editor == (normalized(body@) == "e"@),
{
    let normal = normalize(body);
    is_editor_token(normal.as_str())
}

/// The texts of a list of strings.
pub open spec fn texts(items: Seq<String>) -> Seq<Seq<char>> {
    Seq::new(items.len(), |i: int| items[i]@)
}

/// The items that hold `pattern`, in their order.
pub open spec fn matching(items: Seq<Seq<char>>, pattern: Seq<char>) -> Seq<Seq<char>>
    decreases items.len(),
{
    if items.len() == 0 {
        items
    } else {
        let before = matching(items.drop_last(), pattern);
        if occurs_in(pattern, items.last()) {
            before.push(items.last())
        } else {
            before
        }
    }
}

/// The items of a list that the typed text leaves: those that hold it as a
/// part, in the order of the list.
pub fn filter_items(text: &str, items: &Vec<String>) -> (kept: Vec<String>)
    ensures
        texts(kept@) == matching(texts(items@), text@),
{
    let ghost all = texts(items@);
    let mut kept: Vec<String> = Vec::new();
    let mut i: usize = 0;
    assert(all.take(0) =~= Seq::<Seq<char>>::empty());
    assert(texts(kept@) =~= matching(all.take(0), text@));
    while i < items.len()
        invariant
            i <= items.len(),
            all == texts(items@),
            texts(kept@) == matching(all.take(i as int), text@),
        decreases items.len() - i,
    {
        let ghost before = texts(kept@);
        assert(all.take(i + 1).drop_last() =~= all.take(i as int));
        assert(all.take(i + 1).last() == items@[i as int]@);
        if contains_text(items[i].as_str(), text) {
            kept.push(items[i].clone());
            assert(texts(kept@) =~= before.push(items@[i as int]@));
        }
        i += 1;
    }
    assert(all.take(i as int) =~= all);
    kept
}

/// Whether the text is accepted as a description: it is not empty.
pub fn is_valid_description(text: &str) -> (valid: bool)
    ensures
        valid == (text@.len() > 0),
{
    !text.is_empty()
}

/// The line that tells the operator why the description was not accepted.
pub fn description_error(text: &str) -> (line: String)
    ensures
        line@ == "The description may not be empty"@,
{
    String::from_str("The description may not be empty")
}

/// Whether the text is accepted as an issue number: it writes a 32-bit signed
/// integer, with white space around it or none.
pub fn is_valid_issue_number(text: &str) -> (valid: bool)
    ensures
        valid == is_i32_text(trimmed(text@)),
{
    is_integer(text)
}

/// What is said of an issue number that was not accepted.
pub open spec fn issue_number_error_text(text: Seq<char>) -> Seq<char> {
    "'"@ + text + "' is not a valid integer"@
}

/// The line that tells the operator why the issue number was not accepted.
pub fn issue_number_error(text: &str) -> (line: String)
    ensures
        line@ == issue_number_error_text(text@),
{
    let mut line = String::from_str("'");
    line.append(text);
    line.append("' is not a valid integer");
    line
}

/// What a footer does to the issue that it names.
#[derive(Clone, Copy, Debug, PartialEq, Eq, Structural)]
pub enum FooterKind {
    Fix,
    Close,
}

/// The word that stands for a kind of footer.
pub open spec fn footer_label(kind: FooterKind) -> Seq<char> {
    match kind {
        FooterKind::Fix => "fix"@,
        FooterKind::Close => "close"@,
    }
}

/// The kind of footer that a word stands for, if it stands for one.
pub open spec fn footer_kind_named(label: Seq<char>) -> Option<FooterKind> {
    if label == "fix"@ {
        Some(FooterKind::Fix)
    } else if label == "close"@ {
        Some(FooterKind::Close)
    } else {
        None
    }
}

/// The footer: the word of its kind, then `: #` and the issue number as it was
/// entered.
pub open spec fn footer_text(kind: FooterKind, issue_number: Seq<char>) -> Seq<char> {
    footer_label(kind) + ": #"@ + issue_number
}

impl FooterKind {
    /// The word that stands for this kind.
    pub fn label(self) -> (word: &'static str)
        ensures
            word@ == footer_label(self),
    {
        match self {
            FooterKind::Fix => "fix",
            FooterKind::Close => "close",
        }
    }

    /// The kind that `label` stands for; `None` for every other text.
    pub fn from_label(label: &str) -> (kind: Option<FooterKind>)
        ensures
            kind == footer_kind_named(label@),
    {
        if same_text(label, "fix") {
            Some(FooterKind::Fix)
        } else if same_text(label, "close") {
            Some(FooterKind::Close)
        } else {
            None
        }
    }
}

/// The words of the footer kinds, in the order in which they are offered.
pub fn footer_labels() -> (labels: Vec<String>)
    ensures
        texts(labels@) == seq![footer_label(FooterKind::Fix), footer_label(FooterKind::Close)],
{
    let mut labels: Vec<String> = Vec::new();
    labels.push(String::from_str(FooterKind::Fix.label()));
    labels.push(String::from_str(FooterKind::Close.label()));
    assert(texts(labels@) =~= seq![
        footer_label(FooterKind::Fix),
        footer_label(FooterKind::Close),
    ]);
    labels
}

/// Builds the footer that names an issue.
pub fn build_footer(kind: FooterKind, issue_number: &str) -> (footer: String)
    ensures
        footer@ == footer_text(kind, issue_number@),
{
    let mut footer = String::from_str(kind.label());
    footer.append(": #");
    footer.append(issue_number);
    footer
}

/// The words of the two footer kinds differ, so a label names its kind.
pub proof fn law_footer_label_names_kind(kind: FooterKind)
    ensures
        footer_kind_named(footer_label(kind)) == Some(kind),
{
    reveal_strlit("fix");
    reveal_strlit("close");
    assert("fix"@.len() != "close"@.len());
}

/// A footer is never empty, and it begins with the word of its kind.
pub proof fn law_footer_shape(kind: FooterKind, issue_number: Seq<char>)
    ensures
        footer_text(kind, issue_number).len() == footer_label(kind).len() + 3 + issue_number.len(),
        footer_text(kind, issue_number).subrange(0, footer_label(kind).len() as int)
            == footer_label(kind),
        footer_text(kind, issue_number).subrange(
            footer_label(kind).len() as int + 3,
            footer_text(kind, issue_number).len() as int,
        ) == issue_number,
{
    reveal_strlit(": #");
    let footer = footer_text(kind, issue_number);
    let label = footer_label(kind);
    assert(footer.subrange(0, label.len() as int) =~= label);
    assert(footer.subrange(label.len() as int + 3, footer.len() as int) =~= issue_number);
}

} // verus!
