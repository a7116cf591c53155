//! The catalog of change types and its aligned display form.

use vstd::prelude::*;
use vstd::string::*;

verus! {

/// A catalog as plain text: each entry is a tag and its description.
pub open spec fn entries_view<'a>(entries: Seq<(&'a str, &'a str)>) -> Seq<(Seq<char>, Seq<char>)> {
    Seq::new(entries.len(), |i: int| (entries[i].0@, entries[i].1@))
}

/// The fixed catalog, in display order.
pub open spec fn commit_types() -> Seq<(Seq<char>, Seq<char>)> {
    seq![
        ("feat"@, "A new feature"@),
        ("fix"@, "A bug fix"@),
        ("docs"@, "Documentation only changes"@),
        (
            "style"@,
            "Changes that do not affect the meaning of the code (white-space, formatting, etc.)"@,
        ),
        ("refactor"@, "A code change that neither fixes a bug nor adds a feature"@),
        ("perf"@, "A code change that improves performance"@),
        ("test"@, "Adding missing tests or correcting existing tests"@),
        ("chore"@, "Other changes that don't modify src or test files"@),
        ("ci"@, "Changes to our CI configuration files and scripts"@),
        ("build"@, "Changes that affect the build system or external dependencies"@),
        ("revert"@, "Reverts a previous commit"@),
    ]
}

/// The change types that a commit can have, each with its description. The
/// first entry is the one offered first.
pub fn build_commit_types() -> (types: Vec<(&'static str, &'static str)>)
    ensures
        entries_view(types@) == commit_types(),
{
    let types = vec![
        ("feat", "A new feature"),
        ("fix", "A bug fix"),
        ("docs", "Documentation only changes"),
        (
            "style",
            "Changes that do not affect the meaning of the code (white-space, formatting, etc.)",
        ),
        ("refactor", "A code change that neither fixes a bug nor adds a feature"),
        ("perf", "A code change that improves performance"),
        ("test", "Adding missing tests or correcting existing tests"),
        ("chore", "Other changes that don't modify src or test files"),
        ("ci", "Changes to our CI configuration files and scripts"),
        ("build", "Changes that affect the build system or external dependencies"),
        ("revert", "Reverts a previous commit"),
    ];
    assert(entries_view(types@) =~= commit_types());
    types
}

/// Columns between the end of the widest tag and the separator.
pub const TAG_PADDING: usize = 4;

/// The separator between the tag column and the description.
pub open spec fn separator() -> Seq<char> {
    seq![' ', '-', ' ']
}

/// The width of a tag: the number of its characters, each of which takes one
/// column.
pub open spec fn tag_width(tag: Seq<char>) -> nat {
    tag.len()
}

/// The width of the widest tag, 0 for an empty catalog.
pub open spec fn widest_tag(entries: Seq<(Seq<char>, Seq<char>)>) -> nat
    decreases entries.len(),
{
    if entries.len() == 0 {
        0
    } else {
        let before = widest_tag(entries.drop_last());
        let width = tag_width(entries.last().0);
        if width > before {
            width
        } else {
            before
        }
    }
}

/// `n` spaces.
pub open spec fn spaces(n: nat) -> Seq<char> {
    Seq::new(n, |i: int| ' ')
}

/// `text` filled with spaces on the right up to `width` characters; a text that
/// is as long or longer is left as it is.
pub open spec fn padded(text: Seq<char>, width: nat) -> Seq<char> {
    if text.len() >= width {
        text
    } else {
        text + spaces((width - text.len()) as nat)
    }
}

/// One display line: the tag filled up to `widest + TAG_PADDING` columns, the
/// separator, the description.
pub open spec fn line_text(tag: Seq<char>, description: Seq<char>, widest: nat) -> Seq<char> {
    padded(tag, widest + TAG_PADDING as nat) + separator() + description
}

/// The display lines of a catalog, one for each entry and in the same order.
pub open spec fn display_lines(entries: Seq<(Seq<char>, Seq<char>)>) -> Seq<Seq<char>> {
    Seq::new(
        entries.len(),
        |i: int| line_text(entries[i].0, entries[i].1, widest_tag(entries)),
    )
}

/// No tag is wider than the widest.
pub proof fn lemma_widest_bounds(entries: Seq<(Seq<char>, Seq<char>)>, i: int)
    requires
        0 <= i < entries.len(),
    ensures
        tag_width(entries[i].0) <= widest_tag(entries),
    decreases entries.len(),
{
    if i < entries.len() - 1 {
        lemma_widest_bounds(entries.drop_last(), i);
    }
}

/// The width of the widest tag of `entries`.
fn widest_tag_of(entries: &Vec<(&str, &str)>) -> (widest: usize)
    ensures
        widest == widest_tag(entries_view(entries@)),
{
    let ghost all = entries_view(entries@);
    let mut widest: usize = 0;
    let mut i: usize = 0;
    while i < entries.len()
        invariant
            i <= entries.len(),
            all == entries_view(entries@),
            widest == widest_tag(all.take(i as int)),
        decreases entries.len() - i,
    {
        let width = entries[i].0.unicode_len();
        proof {
            assert(all.take(i as int + 1).drop_last() =~= all.take(i as int));
        }
        if width > widest {
            widest = width;
        }
        i += 1;
    }
    proof {
        assert(all.take(i as int) =~= all);
    }
    widest
}

/// The display line of one entry, in a catalog whose widest tag has `widest`
/// characters.
fn format_line(tag: &str, description: &str, widest: usize) -> (line: String)
    requires
        tag_width(tag@) <= widest,
    ensures
        line@ == line_text(tag@, description@, widest as nat),
{
    proof {
        reveal_strlit("    ");
        reveal_strlit(" - ");
    }
    let mut line = String::from_str(tag);
    let mut column: usize = tag.unicode_len();
    while column < widest
        invariant
            tag@.len() <= column <= widest,
            line@ == tag@ + spaces((column - tag@.len()) as nat),
        decreases widest - column,
    {
        line.append(" ");
        column += 1;
        proof {
            reveal_strlit(" ");
            assert(line@ =~= tag@ + spaces((column - tag@.len()) as nat));
        }
    }
    line.append("    ");
    assert(line@ =~= padded(tag@, widest as nat + TAG_PADDING as nat));
    line.append(" - ");
    line.append(description);
    assert(line@ =~= line_text(tag@, description@, widest as nat));
    line
}

/// Formats the catalog for display: every tag is filled with spaces up to the
/// width of the widest tag plus `TAG_PADDING`, then come ` - ` and the
/// description, so that the descriptions stand in one column. Widths and
/// columns count characters.
pub fn format_commit_types(commit_types: Vec<(&str, &str)>) -> (lines: Vec<String>)
    ensures
        lines@.len() == commit_types@.len(),
        forall|i: int|
            0 <= i < lines@.len() ==> #[trigger] lines@[i]@ == display_lines(
                entries_view(commit_types@),
            )[i],
{
    let ghost all = entries_view(commit_types@);
    let widest = widest_tag_of(&commit_types);
    let mut lines: Vec<String> = Vec::new();
    let mut i: usize = 0;
    while i < commit_types.len()
        invariant
            i <= commit_types.len(),
            all == entries_view(commit_types@),
            widest == widest_tag(all),
            lines@.len() == i,
            forall|k: int| 0 <= k < i ==> #[trigger] lines@[k]@ == display_lines(all)[k],
        decreases commit_types.len() - i,
    {
        proof {
            lemma_widest_bounds(all, i as int);
        }
        let line = format_line(commit_types[i].0, commit_types[i].1, widest);
        lines.push(line);
        i += 1;
    }
    lines
}

/// Every display line has one layout: the tag, spaces up to the column
/// `widest_tag + TAG_PADDING`, the separator in the next three columns, and the
/// description from the column after them. So the descriptions of all lines of
/// a catalog start in the same column, whatever the tags are.
pub proof fn law_descriptions_align(entries: Seq<(Seq<char>, Seq<char>)>, i: int)
    requires
        0 <= i < entries.len(),
    ensures
        ({
            let line = display_lines(entries)[i];
            let tag = entries[i].0;
            let description = entries[i].1;
            let column = widest_tag(entries) as int + TAG_PADDING as int;
            &&& tag.len() <= widest_tag(entries)
            &&& line.len() == column + 3 + description.len()
            &&& line.subrange(0, tag.len() as int) == tag
            &&& forall|k: int| tag.len() <= k < column ==> line[k] == ' '
            &&& line.subrange(column, column + 3) == separator()
            &&& line.subrange(column + 3, line.len() as int) == description
        }),
{
    lemma_widest_bounds(entries, i);
    let line = display_lines(entries)[i];
    let tag = entries[i].0;
    let description = entries[i].1;
    let column = widest_tag(entries) as int + TAG_PADDING as int;
    assert(line.subrange(0, tag.len() as int) =~= tag);
    assert(line.subrange(column, column + 3) =~= separator());
    assert(line.subrange(column + 3, line.len() as int) =~= description);
}

} // verus!
