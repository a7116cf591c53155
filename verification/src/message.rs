//! Assembly of the final commit message from its typed parts.

use vstd::prelude::*;
use vstd::string::*;

verus! {

/// The type with its scope, as the header begins: the scope stands in
/// parentheses behind the type, and an empty scope leaves the type alone.
pub open spec fn scoped_type(commit_type: Seq<char>, scope: Seq<char>) -> Seq<char> {
    if scope.len() == 0 {
        commit_type
    } else {
        commit_type + seq!['('] + scope + seq![')']
    }
}

/// The header line: the type with its scope, then `: ` and the description.
pub open spec fn header_text(
    commit_type: Seq<char>,
    scope: Seq<char>,
    description: Seq<char>,
) -> Seq<char> {
    scoped_type(commit_type, scope) + seq![':', ' '] + description
}

/// A section that follows the header: nothing when it is empty, else one blank
/// line and the section's text.
pub open spec fn section_text(section: Seq<char>) -> Seq<char> {
    if section.len() == 0 {
        section
    } else {
        seq!['\n', '\n'] + section
    }
}

/// The whole message: header, body section, footer section.
pub open spec fn message_text(
    commit_type: Seq<char>,
    scope: Seq<char>,
    description: Seq<char>,
    body: Seq<char>,
    footer: Seq<char>,
) -> Seq<char> {
    header_text(commit_type, scope, description) + section_text(body) + section_text(footer)
}

/// Builds the commit message. Every input is taken as it is.
pub fn build_commit_message(
    commit_type: &str,
    scope: &str,
    description: &str,
    body: &str,
    footer: &str,
) -> (message: String)
    ensures
        message@ == message_text(commit_type@, scope@, description@, body@, footer@),
{
    proof {
        reveal_strlit("(");
        reveal_strlit(")");
        reveal_strlit(": ");
        reveal_strlit("\n\n");
    }
    let mut message = String::from_str(commit_type);
    if !scope.is_empty() {
        message.append("(");
        message.append(scope);
        message.append(")");
    }
    message.append(": ");
    message.append(description);
    if !body.is_empty() {
        message.append("\n\n");
        message.append(body);
    }
    if !footer.is_empty() {
        message.append("\n\n");
        message.append(footer);
    }
    message
}

/// How often `c` occurs in `text`.
pub open spec fn count_of(text: Seq<char>, c: char) -> nat
    decreases text.len(),
{
    if text.len() == 0 {
        0
    } else {
        count_of(text.drop_last(), c) + if text.last() == c {
            1nat
        } else {
            0nat
        }
    }
}

/// Counting in a concatenation is counting in its two parts.
pub proof fn lemma_count_concat(first: Seq<char>, second: Seq<char>, c: char)
    ensures
        count_of(first + second, c) == count_of(first, c) + count_of(second, c),
    decreases second.len(),
{
    if second.len() == 0 {
        assert(first + second =~= first);
    } else {
        assert((first + second).drop_last() =~= first + second.drop_last());
        lemma_count_concat(first, second.drop_last(), c);
    }
}

/// Counting in a section: the blank line that precedes it holds no `c` other
/// than a line feed.
proof fn lemma_count_section(section: Seq<char>, c: char)
    requires
        c != '\n',
    ensures
        count_of(section_text(section), c) == count_of(section, c),
{
    if section.len() > 0 {
        let blank = seq!['\n', '\n'];
        lemma_count_concat(blank, section, c);
        reveal_with_fuel(count_of, 3);
        assert(blank.drop_last() =~= seq!['\n']);
        assert(blank.drop_last().drop_last() =~= Seq::<char>::empty());
    }
}

/// What the type with its scope holds of `c`.
proof fn lemma_count_scoped(commit_type: Seq<char>, scope: Seq<char>, c: char)
    ensures
        count_of(scoped_type(commit_type, scope), c) == count_of(commit_type, c) + count_of(
            scope,
            c,
        ) + if scope.len() > 0 && (c == '(' || c == ')') {
            1nat
        } else {
            0nat
        },
{
    if scope.len() > 0 {
        let open = seq!['('];
        let close = seq![')'];
        lemma_count_concat(commit_type, open, c);
        lemma_count_concat(commit_type + open, scope, c);
        lemma_count_concat(commit_type + open + scope, close, c);
        reveal_with_fuel(count_of, 2);
        assert(open.drop_last() =~= Seq::<char>::empty());
        assert(close.drop_last() =~= Seq::<char>::empty());
    }
}

/// What a message holds of `c`, a character that the builder adds only inside
/// the type with its scope.
proof fn lemma_count_parts(
    commit_type: Seq<char>,
    scope: Seq<char>,
    description: Seq<char>,
    body: Seq<char>,
    footer: Seq<char>,
    c: char,
)
    requires
        c != '\n',
        c != ':',
        c != ' ',
    ensures
        count_of(message_text(commit_type, scope, description, body, footer), c) == count_of(
            scoped_type(commit_type, scope),
            c,
        ) + count_of(description, c) + count_of(body, c) + count_of(footer, c),
{
    let scoped = scoped_type(commit_type, scope);
    let colon = seq![':', ' '];
    let header = header_text(commit_type, scope, description);
    assert(header == scoped + colon + description);
    lemma_count_concat(scoped, colon, c);
    lemma_count_concat(scoped + colon, description, c);
    reveal_with_fuel(count_of, 3);
    assert(colon.drop_last() =~= seq![':']);
    assert(colon.drop_last().drop_last() =~= Seq::<char>::empty());
    lemma_count_section(body, c);
    lemma_count_section(footer, c);
    lemma_count_concat(header, section_text(body), c);
    lemma_count_concat(header + section_text(body), section_text(footer), c);
}

/// The parentheses of a message. Without a scope the builder adds none: the
/// message holds as many `(` and `)` as the parts do, and the header is the
/// type, `: ` and the description. With a scope it adds one pair, which stands
/// directly behind the type, encloses the scope and is followed by the colon.
pub proof fn law_scope_parentheses(
    commit_type: Seq<char>,
    scope: Seq<char>,
    description: Seq<char>,
    body: Seq<char>,
    footer: Seq<char>,
)
    ensures
        ({
            let message = message_text(commit_type, scope, description, body, footer);
            let opening = count_of(commit_type, '(') + count_of(scope, '(') + count_of(
                description,
                '(',
            ) + count_of(body, '(') + count_of(footer, '(');
            let closing = count_of(commit_type, ')') + count_of(scope, ')') + count_of(
                description,
                ')',
            ) + count_of(body, ')') + count_of(footer, ')');
            let t = commit_type.len() as int;
            let s = scope.len() as int;
            if scope.len() == 0 {
                &&& count_of(message, '(') == opening
                &&& count_of(message, ')') == closing
                &&& header_text(commit_type, scope, description) == commit_type + seq![':', ' ']
                    + description
            } else {
                &&& count_of(message, '(') == opening + 1
                &&& count_of(message, ')') == closing + 1
                &&& message.subrange(0, t) == commit_type
                &&& message[t] == '('
                &&& message.subrange(t + 1, t + 1 + s) == scope
                &&& message[t + 1 + s] == ')'
                &&& message[t + 2 + s] == ':'
            }
        }),
{
    let message = message_text(commit_type, scope, description, body, footer);
    let t = commit_type.len() as int;
    let s = scope.len() as int;
    lemma_count_parts(commit_type, scope, description, body, footer, '(');
    lemma_count_parts(commit_type, scope, description, body, footer, ')');
    lemma_count_scoped(commit_type, scope, '(');
    lemma_count_scoped(commit_type, scope, ')');
    if scope.len() > 0 {
        assert(message.subrange(0, t) =~= commit_type);
        assert(message.subrange(t + 1, t + 1 + s) =~= scope);
    }
}

/// The sections of a message. The header comes first. A body that is not empty
/// follows after exactly one blank line, and so does a footer that is not
/// empty, behind whatever precedes it; an empty section adds nothing.
pub proof fn law_sections_separated(
    commit_type: Seq<char>,
    scope: Seq<char>,
    description: Seq<char>,
    body: Seq<char>,
    footer: Seq<char>,
)
    ensures
        ({
            let message = message_text(commit_type, scope, description, body, footer);
            let header = header_text(commit_type, scope, description);
            let h = header.len() as int;
            let b = if body.len() > 0 {
                2 + body.len() as int
            } else {
                0
            };
            let f = if footer.len() > 0 {
                2 + footer.len() as int
            } else {
                0
            };
            &&& message.len() == h + b + f
            &&& message.subrange(0, h) == header
            &&& body.len() > 0 ==> message.subrange(h, h + 2) == seq!['\n', '\n']
                && message.subrange(h + 2, h + b) == body
            &&& footer.len() > 0 ==> message.subrange(h + b, h + b + 2) == seq!['\n', '\n']
                && message.subrange(h + b + 2, h + b + f) == footer
        }),
{
    let message = message_text(commit_type, scope, description, body, footer);
    let header = header_text(commit_type, scope, description);
    let h = header.len() as int;
    let b = section_text(body).len() as int;
    let f = section_text(footer).len() as int;
    assert(message.subrange(0, h) =~= header);
    if body.len() > 0 {
        assert(message.subrange(h, h + 2) =~= seq!['\n', '\n']);
        assert(message.subrange(h + 2, h + b) =~= body);
    }
    if footer.len() > 0 {
        assert(message.subrange(h + b, h + b + 2) =~= seq!['\n', '\n']);
        assert(message.subrange(h + b + 2, h + b + f) =~= footer);
    }
}

/// Building is a function of the parts: two messages built from the same five
/// texts are the same text, and so have the same bytes.
pub proof fn law_build_is_repeatable(
    commit_type: Seq<char>,
    scope: Seq<char>,
    description: Seq<char>,
    body: Seq<char>,
    footer: Seq<char>,
    first: Seq<char>,
    second: Seq<char>,
)
    requires
        first == message_text(commit_type, scope, description, body, footer),
        second == message_text(commit_type, scope, description, body, footer),
    ensures
        first == second,
        vstd::utf8::encode_utf8(first) == vstd::utf8::encode_utf8(second),
{
}

} // verus!
