//! Text handling that the prompts need: white space, words, integers and
//! substrings, stated over sequences of characters.

use vstd::prelude::*;
use vstd::string::*;

verus! {

/// Whether `c` is white space: one of the 25 characters that have the Unicode
/// property `White_Space`. They are the tab, the line feed and the three
/// controls behind it, the space, the next-line control, the no-break space,
/// the Ogham space mark, the spaces from the en quad to the hair space, the
/// line and the paragraph separator, the narrow no-break space, the medium
/// mathematical space and the ideographic space.
pub open spec fn white_space(c: char) -> bool {
    ||| '\u{9}' <= c <= '\u{d}'
    ||| c == ' '
    ||| c == '\u{85}'
    ||| c == '\u{a0}'
    ||| c == '\u{1680}'
    ||| '\u{2000}' <= c <= '\u{200a}'
    ||| c == '\u{2028}'
    ||| c == '\u{2029}'
    ||| c == '\u{202f}'
    ||| c == '\u{205f}'
    ||| c == '\u{3000}'
}

/// `char::is_whitespace` of std, which tells whether the character has the
/// Unicode property `White_Space`. The contract says for which characters
/// that is: those that `white_space` lists.
pub assume_specification[ char::is_whitespace ](c: char) -> (white: bool)
    ensures
        white == white_space(c),
;

/// The lower-case form of `text`, as `str::to_lowercase` gives it.
pub uninterp spec fn lowercase(text: Seq<char>) -> Seq<char>;

/// `str::to_lowercase` of std. Its result depends on the text alone and is
/// named `lowercase`; nothing is claimed of what it holds.
pub assume_specification[ str::to_lowercase ](text: &str) -> (lower: String)
    ensures
        lower@ == lowercase(text@),
;

/// The characters of `text`, in order.
pub fn chars_of(text: &str) -> (chars: Vec<char>)
    ensures
        chars@ == text@,
{
    let mut chars: Vec<char> = Vec::new();
    for c in it: text.chars()
        invariant
            it.seq() == text@,
            chars@ == it.seq().take(it.index()),
    {
        chars.push(c);
        assert(it.seq().take(it.index() + 1) =~= it.seq().take(it.index()).push(c));
    }
    assert(chars@ =~= text@);
    chars
}

/// Whether two texts hold the same characters.
pub fn same_text(left: &str, right: &str) -> (same: bool)
    ensures
        same == (left@ == right@),
{
    let left_owned = String::from_str(left);
    let right_owned = String::from_str(right);
    left_owned == right_owned
}

/// The first position at or behind `from` that holds no white space, or the
/// length of the text where only white space follows.
pub open spec fn skip_white(text: Seq<char>, from: int) -> int
    decreases text.len() - from,
{
    if 0 <= from < text.len() && white_space(text[from]) {
        skip_white(text, from + 1)
    } else {
        from
    }
}

/// The first position at or behind `from` that holds white space, or the
/// length of the text where none follows.
pub open spec fn skip_word(text: Seq<char>, from: int) -> int
    decreases text.len() - from,
{
    if 0 <= from < text.len() && !white_space(text[from]) {
        skip_word(text, from + 1)
    } else {
        from
    }
}

/// Where the text before `until` ends once the white space at its end is taken
/// off, going back no further than `from`.
pub open spec fn drop_white(text: Seq<char>, from: int, until: int) -> int
    decreases until - from,
{
    if from < until <= text.len() && white_space(text[until - 1]) {
        drop_white(text, from, until - 1)
    } else {
        until
    }
}

/// Where the trimmed text begins.
pub open spec fn trim_start(text: Seq<char>) -> int {
    skip_white(text, 0)
}

/// Where the trimmed text ends.
pub open spec fn trim_end(text: Seq<char>) -> int {
    drop_white(text, trim_start(text), text.len() as int)
}

/// `text` without the white space at its start and at its end.
pub open spec fn trimmed(text: Seq<char>) -> Seq<char> {
    text.subrange(trim_start(text), trim_end(text))
}

/// The first run of characters of `text` that holds no white space, if there
/// is one.
pub open spec fn first_word(text: Seq<char>) -> Option<Seq<char>> {
    let start = skip_white(text, 0);
    if start >= text.len() {
        None
    } else {
        Some(text.subrange(start, skip_word(text, start)))
    }
}

/// `skip_white` stays inside the text and passes white space only.
pub proof fn lemma_skip_white(text: Seq<char>, from: int)
    requires
        0 <= from <= text.len(),
    ensures
        from <= skip_white(text, from) <= text.len(),
        forall|i: int| from <= i < skip_white(text, from) ==> white_space(#[trigger] text[i]),
        skip_white(text, from) < text.len() ==> !white_space(text[skip_white(text, from)]),
    decreases text.len() - from,
{
    if from < text.len() && white_space(text[from]) {
        lemma_skip_white(text, from + 1);
    }
}

/// `skip_word` stays inside the text and passes no white space.
pub proof fn lemma_skip_word(text: Seq<char>, from: int)
    requires
        0 <= from <= text.len(),
    ensures
        from <= skip_word(text, from) <= text.len(),
        forall|i: int| from <= i < skip_word(text, from) ==> !white_space(#[trigger] text[i]),
        skip_word(text, from) < text.len() ==> white_space(text[skip_word(text, from)]),
    decreases text.len() - from,
{
    if from < text.len() && !white_space(text[from]) {
        lemma_skip_word(text, from + 1);
    }
}

/// `drop_white` stays between its bounds and passes white space only.
pub proof fn lemma_drop_white(text: Seq<char>, from: int, until: int)
    requires
        0 <= from <= until <= text.len(),
    ensures
        from <= drop_white(text, from, until) <= until,
        forall|i: int|
            drop_white(text, from, until) <= i < until ==> white_space(#[trigger] text[i]),
        from < drop_white(text, from, until) ==> !white_space(
            text[drop_white(text, from, until) - 1],
        ),
    decreases until - from,
{
    if from < until && white_space(text[until - 1]) {
        lemma_drop_white(text, from, until - 1);
    }
}

/// The position `skip_white(chars, from)`.
fn skip_white_in(chars: &Vec<char>, from: usize) -> (at: usize)
    requires
        from <= chars.len(),
    ensures
        at == skip_white(chars@, from as int),
        from <= at <= chars.len(),
{
    let mut at = from;
    while at < chars.len() && chars[at].is_whitespace()
        invariant
            from <= at <= chars.len(),
            skip_white(chars@, at as int) == skip_white(chars@, from as int),
        decreases chars.len() - at,
    {
        at += 1;
    }
    at
}

/// The position `skip_word(chars, from)`.
fn skip_word_in(chars: &Vec<char>, from: usize) -> (at: usize)
    requires
        from <= chars.len(),
    ensures
        at == skip_word(chars@, from as int),
        from <= at <= chars.len(),
{
    let mut at = from;
    while at < chars.len() && !chars[at].is_whitespace()
        invariant
            from <= at <= chars.len(),
            skip_word(chars@, at as int) == skip_word(chars@, from as int),
        decreases chars.len() - at,
    {
        at += 1;
    }
    at
}

/// The position `drop_white(chars, from, chars.len())`.
fn drop_white_in(chars: &Vec<char>, from: usize) -> (until: usize)
    requires
        from <= chars.len(),
    ensures
        until == drop_white(chars@, from as int, chars.len() as int),
        from <= until <= chars.len(),
{
    let mut until = chars.len();
    while from < until && chars[until - 1].is_whitespace()
        invariant
            from <= until <= chars.len(),
            drop_white(chars@, from as int, until as int) == drop_white(
                chars@,
                from as int,
                chars.len() as int,
            ),
        decreases until - from,
    {
        until -= 1;
    }
    until
}

/// Takes the white space off both ends of `text`.
pub fn trim<'a>(text: &'a str) -> (inner: &'a str)
    ensures
        inner@ == trimmed(text@),
{
    let chars = chars_of(text);
    let start = skip_white_in(&chars, 0);
    let end = drop_white_in(&chars, start);
    text.substring_char(start, end)
}

/// The first word of `text`: what stands between the white space at the start
/// and the next white space. `None` where the text holds nothing but white
/// space.
pub fn first_word_of<'a>(text: &'a str) -> (word: Option<&'a str>)
    ensures
        match word {
            Some(w) => first_word(text@) == Some(w@),
            None => first_word(text@).is_none(),
        },
{
    let chars = chars_of(text);
    let start = skip_white_in(&chars, 0);
    if start >= chars.len() {
        None
    } else {
        let end = skip_word_in(&chars, start);
        Some(text.substring_char(start, end))
    }
}

/// A first word is not empty and holds no white space.
pub proof fn law_first_word_shape(text: Seq<char>)
    ensures
        match first_word(text) {
            Some(word) => word.len() > 0 && forall|i: int|
                0 <= i < word.len() ==> !white_space(#[trigger] word[i]),
            None => forall|i: int| 0 <= i < text.len() ==> white_space(#[trigger] text[i]),
        },
{
    lemma_skip_white(text, 0);
    let start = skip_white(text, 0);
    if start < text.len() {
        lemma_skip_word(text, start);
        let word = text.subrange(start, skip_word(text, start));
        assert forall|i: int| 0 <= i < word.len() implies !white_space(#[trigger] word[i]) by {
            assert(word[i] == text[start + i]);
        }
    }
}

/// A trimmed text neither starts nor ends with white space, and what was taken
/// off is white space.
pub proof fn law_trimmed_shape(text: Seq<char>)
    ensures
        0 <= trim_start(text) <= trim_end(text) <= text.len(),
        forall|i: int| 0 <= i < trim_start(text) ==> white_space(#[trigger] text[i]),
        forall|i: int| trim_end(text) <= i < text.len() ==> white_space(#[trigger] text[i]),
        trimmed(text).len() > 0 ==> !white_space(trimmed(text).first()) && !white_space(
            trimmed(text).last(),
        ),
{
    lemma_skip_white(text, 0);
    lemma_drop_white(text, trim_start(text), text.len() as int);
}

/// Whether `c` is one of the ten decimal digits.
pub open spec fn is_digit(c: char) -> bool {
    '0' <= c && c <= '9'
}

/// Whether every character of `digits` is a decimal digit.
pub open spec fn all_digits(digits: Seq<char>) -> bool {
    forall|i: int| 0 <= i < digits.len() ==> is_digit(#[trigger] digits[i])
}

/// The number that `digits` writes in base ten.
pub open spec fn decimal_value(digits: Seq<char>) -> int
    decreases digits.len(),
{
    if digits.len() == 0 {
        0
    } else {
        decimal_value(digits.drop_last()) * 10 + (digits.last() as int - '0' as int)
    }
}

/// Whether `digits` is one digit or more and writes a number up to `limit`.
pub open spec fn is_decimal(digits: Seq<char>, limit: int) -> bool {
    digits.len() > 0 && all_digits(digits) && decimal_value(digits) <= limit
}

/// The largest `i32`.
pub const I32_MAX: u64 = 2147483647;

/// Whether `text` writes a 32-bit signed integer: an optional `+` or `-`, then
/// digits and nothing else, for a number from -2147483648 to 2147483647.
pub open spec fn is_i32_text(text: Seq<char>) -> bool {
    if text.len() > 0 && text[0] == '-' {
        is_decimal(text.drop_first(), I32_MAX as int + 1)
    } else if text.len() > 0 && text[0] == '+' {
        is_decimal(text.drop_first(), I32_MAX as int)
    } else {
        is_decimal(text, I32_MAX as int)
    }
}

/// A number does not get smaller when digits are written behind it.
proof fn lemma_decimal_grows(digits: Seq<char>, k: int)
    requires
        all_digits(digits),
        0 <= k <= digits.len(),
    ensures
        0 <= decimal_value(digits.take(k)) <= decimal_value(digits),
    decreases digits.len() - k,
{
    lemma_decimal_not_negative(digits.take(k));
    if k < digits.len() {
        assert(digits.take(k + 1).drop_last() =~= digits.take(k));
        assert(is_digit(digits[k]));
        lemma_decimal_grows(digits, k + 1);
    } else {
        assert(digits.take(k) =~= digits);
    }
}

/// Digits write no negative number.
proof fn lemma_decimal_not_negative(digits: Seq<char>)
    requires
        all_digits(digits),
    ensures
        0 <= decimal_value(digits),
    decreases digits.len(),
{
    if digits.len() > 0 {
        assert(is_digit(digits.last()));
        lemma_decimal_not_negative(digits.drop_last());
    }
}

/// Whether the characters from `from` up to `until` are digits that write a
/// number up to `limit`.
fn is_decimal_in(chars: &Vec<char>, from: usize, until: usize, limit: u64) -> (ok: bool)
    requires
        from <= until <= chars.len(),
        limit <= I32_MAX + 1,
    ensures
        ok == is_decimal(chars@.subrange(from as int, until as int), limit as int),
{
    if from == until {
        return false;
    }
    let ghost digits = chars@.subrange(from as int, until as int);
    let mut value: u64 = 0;
    let mut at = from;
    while at < until
        invariant
            from <= at <= until <= chars.len(),
            digits == chars@.subrange(from as int, until as int),
            limit <= I32_MAX + 1,
            all_digits(digits.take(at - from)),
            value == decimal_value(digits.take(at - from)),
            value <= limit,
        decreases until - at,
    {
        let c = chars[at];
        let ghost read = at - from;
        assert(digits[read] == c);
        if !(c >= '0' && c <= '9') {
            return false;
        }
        value = value * 10 + (c as u32 - '0' as u32) as u64;
        proof {
            assert(digits.take(read + 1).drop_last() =~= digits.take(read));
            assert forall|i: int| 0 <= i < read + 1 implies is_digit(
                #[trigger] digits.take(read + 1)[i],
            ) by {
                if i < read {
                    assert(digits.take(read)[i] == digits[i]);
                }
            }
        }
        if value > limit {
            proof {
                if all_digits(digits) {
                    lemma_decimal_grows(digits, read + 1);
                }
            }
            return false;
        }
        at += 1;
    }
    proof {
        assert(digits.take(at - from) =~= digits);
    }
    true
}

/// Whether the characters from `from` up to `until` write a 32-bit signed
/// integer.
fn is_i32_in(chars: &Vec<char>, from: usize, until: usize) -> (ok: bool)
    requires
        from <= until <= chars.len(),
    ensures
        ok == is_i32_text(chars@.subrange(from as int, until as int)),
{
    let ghost text = chars@.subrange(from as int, until as int);
    if from < until && chars[from] == '-' {
        assert(text.drop_first() =~= chars@.subrange(from + 1, until as int));
        is_decimal_in(chars, from + 1, until, I32_MAX + 1)
    } else if from < until && chars[from] == '+' {
        assert(text.drop_first() =~= chars@.subrange(from + 1, until as int));
        is_decimal_in(chars, from + 1, until, I32_MAX)
    } else {
        is_decimal_in(chars, from, until, I32_MAX)
    }
}

/// Whether `text` writes a 32-bit signed integer as it stands: white space
/// makes it none.
pub fn is_i32(text: &str) -> (ok: bool)
    ensures
        ok == is_i32_text(text@),
{
    let chars = chars_of(text);
    assert(chars@.subrange(0, chars.len() as int) =~= text@);
    is_i32_in(&chars, 0, chars.len())
}

/// Whether `text`, with the white space at its ends taken off, writes a 32-bit
/// signed integer.
pub fn is_integer(text: &str) -> (ok: bool)
    ensures
        ok == is_i32_text(trimmed(text@)),
{
    is_i32(trim(text))
}

/// No digit is white space, and neither is a sign.
pub proof fn lemma_digits_and_signs_hold_no_white_space(c: char)
    requires
        is_digit(c) || c == '+' || c == '-',
    ensures
        !white_space(c),
{
}

/// A text that writes an integer has no white space at its ends, so trimming
/// leaves it as it is: what `is_i32` accepts, `is_integer` accepts too.
pub proof fn law_integer_text_is_trimmed(text: Seq<char>)
    requires
        is_i32_text(text),
    ensures
        trimmed(text) == text,
        is_i32_text(trimmed(text)),
{
    let len = text.len() as int;
    let signed = text[0] == '-' || text[0] == '+';
    let digits = if signed {
        text.drop_first()
    } else {
        text
    };
    assert(digits.len() > 0 && all_digits(digits));
    assert(is_digit(digits[0]));
    assert(is_digit(digits[digits.len() - 1]));
    assert(text[len - 1] == digits[digits.len() - 1]);
    lemma_digits_and_signs_hold_no_white_space(text[0]);
    lemma_digits_and_signs_hold_no_white_space(text[len - 1]);
    assert(skip_white(text, 0) == 0);
    assert(drop_white(text, 0, len) == len);
    assert(text.subrange(0, len) =~= text);
}

/// Whether `pattern` stands in `text` at position `at`.
pub open spec fn occurs_at(pattern: Seq<char>, text: Seq<char>, at: int) -> bool {
    0 <= at && at + pattern.len() <= text.len() && text.subrange(at, at + pattern.len())
        == pattern
}

/// Whether `pattern` is a part of `text`: it stands in it at some position.
/// The empty pattern is a part of every text.
pub open spec fn occurs_in(pattern: Seq<char>, text: Seq<char>) -> bool {
    exists|at: int| occurs_at(pattern, text, at)
}

/// Whether `pattern` stands in `text` at position `at`.
fn stands_at(pattern: &Vec<char>, text: &Vec<char>, at: usize) -> (found: bool)
    requires
        at + pattern.len() <= text.len(),
    ensures
        found == occurs_at(pattern@, text@, at as int),
{
    let ghost part = text@.subrange(at as int, at + pattern.len());
    let mut i: usize = 0;
    while i < pattern.len()
        invariant
            i <= pattern.len(),
            at + pattern.len() <= text.len(),
            part == text@.subrange(at as int, at + pattern.len()),
            part.take(i as int) == pattern@.take(i as int),
        decreases pattern.len() - i,
    {
        if text[at + i] != pattern[i] {
            assert(part[i as int] != pattern@[i as int]);
            return false;
        }
        assert(part.take(i + 1) =~= part.take(i as int).push(part[i as int]));
        assert(pattern@.take(i + 1) =~= pattern@.take(i as int).push(pattern@[i as int]));
        i += 1;
    }
    assert(part.take(i as int) =~= part);
    assert(pattern@.take(i as int) =~= pattern@);
    true
}

/// Whether `pattern` is a part of `text`.
pub fn contains_text(text: &str, pattern: &str) -> (found: bool)
    ensures
        found == occurs_in(pattern@, text@),
{
    let text_chars = chars_of(text);
    let pattern_chars = chars_of(pattern);
    if pattern_chars.len() > text_chars.len() {
        return false;
    }
    let last = text_chars.len() - pattern_chars.len();
    let mut at: usize = 0;
    while at <= last
        invariant
            at <= last + 1,
            last == text_chars.len() - pattern_chars.len(),
            pattern_chars.len() <= text_chars.len(),
            text_chars@ == text@,
            pattern_chars@ == pattern@,
            forall|k: int| 0 <= k < at ==> !occurs_at(pattern@, text@, k),
        decreases last + 1 - at,
    {
        if stands_at(&pattern_chars, &text_chars, at) {
            return true;
        }
        if at == last {
            return false;
        }
        at += 1;
    }
    false
}

/// A word that is followed by white space ends there.
pub proof fn lemma_skip_word_stops(text: Seq<char>, from: int, until: int)
    requires
        0 <= from <= until < text.len(),
        forall|i: int| from <= i < until ==> !white_space(#[trigger] text[i]),
        white_space(text[until]),
    ensures
        skip_word(text, from) == until,
    decreases until - from,
{
    if from < until {
        lemma_skip_word_stops(text, from + 1, until);
    }
}

} // verus!
