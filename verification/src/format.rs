//! Which of the two formats a configuration text is written in.
//!
//! The format is read off the first character that is not white space: an
//! opening brace means JSON, anything else YAML.

use vstd::prelude::*;

verus! {

/// The format of a configuration text.
#[derive(Clone, Copy, Debug, PartialEq, Eq, Structural)]
pub enum Format {
    /// JSON.
    Json,
    /// YAML.
    Yaml,
}

/// Whether a character is white space: a character with the Unicode
/// property `White_Space`.
pub open spec fn is_whitespace(c: char) -> bool {
    let n = c as u32;
    ||| 0x09 <= n <= 0x0d
    ||| n == 0x20
    ||| n == 0x85
    ||| n == 0xa0
    ||| n == 0x1680
    ||| 0x2000 <= n <= 0x200a
    ||| n == 0x2028
    ||| n == 0x2029
    ||| n == 0x202f
    ||| n == 0x205f
    ||| n == 0x3000
}

/// The number of white space characters that a text starts with.
pub open spec fn leading_whitespace(text: Seq<char>) -> nat
    decreases text.len(),
{
    if text.len() > 0 && is_whitespace(text[0]) {
        1 + leading_whitespace(text.drop_first())
    } else {
        0
    }
}

/// A text without the white space it starts with.
pub open spec fn trimmed(text: Seq<char>) -> Seq<char> {
    text.subrange(leading_whitespace(text) as int, text.len() as int)
}

/// The format of a text: JSON where its first character that is not white
/// space is an opening brace, YAML otherwise.
pub open spec fn format_of(text: Seq<char>) -> Format {
    if trimmed(text).len() > 0 && trimmed(text)[0] == '{' {
        Format::Json
    } else {
        Format::Yaml
    }
}

/// The white space a text starts with is white space, it ends before the
/// text does, and what follows it is not white space.
pub proof fn leading_whitespace_is_maximal(text: Seq<char>)
    ensures
        leading_whitespace(text) <= text.len(),
        forall|i: int| 0 <= i < leading_whitespace(text) ==> is_whitespace(#[trigger] text[i]),
        leading_whitespace(text) < text.len() ==> !is_whitespace(
            text[leading_whitespace(text) as int],
        ),
    decreases text.len(),
{
    if text.len() > 0 && is_whitespace(text[0]) {
        let rest = text.drop_first();
        leading_whitespace_is_maximal(rest);
        assert forall|i: int| 0 <= i < leading_whitespace(text) implies is_whitespace(
            #[trigger] text[i],
        ) by {
            if i > 0 {
                assert(text[i] == rest[i - 1]);
            }
        }
        if leading_whitespace(text) < text.len() {
            assert(text[leading_whitespace(text) as int] == rest[leading_whitespace(rest) as int]);
        }
    }
}

/// A run of white space at the start of a text that is followed by
/// something else, or by nothing, is all the white space the text starts
/// with.
pub proof fn leading_whitespace_is_the_run(text: Seq<char>, n: int)
    requires
        0 <= n <= text.len(),
        forall|i: int| 0 <= i < n ==> is_whitespace(#[trigger] text[i]),
        n < text.len() ==> !is_whitespace(text[n]),
    ensures
        leading_whitespace(text) == n,
    decreases n,
{
    if n > 0 {
        let rest = text.drop_first();
        assert(is_whitespace(text[0]));
        assert forall|i: int| 0 <= i < n - 1 implies is_whitespace(#[trigger] rest[i]) by {
            assert(rest[i] == text[i + 1]);
        }
        if n - 1 < rest.len() {
            assert(rest[n - 1] == text[n]);
        }
        leading_whitespace_is_the_run(rest, n - 1);
    }
}

/// Whether a character is white space.
pub fn is_space(c: char) -> (b: bool)
    ensures
        b == is_whitespace(c),
{
    let n: u32 = c as u32;
    (0x09 <= n && n <= 0x0d) || n == 0x20 || n == 0x85 || n == 0xa0 || n == 0x1680 || (0x2000 <= n
        && n <= 0x200a) || n == 0x2028 || n == 0x2029 || n == 0x202f || n == 0x205f || n == 0x3000
}

/// Removes the white space that a text starts with.
pub fn trim_start(text: &str) -> (rest: &str)
    ensures
        rest@ == trimmed(text@),
{
    let len = text.unicode_len();
    let mut n: usize = 0;
    while n < len && is_space(text.get_char(n))
        invariant
            n <= len,
            len == text@.len(),
            forall|i: int| 0 <= i < n ==> is_whitespace(#[trigger] text@[i]),
        decreases len - n,
    {
        n += 1;
    }
    proof {
        leading_whitespace_is_the_run(text@, n as int);
    }
    text.substring_char(n, len)
}

/// Tells the format of a text.
pub fn sniff(text: &str) -> (format: Format)
    ensures
        format == format_of(text@),
{
    detect(trim_start(text))
}

/// Tells the format of a text that does not start with white space.
pub fn detect(trimmed_text: &str) -> (format: Format)
    ensures
        format == (if trimmed_text@.len() > 0 && trimmed_text@[0] == '{' {
            Format::Json
        } else {
            Format::Yaml
        }),
{
    if trimmed_text.unicode_len() > 0 && trimmed_text.get_char(0) == '{' {
        Format::Json
    } else {
        Format::Yaml
    }
}

/// The format is decided by the first character that is not white space:
/// JSON if that is an opening brace, YAML if it is anything else.
pub proof fn format_is_decided_by_the_first_visible_character(text: Seq<char>, at: int)
    requires
        0 <= at < text.len(),
        !is_whitespace(text[at]),
        forall|i: int| 0 <= i < at ==> is_whitespace(#[trigger] text[i]),
    ensures
        format_of(text) == Format::Json <==> text[at] == '{',
        format_of(text) == Format::Yaml <==> text[at] != '{',
{
    leading_whitespace_is_the_run(text, at);
}

/// A text of nothing but white space, and the empty text, is YAML.
pub proof fn blank_text_is_yaml(text: Seq<char>)
    requires
        forall|i: int| 0 <= i < text.len() ==> is_whitespace(#[trigger] text[i]),
    ensures
        format_of(text) == Format::Yaml,
{
    leading_whitespace_is_the_run(text, text.len() as int);
}

} // verus!
