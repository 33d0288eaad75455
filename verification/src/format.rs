//! Filling the placeholders of a text, and the two small rules of plurals:
//! which bucket a count falls into, and how the count is written.

use crate::split::{regex_split, split_by_pattern};
use crate::text::views;
use vstd::prelude::*;
use vstd::string::StringExecFns;

verus! {

/// The regular expression of a placeholder: two opening braces, any number
/// of word characters, two closing braces.
pub open spec fn placeholder() -> Seq<char> {
    r"\{\{(\w*)\}\}"@
}

/// The regular expression of a placeholder.
pub fn placeholder_pattern() -> (pattern: &'static str)
    ensures
        pattern@ == placeholder(),
{
    r"\{\{(\w*)\}\}"
}

/// What is inserted behind segment `i`: argument `i`, where a placeholder
/// follows the segment and the argument exists; nothing otherwise.
pub open spec fn gap(segments: Seq<Seq<char>>, arguments: Seq<Seq<char>>, i: int) -> Seq<char> {
    if i + 1 < segments.len() && i < arguments.len() {
        arguments[i]
    } else {
        Seq::empty()
    }
}

/// The first `n` segments, each followed by its gap.
pub open spec fn joined(segments: Seq<Seq<char>>, arguments: Seq<Seq<char>>, n: int) -> Seq<char>
    decreases n,
{
    if n <= 0 {
        Seq::empty()
    } else {
        joined(segments, arguments, n - 1) + segments[n - 1] + gap(segments, arguments, n - 1)
    }
}

/// The segments of a text joined again, with argument `i` in the place of
/// placeholder `i`. A placeholder without an argument leaves nothing, and an
/// argument without a placeholder is not used.
pub open spec fn interleave(segments: Seq<Seq<char>>, arguments: Seq<Seq<char>>) -> Seq<char> {
    joined(segments, arguments, segments.len() as int)
}

/// A text with its placeholders filled by position. Should the placeholder
/// expression not compile, the text is left as it is.
pub open spec fn formatted(line: Seq<char>, arguments: Seq<Seq<char>>) -> Seq<char> {
    match regex_split(placeholder(), line) {
        Some(segments) => interleave(segments, arguments),
        None => line,
    }
}

/// Joins the segments that lie between placeholders, with the arguments in
/// the placeholders' places.
pub fn fill(segments: &Vec<String>, arguments: &[String]) -> (line: String)
    ensures
        line@ == interleave(views(segments@), views(arguments@)),
{
    let mut line = String::new();
    let mut i: usize = 0;
    while i < segments.len()
        invariant
            i <= segments.len(),
            line@ == joined(views(segments@), views(arguments@), i as int),
        decreases segments.len() - i,
    {
        line.append(segments[i].as_str());
        if i + 1 < segments.len() && i < arguments.len() {
            line.append(arguments[i].as_str());
        }
        i += 1;
    }
    line
}

/// Fills the placeholders of `line` with `arguments`, by position.
pub fn format_line(line: &str, arguments: &[String]) -> (filled: String)
    ensures
        filled@ == formatted(line@, views(arguments@)),
{
    match split_by_pattern(placeholder_pattern(), line) {
        Some(segments) => fill(&segments, arguments),
        None => line.to_owned(),
    }
}

/// The bucket of a variant set that a count selects.
pub open spec fn plural_bucket(count: nat) -> Seq<char> {
    if count == 0 {
        "none"@
    } else if count == 1 {
        "one"@
    } else {
        "many"@
    }
}

/// The name of the bucket that `count` selects.
pub fn plural_bucket_name(count: usize) -> (bucket: &'static str)
    ensures
        bucket@ == plural_bucket(count as nat),
{
    if count == 0 {
        "none"
    } else if count == 1 {
        "one"
    } else {
        "many"
    }
}

/// The character of a decimal digit.
pub open spec fn digit(d: nat) -> char {
    if d == 0 {
        '0'
    } else if d == 1 {
        '1'
    } else if d == 2 {
        '2'
    } else if d == 3 {
        '3'
    } else if d == 4 {
        '4'
    } else if d == 5 {
        '5'
    } else if d == 6 {
        '6'
    } else if d == 7 {
        '7'
    } else if d == 8 {
        '8'
    } else {
        '9'
    }
}

/// A number written in decimal, without sign and without leading zeros.
pub open spec fn decimal(n: nat) -> Seq<char>
    decreases n,
{
    if n < 10 {
        seq![digit(n)]
    } else {
        decimal(n / 10) + seq![digit(n % 10)]
    }
}

fn digit_text(d: usize) -> (text: &'static str)
    requires
        d < 10,
    ensures
        text@ == seq![digit(d as nat)],
{
    proof {
        reveal_strlit("0");
        reveal_strlit("1");
        reveal_strlit("2");
        reveal_strlit("3");
        reveal_strlit("4");
        reveal_strlit("5");
        reveal_strlit("6");
        reveal_strlit("7");
        reveal_strlit("8");
        reveal_strlit("9");
    }
    let text = if d == 0 {
        "0"
    } else if d == 1 {
        "1"
    } else if d == 2 {
        "2"
    } else if d == 3 {
        "3"
    } else if d == 4 {
        "4"
    } else if d == 5 {
        "5"
    } else if d == 6 {
        "6"
    } else if d == 7 {
        "7"
    } else if d == 8 {
        "8"
    } else {
        "9"
    };
    assert(text@ =~= seq![digit(d as nat)]);
    text
}

/// Writes `n` in decimal.
pub fn decimal_string(n: usize) -> (text: String)
    ensures
        text@ == decimal(n as nat),
{
    let mut text = digit_text(n % 10).to_owned();
    let mut rest: usize = n / 10;
    while rest > 0
        invariant
            rest > 0 ==> decimal(n as nat) == decimal(rest as nat) + text@,
            rest == 0 ==> decimal(n as nat) == text@,
        decreases rest,
    {
        let mut longer = digit_text(rest % 10).to_owned();
        longer.append(text.as_str());
        proof {
            let digits = seq![digit(rest as nat % 10)];
            assert(longer@ == digits + text@);
            if rest >= 10 {
                assert(decimal(rest as nat / 10) + digits + text@ =~= decimal(rest as nat / 10)
                    + longer@);
            }
        }
        text = longer;
        rest = rest / 10;
    }
    text
}

} // verus!
