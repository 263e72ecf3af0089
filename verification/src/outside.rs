//! What the diary has from other crates: regular expressions, the clock, coloured text.
//!
//! Nothing in this file is proved. Each function only makes a call; its contract says what the
//! called crate promises.

use crate::number::is_digit;
use crate::page::Timestamp;
use vstd::prelude::*;

verus! {

/// `regex::Regex`, a compiled regular expression: nothing is known of what it holds.
#[verifier::external_type_specification]
#[verifier::external_body]
pub struct ExRegex(regex::Regex);

/// What `regex::Regex::new` finds wrong with `pattern`, as the message of its error; `None`
/// where it compiles the pattern.
pub uninterp spec fn pattern_fault(pattern: Seq<char>) -> Option<Seq<char>>;

/// Whether `pattern` is a regular expression that `regex::Regex::new` compiles.
pub open spec fn is_pattern(pattern: Seq<char>) -> bool {
    pattern_fault(pattern) is None
}

/// Whether `text` writes a date as year, month and day with hyphens between them: two digits
/// each for the day and the month, and for the year four digits, or a sign before four digits
/// or more.
pub open spec fn is_date(text: Seq<char>) -> bool {
    let n = text.len() as int;
    &&& n >= 10
    &&& is_digit(text[n - 1]) && is_digit(text[n - 2])
    &&& text[n - 3] == '-'
    &&& is_digit(text[n - 4]) && is_digit(text[n - 5])
    &&& text[n - 6] == '-'
    &&& forall|i: int| 1 <= i < n - 6 ==> is_digit(#[trigger] text[i])
    &&& if n == 10 {
        is_digit(text[0])
    } else {
        text[0] == '+' || text[0] == '-'
    }
}

/// Whether the regular expression `pattern` matches somewhere in `text`, as
/// `regex::Regex::is_match` finds it.
pub uninterp spec fn pattern_matches(pattern: Seq<char>, text: Seq<char>) -> bool;

/// `text` between the escape sequence that turns the foreground yellow and the one that resets
/// all styles.
pub open spec fn yellow(text: Seq<char>) -> Seq<char> {
    seq!['\u{1b}', '[', '3', '3', 'm'] + text + seq!['\u{1b}', '[', '0', 'm']
}

/// A regular expression that `regex::Regex::new` has compiled, beside the pattern that it was
/// compiled from. There is no other way to make one.
#[derive(Debug)]
pub struct Matcher {
    pattern: String,
    expression: regex::Regex,
}

impl Matcher {
    /// The pattern that the expression was compiled from.
    pub closed spec fn pattern(&self) -> Seq<char> {
        self.pattern@
    }
}

/// `regex::Regex::new`: compiles `pattern`, and keeps the pattern beside what comes of it. Its
/// error comes back as the message that the error's `Display` writes. The contract claims that
/// whether this succeeds, and the message where it does not, depend on the pattern alone.
#[verifier::external_body]
pub(crate) fn compile(pattern: &str) -> (compiled: Result<Matcher, String>)
    ensures
        match compiled {
            Ok(matcher) => pattern_fault(pattern@) is None && matcher.pattern() == pattern@,
            Err(message) => pattern_fault(pattern@) == Some(message@),
        },
{
    match regex::Regex::new(pattern) {
        Ok(expression) => Ok(Matcher { pattern: pattern.to_string(), expression }),
        Err(error) => Err(error.to_string()),
    }
}

/// `regex::Regex::is_match`, on an expression that `regex::Regex::new` compiled: searches
/// `text` for a match. The contract claims that the answer depends on the pattern and the text
/// alone.
#[verifier::external_body]
pub(crate) fn is_match(matcher: &Matcher, text: &str) -> (found: bool)
    ensures
        found == pattern_matches(matcher.pattern(), text@),
{
    matcher.expression.is_match(text)
}

/// The system's time, which `chrono::DateTime::<chrono::Utc>::from` takes from
/// `std::time::SystemTime`, as seconds and nanoseconds: the time of the call, also where the
/// clock stands before 1970. Nothing is claimed of it.
#[verifier::external_body]
pub(crate) fn utc_now() -> (now: Timestamp) {
    let now = chrono::DateTime::<chrono::Utc>::from(std::time::SystemTime::now());
    Timestamp { secs: now.timestamp(), nanos: now.timestamp_subsec_nanos() }
}

/// The system's time, which `chrono::DateTime::<chrono::Local>::from` takes from
/// `std::time::SystemTime`, written by `format` as `%Y-%m-%d`: the date of the call in the
/// machine's time zone. The contract claims the shape that chrono gives a year, a month and a
/// day: which date it is, is not claimed.
#[verifier::external_body]
pub(crate) fn local_date() -> (date: String)
    ensures
        is_date(date@),
{
    chrono::DateTime::<chrono::Local>::from(std::time::SystemTime::now()).format(
        "%Y-%m-%d",
    ).to_string()
}

/// `ansi_term::Colour::Yellow.paint`, written out by `to_string`: `text` between the escape
/// sequences for a yellow foreground and for a reset.
#[verifier::external_body]
pub(crate) fn paint_yellow(text: &str) -> (painted: String)
    ensures
        painted@ == yellow(text@),
{
    ansi_term::Colour::Yellow.paint(text).to_string()
}

} // verus!
