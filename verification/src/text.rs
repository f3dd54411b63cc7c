//! Small text utilities shared by the rest of the crate.
//!
//! Everything here speaks of strings through their views, sequences of
//! characters, so that callers can state what a built string holds.

use vstd::prelude::*;
use vstd::string::*;

verus! {

/// Equality of two string slices, as `str`'s own `==` of the standard
/// library decides it: true exactly when both hold the same characters.
#[verifier::external_body]
pub(crate) fn str_eq(a: &str, b: &str) -> (same: bool)
    ensures
        same == (a@ == b@),
{
    a == b
}

/// `String::push` of the standard library: the character is appended at the
/// end and nothing else changes.
#[verifier::external_body]
pub(crate) fn push_char(s: &mut String, c: char)
    ensures
        final(s)@ == old(s)@.push(c),
{
    s.push(c)
}

/// The decimal digit that stands for `d`, for `d` below ten.
pub open spec fn digit_char(d: nat) -> char {
    if d == 0 {
        '0'
    } else if d == 1 {
        '1'
    } else if d == 2 {
        '2'
    } else if d == 3 {
        '3'
    } else if d == 4 {
        '4'
    } else if d == 5 {
        '5'
    } else if d == 6 {
        '6'
    } else if d == 7 {
        '7'
    } else if d == 8 {
        '8'
    } else {
        '9'
    }
}

/// The decimal numeral of `n`: most significant digit first, no leading
/// zero, and `"0"` for zero.
pub open spec fn decimal(n: nat) -> Seq<char>
    decreases n,
{
    if n < 10 {
        seq![digit_char(n)]
    } else {
        decimal(n / 10).push(digit_char(n % 10))
    }
}

fn digit(d: usize) -> (c: char)
    requires
        d < 10,
    ensures
        c == digit_char(d as nat),
{
    if d == 0 {
        '0'
    } else if d == 1 {
        '1'
    } else if d == 2 {
        '2'
    } else if d == 3 {
        '3'
    } else if d == 4 {
        '4'
    } else if d == 5 {
        '5'
    } else if d == 6 {
        '6'
    } else if d == 7 {
        '7'
    } else if d == 8 {
        '8'
    } else {
        '9'
    }
}

/// Renders `n` in decimal.
pub fn decimal_string(n: usize) -> (s: String)
    ensures
        s@ == decimal(n as nat),
    decreases n,
{
    if n < 10 {
        let mut s = String::new();
        push_char(&mut s, digit(n));
        assert(s@ =~= seq![digit_char(n as nat)]);
        s
    } else {
        let mut s = decimal_string(n / 10);
        push_char(&mut s, digit(n % 10));
        s
    }
}

/// `text` with every space replaced by an underscore.
pub open spec fn underscored(text: Seq<char>) -> Seq<char> {
    Seq::new(text.len(), |i: int| if text[i] == ' ' { '_' } else { text[i] })
}

/// Replaces every space of `text` by an underscore; all other characters
/// stay where they are.
pub fn replace_spaces(text: &str) -> (out: String)
    ensures
        out@ == underscored(text@),
{
    let mut out = String::new();
    let n = text.unicode_len();
    let mut i: usize = 0;
    while i < n
        invariant
            n == text@.len(),
            i <= n,
            out@ == underscored(text@.subrange(0, i as int)),
        decreases n - i,
    {
        let c = text.get_char(i);
        if c == ' ' {
            push_char(&mut out, '_');
        } else {
            push_char(&mut out, c);
        }
        assert(out@ =~= underscored(text@.subrange(0, i + 1)));
        i += 1;
    }
    assert(text@.subrange(0, n as int) =~= text@);
    out
}

/// `text` in lower case, as `str::to_lowercase` of the standard library
/// maps it: a function of the text alone, defined by Unicode's case tables.
pub uninterp spec fn lowercased(text: Seq<char>) -> Seq<char>;

/// `str::to_lowercase` of the standard library.
#[verifier::external_body]
pub(crate) fn lowercase(text: &str) -> (lower: String)
    ensures
        lower@ == lowercased(text@),
{
    text.to_lowercase()
}

/// Whether `c` is a letter or a digit, as `char::is_alphanumeric` of the
/// standard library decides it by Unicode's tables.
pub uninterp spec fn alphanumeric(c: char) -> bool;

/// `char::is_alphanumeric` of the standard library.
#[verifier::external_body]
pub(crate) fn is_alphanumeric(c: char) -> (b: bool)
    ensures
        b == alphanumeric(c),
{
    c.is_alphanumeric()
}

/// Where the last segment of a `::`-separated path starts, for a scan that
/// has reached `at` and has seen the current segment start at `start`.
/// Separators are found from left to right and do not overlap.
pub open spec fn last_segment_start(path: Seq<char>, at: int, start: int) -> int
    decreases path.len() - at,
{
    if at < 0 || at + 1 >= path.len() {
        start
    } else if path[at] == ':' && path[at + 1] == ':' {
        last_segment_start(path, at + 2, at + 2)
    } else {
        last_segment_start(path, at + 1, start)
    }
}

/// What follows the last `::` of `path`; all of `path` where it has none.
pub open spec fn last_segment(path: Seq<char>) -> Seq<char> {
    path.subrange(last_segment_start(path, 0, 0), path.len() as int)
}

/// Whether a character may stand in a schema name, given whether it is a
/// letter or a digit: letters, digits, `_` and `-` may.
pub open spec fn name_char_given(c: char, letter_or_digit: bool) -> bool {
    letter_or_digit || c == '_' || c == '-'
}

/// Whether a character may stand in a schema name.
pub open spec fn name_char(c: char) -> bool {
    name_char_given(c, alphanumeric(c))
}

/// The characters of `text` that may stand in a schema name, in order.
pub open spec fn name_chars(text: Seq<char>) -> Seq<char>
    decreases text.len(),
{
    if text.len() == 0 {
        Seq::empty()
    } else if name_char(text.last()) {
        name_chars(text.drop_last()).push(text.last())
    } else {
        name_chars(text.drop_last())
    }
}

/// What follows the last `::` of `path`; all of `path` where it has none.
pub fn last_path_segment(path: &str) -> (segment: String)
    ensures
        segment@ == last_segment(path@),
{
    let n = path.unicode_len();
    let mut start: usize = 0;
    let mut at: usize = 0;
    while at < n && at + 1 < n
        invariant
            n == path@.len(),
            start <= at <= n,
            last_segment_start(path@, 0, 0) == last_segment_start(path@, at as int, start as int),
        decreases n - at,
    {
        if path.get_char(at) == ':' && path.get_char(at + 1) == ':' {
            at += 2;
            start = at;
        } else {
            at += 1;
        }
    }
    String::from_str(path.substring_char(start, n))
}

/// Whether a character may stand in a schema name, given whether it is a
/// letter or a digit.
pub fn may_stand_in_name(c: char, letter_or_digit: bool) -> (may: bool)
    ensures
        may == name_char_given(c, letter_or_digit),
{
    letter_or_digit || c == '_' || c == '-'
}

/// The characters of `text` that may stand in a schema name, in order.
pub fn keep_name_chars(text: &str) -> (kept: String)
    ensures
        kept@ == name_chars(text@),
{
    let n = text.unicode_len();
    let mut kept = String::new();
    let mut i: usize = 0;
    assert(text@.subrange(0, 0) =~= Seq::empty());
    while i < n
        invariant
            n == text@.len(),
            i <= n,
            kept@ == name_chars(text@.subrange(0, i as int)),
        decreases n - i,
    {
        let c = text.get_char(i);
        let ghost before = text@.subrange(0, i as int);
        let ghost after = text@.subrange(0, i + 1);
        assert(after.drop_last() =~= before);
        assert(after.last() == c);
        if may_stand_in_name(c, is_alphanumeric(c)) {
            push_char(&mut kept, c);
        }
        i += 1;
    }
    assert(text@.subrange(0, n as int) =~= text@);
    kept
}

/// The name under which a type's schema is sent: the last segment of the
/// type's path, without the characters that may not stand in a name.
pub fn schema_name(type_path: &str) -> (name: String)
    ensures
        name@ == name_chars(last_segment(type_path@)),
{
    let segment = last_path_segment(type_path);
    keep_name_chars(segment.as_str())
}

/// `text` without the white space at its start and at its end, as
/// `str::trim` of the standard library cuts it by Unicode's tables.
pub uninterp spec fn trimmed(text: Seq<char>) -> Seq<char>;

/// `str::trim` of the standard library.
#[verifier::external_body]
pub(crate) fn trim(text: &str) -> (cut: &str)
    ensures
        cut@ == trimmed(text@),
{
    text.trim()
}

} // verus!
