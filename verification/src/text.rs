//! Small string operations that the rest of the library builds on.

use vstd::prelude::*;

verus! {

/// Whether two string slices hold the same characters.
///
/// Trusted: calls `str`'s `==` from the standard library, which compares the
/// two slices byte for byte, i.e. character for character.
#[verifier::external_body]
pub(crate) fn str_eq(a: &str, b: &str) -> (same: bool)
    ensures
        same == (a@ == b@),
{
    a == b
}

/// Whether `text` ends in `suffix`.
pub open spec fn is_suffix(text: Seq<char>, suffix: Seq<char>) -> bool {
    suffix.len() <= text.len() && text.subrange(text.len() - suffix.len(), text.len() as int)
        == suffix
}

/// Whether `pattern` occurs somewhere in `text`.
pub open spec fn occurs_in(text: Seq<char>, pattern: Seq<char>) -> bool {
    exists|i: int|
        0 <= i <= text.len() - pattern.len() && #[trigger] text.subrange(i, i + pattern.len())
            == pattern
}

/// Whether `text` ends in `suffix`.
pub fn ends_with(text: &str, suffix: &str) -> (ends: bool)
    ensures
        ends == is_suffix(text@, suffix@),
{
    let length = text.unicode_len();
    let tail = suffix.unicode_len();
    if tail > length {
        return false;
    }
    str_eq(text.substring_char(length - tail, length), suffix)
}

/// Whether `pattern` stands in `text` at `i`.
pub open spec fn occurs_at(text: Seq<char>, pattern: Seq<char>, i: int) -> bool {
    0 <= i <= text.len() - pattern.len() && text.subrange(i, i + pattern.len()) == pattern
}

/// Where `pattern` stands in `text` first, if it stands there at all.
pub open spec fn first_occurrence(text: Seq<char>, pattern: Seq<char>) -> Option<int> {
    if occurs_in(text, pattern) {
        Some(
            choose|i: int|
                occurs_at(text, pattern, i) && forall|k: int|
                    0 <= k < i ==> !#[trigger] occurs_at(text, pattern, k),
        )
    } else {
        None
    }
}

/// Where `pattern` stands in `text` first, counted in characters.
pub fn find(text: &str, pattern: &str) -> (place: Option<usize>)
    ensures
        place is Some <==> occurs_in(text@, pattern@),
        place matches Some(i) ==> occurs_at(text@, pattern@, i as int) && forall|k: int|
            0 <= k < i ==> !#[trigger] occurs_at(text@, pattern@, k),
        place matches Some(i) ==> first_occurrence(text@, pattern@) == Some(i as int),
{
    let length = text.unicode_len();
    let width = pattern.unicode_len();
    if width > length {
        return None;
    }
    let last = length - width;
    let mut i: usize = 0;
    loop
        invariant
            length == text@.len(),
            width == pattern@.len(),
            last == length - width,
            i <= last,
            forall|k: int| 0 <= k < i ==> !#[trigger] occurs_at(text@, pattern@, k),
        decreases last - i,
    {
        if str_eq(text.substring_char(i, i + width), pattern) {
            proof {
                assert(occurs_at(text@, pattern@, i as int));
                let first = first_occurrence(text@, pattern@)->0;
                assert(!(first < i));
                assert(!(i < first));
            }
            return Some(i);
        }
        if i == last {
            assert forall|k: int|
                0 <= k <= text@.len() - pattern@.len() implies #[trigger] text@.subrange(
                k,
                k + pattern@.len(),
            ) != pattern@ by {
                assert(!occurs_at(text@, pattern@, k));
            }
            return None;
        }
        i = i + 1;
    }
}

/// Whether `pattern` occurs somewhere in `text`.
pub fn contains(text: &str, pattern: &str) -> (found: bool)
    ensures
        found == occurs_in(text@, pattern@),
{
    find(text, pattern).is_some()
}

/// Whether `text` begins with `prefix`.
pub open spec fn is_prefix(text: Seq<char>, prefix: Seq<char>) -> bool {
    prefix.len() <= text.len() && text.subrange(0, prefix.len() as int) == prefix
}

/// Whether `text` begins with `prefix`.
pub fn starts_with(text: &str, prefix: &str) -> (starts: bool)
    ensures
        starts == is_prefix(text@, prefix@),
{
    let length = text.unicode_len();
    let head = prefix.unicode_len();
    if head > length {
        return false;
    }
    str_eq(text.substring_char(0, head), prefix)
}

/// `text` without the white space at its two ends, as the standard
/// library has it.
pub uninterp spec fn trimmed_text(text: Seq<char>) -> Seq<char>;

/// `text` without the white space at its two ends.
///
/// Trusted: `str::trim` from the standard library, which goes by
/// Unicode's class of white space.
#[verifier::external_body]
pub(crate) fn trim(text: &str) -> (trimmed: &str)
    ensures
        trimmed@ == trimmed_text(text@),
{
    text.trim()
}

/// The lower-case form that the standard library gives `text`.
pub uninterp spec fn lowercase_text(text: Seq<char>) -> Seq<char>;

/// The lower-case form of `text`.
///
/// Trusted: `str::to_lowercase` from the standard library, which follows
/// Unicode's rules for lower case.
#[verifier::external_body]
pub(crate) fn to_lowercase(text: &str) -> (lower: String)
    ensures
        lower@ == lowercase_text(text@),
{
    text.to_lowercase()
}

/// Whether the standard library counts `c` as a letter or a number.
pub uninterp spec fn alphanumeric(c: char) -> bool;

/// Whether `c` is a letter or a number.
///
/// Trusted: `char::is_alphanumeric` from the standard library, which goes
/// by Unicode's classes of letters and numbers.
#[verifier::external_body]
pub(crate) fn is_alphanumeric(c: char) -> (yes: bool)
    ensures
        yes == alphanumeric(c),
{
    c.is_alphanumeric()
}

/// The texts of `parts` in a row, with `separator` between each two.
pub open spec fn joined(parts: Seq<String>, separator: Seq<char>) -> Seq<char>
    decreases parts.len(),
{
    if parts.len() == 0 {
        Seq::empty()
    } else if parts.len() == 1 {
        parts[0]@
    } else {
        joined(parts.drop_last(), separator) + separator + parts.last()@
    }
}

/// The texts of `parts` in a row, with `separator` between each two.
pub fn join(parts: &Vec<String>, separator: &str) -> (text: String)
    ensures
        text@ == joined(parts@, separator@),
{
    let mut text = String::new();
    let mut i: usize = 0;
    while i < parts.len()
        invariant
            i <= parts@.len(),
            text@ == joined(parts@.take(i as int), separator@),
        decreases parts@.len() - i,
    {
        proof {
            assert(parts@.take(i + 1).drop_last() =~= parts@.take(i as int));
            assert(parts@.take(i + 1).last() == parts@[i as int]);
        }
        if i > 0 {
            text = text.concat(separator);
        }
        text = text.concat(parts[i].as_str());
        i = i + 1;
    }
    assert(parts@.take(parts@.len() as int) =~= parts@);
    text
}

/// The character of the digit `d`.
pub open spec fn digit_char(d: int) -> char {
    if d == 0 {
        '0'
    } else if d == 1 {
        '1'
    } else if d == 2 {
        '2'
    } else if d == 3 {
        '3'
    } else if d == 4 {
        '4'
    } else if d == 5 {
        '5'
    } else if d == 6 {
        '6'
    } else if d == 7 {
        '7'
    } else if d == 8 {
        '8'
    } else {
        '9'
    }
}

/// The decimal numeral of `value`, without leading zeros.
pub open spec fn decimal_text(value: nat) -> Seq<char>
    decreases value,
{
    if value < 10 {
        seq![digit_char(value as int)]
    } else {
        decimal_text(value / 10).push(digit_char((value % 10) as int))
    }
}

fn digit(d: u16) -> (text: &'static str)
    requires
        d < 10,
    ensures
        text@ == seq![digit_char(d as int)],
{
    proof {
        reveal_strlit("0");
        reveal_strlit("1");
        reveal_strlit("2");
        reveal_strlit("3");
        reveal_strlit("4");
        reveal_strlit("5");
        reveal_strlit("6");
        reveal_strlit("7");
        reveal_strlit("8");
        reveal_strlit("9");
    }
    let text = if d == 0 {
        "0"
    } else if d == 1 {
        "1"
    } else if d == 2 {
        "2"
    } else if d == 3 {
        "3"
    } else if d == 4 {
        "4"
    } else if d == 5 {
        "5"
    } else if d == 6 {
        "6"
    } else if d == 7 {
        "7"
    } else if d == 8 {
        "8"
    } else {
        "9"
    };
    assert(text@ =~= seq![digit_char(d as int)]);
    text
}

/// The decimal numeral of `value`.
pub fn decimal(value: u16) -> (text: String)
    ensures
        text@ == decimal_text(value as nat),
    decreases value,
{
    if value < 10 {
        digit(value).to_string()
    } else {
        let text = decimal(value / 10).concat(digit(value % 10));
        assert(text@ =~= decimal_text((value / 10) as nat).push(digit_char((value % 10) as int)));
        text
    }
}

/// How many times `c` stands at the start of `text` before anything else.
pub open spec fn leading_count(text: Seq<char>, c: char) -> nat
    decreases text.len(),
{
    if text.len() > 0 && text[0] == c {
        1 + leading_count(text.drop_first(), c)
    } else {
        0
    }
}

/// `text` without the run of `c` at its start.
pub open spec fn without_leading(text: Seq<char>, c: char) -> Seq<char> {
    text.skip(leading_count(text, c) as int)
}

/// The run of `c` at the start of `text` is no longer than `text`.
pub proof fn lemma_leading_count_bound(text: Seq<char>, c: char)
    ensures
        leading_count(text, c) <= text.len(),
    decreases text.len(),
{
    if text.len() > 0 && text[0] == c {
        lemma_leading_count_bound(text.drop_first(), c);
    }
}

/// `text` without the run of `c` at its start.
pub fn trim_leading(text: &str, c: char) -> (rest: String)
    ensures
        rest@ == without_leading(text@, c),
{
    let len = text.unicode_len();
    let mut k: usize = 0;
    assert(text@.skip(0) =~= text@);
    while k < len && text.get_char(k) == c
        invariant
            k <= len,
            len == text@.len(),
            leading_count(text@, c) == k + leading_count(text@.skip(k as int), c),
        decreases len - k,
    {
        assert(text@.skip(k as int).drop_first() =~= text@.skip(k + 1));
        k = k + 1;
    }
    assert(text@.subrange(k as int, len as int) =~= text@.skip(k as int));
    text.substring_char(k, len).to_string()
}

} // verus!
