//! Text as sequences of characters: comparison, search and splitting.

use vstd::prelude::*;
use vstd::string::*;

verus! {

/// `needle` stands in `hay` at position `at`.
pub open spec fn occurs_at(hay: Seq<char>, needle: Seq<char>, at: int) -> bool {
    &&& 0 <= at
    &&& at + needle.len() <= hay.len()
    &&& hay.subrange(at, at + needle.len()) == needle
}

/// `needle` stands somewhere in `hay`.
pub open spec fn contains_text(hay: Seq<char>, needle: Seq<char>) -> bool {
    exists|at: int| occurs_at(hay, needle, at)
}

/// The position of the first `sep` in `s`, or the length of `s` where it
/// holds none.
pub open spec fn first_index(s: Seq<char>, sep: char) -> int
    decreases s.len(),
{
    if s.len() == 0 || s[0] == sep {
        0
    } else {
        1 + first_index(s.drop_first(), sep)
    }
}

/// The pieces of `s` between the occurrences of `sep`, in order. A text
/// without `sep`, the empty one too, is a single piece.
pub open spec fn split_on(s: Seq<char>, sep: char) -> Seq<Seq<char>>
    decreases s.len(),
{
    let at = first_index(s, sep);
    if at < 0 || at >= s.len() {
        seq![s]
    } else {
        seq![s.take(at)] + split_on(s.skip(at + 1), sep)
    }
}

/// The two parts of `s` around its first `sep`, where it holds one.
pub open spec fn split_once_on(s: Seq<char>, sep: char) -> Option<(Seq<char>, Seq<char>)> {
    let at = first_index(s, sep);
    if 0 <= at < s.len() {
        Some((s.take(at), s.skip(at + 1)))
    } else {
        None
    }
}

/// The test that lets every character but `c` pass.
pub open spec fn is_not(c: char) -> spec_fn(char) -> bool {
    |x: char| x != c
}

/// `s` with every `c` taken out.
pub open spec fn without(s: Seq<char>, c: char) -> Seq<char> {
    s.filter(is_not(c))
}

/// The pieces from number `from` on, put together with `sep` between
/// them.
pub open spec fn join_from(parts: Seq<Seq<char>>, from: int, sep: Seq<char>) -> Seq<char>
    decreases parts.len() - from,
{
    if from < 0 || from >= parts.len() {
        Seq::empty()
    } else if from == parts.len() - 1 {
        parts[from]
    } else {
        parts[from] + sep + join_from(parts, from + 1, sep)
    }
}

/// The value of a decimal digit.
pub open spec fn digit_value(c: char) -> Option<nat> {
    if c == '0' {
        Some(0)
    } else if c == '1' {
        Some(1)
    } else if c == '2' {
        Some(2)
    } else if c == '3' {
        Some(3)
    } else if c == '4' {
        Some(4)
    } else if c == '5' {
        Some(5)
    } else if c == '6' {
        Some(6)
    } else if c == '7' {
        Some(7)
    } else if c == '8' {
        Some(8)
    } else if c == '9' {
        Some(9)
    } else {
        None
    }
}

/// The number a text of decimal digits stands for; none for the empty
/// text and for a text that holds anything but the digits 0 to 9.
pub open spec fn decimal_value(s: Seq<char>) -> Option<nat>
    decreases s.len(),
{
    if s.len() == 0 {
        None
    } else {
        match digit_value(s.last()) {
            None => None,
            Some(d) => if s.len() == 1 {
                Some(d)
            } else {
                match decimal_value(s.drop_last()) {
                    Some(front) => Some(front * 10 + d),
                    None => None,
                }
            },
        }
    }
}

/// The character sequences of a list of strings.
pub open spec fn views(items: Seq<String>) -> Seq<Seq<char>> {
    items.map_values(|item: String| item@)
}

/// What `str::to_lowercase` makes of a text.
pub uninterp spec fn lowercase(s: Seq<char>) -> Seq<char>;

/// `first_index` is the one position before which no `sep` stands and at
/// which one stands, or the length.
pub proof fn lemma_first_index(s: Seq<char>, sep: char, at: int)
    requires
        0 <= at <= s.len(),
        forall|k: int| 0 <= k < at ==> s[k] != sep,
        at < s.len() ==> s[at] == sep,
    ensures
        first_index(s, sep) == at,
    decreases s.len(),
{
    if s.len() == 0 || s[0] == sep {
    } else {
        let rest = s.drop_first();
        assert forall|k: int| 0 <= k < at - 1 implies rest[k] != sep by {
        }
        lemma_first_index(rest, sep, at - 1);
    }
}

/// A text with a character that is no digit stands for no number.
pub proof fn lemma_decimal_needs_digits(s: Seq<char>, at: int)
    requires
        0 <= at < s.len(),
        digit_value(s[at]) is None,
    ensures
        decimal_value(s) is None,
    decreases s.len(),
{
    if at < s.len() - 1 {
        lemma_decimal_needs_digits(s.drop_last(), at);
    }
}

/// The characters of a string, as a vector.
pub fn to_chars(s: &str) -> (chars: Vec<char>)
    ensures
        chars@ == s@,
{
    let mut chars: Vec<char> = Vec::new();
    for c in it: s.chars()
        invariant
            chars@ == it.seq().take(it.index()),
    {
        chars.push(c);
    }
    chars
}

/// Whether two strings hold the same characters.
pub fn str_eq(a: &str, b: &str) -> (same: bool)
    ensures
        same == (a@ == b@),
{
    let left = a.to_owned();
    let right = b.to_owned();
    left == right
}

fn matches_at(hay: &Vec<char>, needle: &Vec<char>, at: usize) -> (found: bool)
    requires
        at + needle.len() <= hay.len(),
    ensures
        found == occurs_at(hay@, needle@, at as int),
{
    let mut j: usize = 0;
    while j < needle.len()
        invariant
            j <= needle.len(),
            at + needle.len() <= hay.len(),
            forall|k: int| 0 <= k < j ==> hay@[at + k] == needle@[k],
        decreases needle.len() - j,
    {
        if hay[at + j] != needle[j] {
            return false;
        }
        j += 1;
    }
    assert(hay@.subrange(at as int, at + needle.len()) =~= needle@);
    true
}

/// Whether `s` begins with `prefix`.
pub fn starts_with(s: &str, prefix: &str) -> (found: bool)
    ensures
        found == prefix@.is_prefix_of(s@),
{
    let hay = to_chars(s);
    let needle = to_chars(prefix);
    if needle.len() > hay.len() {
        return false;
    }
    matches_at(&hay, &needle, 0)
}

/// Whether `needle` stands somewhere in `hay`. The empty text stands in
/// every text.
pub fn contains(hay: &str, needle: &str) -> (found: bool)
    ensures
        found == contains_text(hay@, needle@),
{
    let h = to_chars(hay);
    let n = to_chars(needle);
    if n.len() > h.len() {
        return false;
    }
    if n.len() == 0 {
        assert(h@.subrange(0, 0) =~= n@);
        assert(occurs_at(h@, n@, 0));
        return true;
    }
    let positions: usize = h.len() - n.len() + 1;
    let mut at: usize = 0;
    while at < positions
        invariant
            h@ == hay@,
            n@ == needle@,
            0 < n.len() <= h.len(),
            positions == h.len() - n.len() + 1,
            at <= positions,
            forall|k: int| 0 <= k < at ==> !occurs_at(h@, n@, k),
        decreases positions - at,
    {
        if matches_at(&h, &n, at) {
            return true;
        }
        at += 1;
    }
    false
}

/// The lowercase form of a text, as `str::to_lowercase` of the standard
/// library gives it. The result is a function of the characters alone;
/// nothing more is claimed of it.
#[verifier::external_body]
pub(crate) fn to_lowercase(s: &str) -> (lower: String)
    ensures
        lower@ == lowercase(s@),
{
    s.to_lowercase()
}

/// Whether `needle` stands in `hay` when case is set aside: both are
/// lowered first.
pub fn contains_ignoring_case(hay: &str, needle: &str) -> (found: bool)
    ensures
        found == contains_text(lowercase(hay@), lowercase(needle@)),
{
    let h = to_lowercase(hay);
    let n = to_lowercase(needle);
    contains(h.as_str(), n.as_str())
}

/// Splits a text at every `sep`.
pub fn split(s: &str, sep: char) -> (parts: Vec<String>)
    ensures
        views(parts@) == split_on(s@, sep),
{
    let chars = to_chars(s);
    let mut parts: Vec<String> = Vec::new();
    let mut start: usize = 0;
    let mut i: usize = 0;
    proof {
        assert(s@.skip(0) =~= s@);
    }
    while i < chars.len()
        invariant
            chars@ == s@,
            start <= i <= chars.len(),
            forall|k: int| start <= k < i ==> chars@[k] != sep,
            split_on(s@, sep) == views(parts@) + split_on(s@.skip(start as int), sep),
        decreases chars.len() - i,
    {
        if chars[i] == sep {
            let piece = s.substring_char(start, i).to_owned();
            proof {
                let rest = s@.skip(start as int);
                lemma_first_index(rest, sep, i - start);
                assert(rest.take(i - start) == s@.subrange(start as int, i as int));
                assert(rest.skip(i - start + 1) == s@.skip(i + 1));
            }
            parts.push(piece);
            start = i + 1;
        }
        i += 1;
    }
    let piece = s.substring_char(start, chars.len()).to_owned();
    proof {
        let rest = s@.skip(start as int);
        lemma_first_index(rest, sep, rest.len() as int);
    }
    parts.push(piece);
    parts
}

/// Splits a text at its first `sep`.
pub fn split_once(s: &str, sep: char) -> (parts: Option<(String, String)>)
    ensures
        match (parts, split_once_on(s@, sep)) {
            (Some(found), Some(wanted)) => found.0@ == wanted.0 && found.1@ == wanted.1,
            (None, None) => true,
            _ => false,
        },
{
    let chars = to_chars(s);
    let mut i: usize = 0;
    while i < chars.len()
        invariant
            chars@ == s@,
            i <= chars.len(),
            forall|k: int| 0 <= k < i ==> chars@[k] != sep,
        decreases chars.len() - i,
    {
        if chars[i] == sep {
            proof {
                lemma_first_index(s@, sep, i as int);
            }
            let before = s.substring_char(0, i).to_owned();
            let after = s.substring_char(i + 1, chars.len()).to_owned();
            return Some((before, after));
        }
        i += 1;
    }
    proof {
        lemma_first_index(s@, sep, s@.len() as int);
    }
    None
}

/// Takes every `c` out of a text.
pub fn remove_char(s: &str, c: char) -> (cleaned: String)
    ensures
        cleaned@ == without(s@, c),
{
    let chars = to_chars(s);
    let mut cleaned = String::new();
    let mut start: usize = 0;
    let mut i: usize = 0;
    proof {
        reveal(Seq::filter);
    }
    while i < chars.len()
        invariant
            chars@ == s@,
            start <= i <= chars.len(),
            forall|k: int| start <= k < i ==> chars@[k] != c,
            cleaned@ + s@.subrange(start as int, i as int) == s@.take(i as int).filter(is_not(c)),
        decreases chars.len() - i,
    {
        proof {
            assert(s@.take(i + 1) =~= s@.take(i as int).push(s@[i as int]));
            s@.take(i as int).lemma_filter_push(s@[i as int], is_not(c));
        }
        if chars[i] == c {
            cleaned.append(s.substring_char(start, i));
            start = i + 1;
        } else {
        }
        i += 1;
    }
    cleaned.append(s.substring_char(start, chars.len()));
    proof {
        assert(s@.take(chars.len() as int) =~= s@);
    }
    cleaned
}

/// Puts the pieces from number `from` on together, with `sep` between
/// them.
pub fn join(parts: &Vec<String>, from: usize, sep: &str) -> (joined: String)
    ensures
        joined@ == join_from(views(parts@), from as int, sep@),
{
    let mut joined = String::new();
    if from >= parts.len() {
        return joined;
    }
    let mut i: usize = parts.len() - 1;
    joined.append(parts[i].as_str());
    while i > from
        invariant
            from <= i < parts.len(),
            joined@ == join_from(views(parts@), i as int, sep@),
        decreases i,
    {
        i -= 1;
        let mut longer = parts[i].clone();
        longer.append(sep);
        longer.append(joined.as_str());
        joined = longer;
    }
    joined
}

fn digit_of(c: char) -> (d: Option<u8>)
    ensures
        match (d, digit_value(c)) {
            (Some(got), Some(wanted)) => got == wanted,
            (None, None) => true,
            _ => false,
        },
{
    if c == '0' {
        Some(0)
    } else if c == '1' {
        Some(1)
    } else if c == '2' {
        Some(2)
    } else if c == '3' {
        Some(3)
    } else if c == '4' {
        Some(4)
    } else if c == '5' {
        Some(5)
    } else if c == '6' {
        Some(6)
    } else if c == '7' {
        Some(7)
    } else if c == '8' {
        Some(8)
    } else if c == '9' {
        Some(9)
    } else {
        None
    }
}

/// Reads a text of decimal digits as a number up to 255. Anything else is
/// refused: the empty text, a sign, a character that is no digit from 0
/// to 9, and a number above 255.
pub fn parse_u8(s: &str) -> (number: Option<u8>)
    ensures
        match decimal_value(s@) {
            Some(value) => if value <= 255 {
                number == Some(value as u8)
            } else {
                number is None
            },
            None => number is None,
        },
{
    let chars = to_chars(s);
    if chars.len() == 0 {
        return None;
    }
    let mut value: u64 = 0;
    let mut too_large = false;
    let mut i: usize = 0;
    while i < chars.len()
        invariant
            chars@ == s@,
            0 < chars.len(),
            i <= chars.len(),
            i > 0 ==> decimal_value(s@.take(i as int)) is Some,
            i > 0 && !too_large ==> decimal_value(s@.take(i as int)) == Some(value as nat) && value
                <= 255,
            i > 0 && too_large ==> decimal_value(s@.take(i as int))->0 > 255,
            i == 0 ==> value == 0 && !too_large,
        decreases chars.len() - i,
    {
        proof {
            assert(s@.take(i + 1).drop_last() =~= s@.take(i as int));
        }
        match digit_of(chars[i]) {
            None => {
                proof {
                    lemma_decimal_needs_digits(s@, i as int);
                }
                return None;
            },
            Some(d) => {
                if !too_large {
                    value = value * 10 + d as u64;
                    if value > 255 {
                        too_large = true;
                    }
                }
            },
        }
        i += 1;
    }
    proof {
        assert(s@.take(chars.len() as int) =~= s@);
    }
    if too_large {
        None
    } else {
        Some(value as u8)
    }
}

} // verus!
