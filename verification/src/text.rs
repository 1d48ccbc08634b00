//! Operations on text that the rest of the library is stated over.
//!
//! A string is seen as the sequence of its characters. Each function here has
//! a spec function of the same meaning on `Seq<char>`, so that contracts
//! elsewhere can speak of text without speaking of `String`.

use vstd::prelude::*;
use vstd::std_specs::iter::IteratorSpec;

verus! {

/// `s` without the run of `c` that it begins with.
pub open spec fn strip_leading(s: Seq<char>, c: char) -> Seq<char>
    decreases s.len(),
{
    if s.len() > 0 && s[0] == c {
        strip_leading(s.skip(1), c)
    } else {
        s
    }
}

/// The part of `s` before the first `c`; all of `s` where it holds no `c`.
pub open spec fn before_first(s: Seq<char>, c: char) -> Seq<char>
    decreases s.len(),
{
    if s.len() == 0 || s[0] == c {
        Seq::empty()
    } else {
        seq![s[0]] + before_first(s.skip(1), c)
    }
}

/// `s` with every `from` replaced by the text `to`.
pub open spec fn replace_each(s: Seq<char>, from: char, to: Seq<char>) -> Seq<char>
    decreases s.len(),
{
    if s.len() == 0 {
        Seq::empty()
    } else {
        replace_each(s.drop_last(), from, to) + if s.last() == from {
            to
        } else {
            seq![s.last()]
        }
    }
}

/// A text, where there is one, as the sequence of its characters.
pub open spec fn optional_text(text: Option<String>) -> Option<Seq<char>> {
    match text {
        Some(text) => Some(text@),
        None => None,
    }
}

/// A borrowed text, where there is one, as the sequence of its characters.
pub open spec fn optional_str(text: Option<&str>) -> Option<Seq<char>> {
    match text {
        Some(text) => Some(text@),
        None => None,
    }
}

/// Whether `s` begins with the character `c`.
pub open spec fn begins_with(s: Seq<char>, c: char) -> bool {
    s.len() > 0 && s[0] == c
}

/// Whether `s` ends with the character `c`.
pub open spec fn ends_with(s: Seq<char>, c: char) -> bool {
    s.len() > 0 && s[s.len() - 1] == c
}

/// What is left of `strip_leading` does not begin with the stripped character,
/// and is the end of the text it was taken from.
pub proof fn lemma_strip_leading(s: Seq<char>, c: char)
    ensures
        !begins_with(strip_leading(s, c), c),
        strip_leading(s, c).len() <= s.len(),
        strip_leading(s, c) == s.skip(s.len() - strip_leading(s, c).len()),
        forall|i: int| 0 <= i < s.len() - strip_leading(s, c).len() ==> s[i] == c,
    decreases s.len(),
{
    if s.len() > 0 && s[0] == c {
        let rest = s.skip(1);
        lemma_strip_leading(rest, c);
        let kept = strip_leading(rest, c);
        assert(rest.skip(rest.len() - kept.len()) =~= s.skip(s.len() - kept.len()));
        assert forall|i: int| 0 <= i < s.len() - kept.len() implies s[i] == c by {
            if i > 0 {
                assert(s[i] == rest[i - 1]);
            }
        }
    } else {
        assert(s.skip(0) =~= s);
    }
}

/// `before_first` yields the longest beginning of the text that holds no `c`.
pub proof fn lemma_before_first(s: Seq<char>, c: char)
    ensures
        before_first(s, c).is_prefix_of(s),
        !before_first(s, c).contains(c),
        before_first(s, c).len() < s.len() ==> s[before_first(s, c).len() as int] == c,
    decreases s.len(),
{
    if s.len() == 0 || s[0] == c {
    } else {
        let rest = s.skip(1);
        lemma_before_first(rest, c);
        let head = seq![s[0]];
        let tail = before_first(rest, c);
        assert((head + tail) =~= s.subrange(0, (head + tail).len() as int));
        assert forall|i: int| 0 <= i < (head + tail).len() implies (head + tail)[i] != c by {
            if i > 0 {
                assert((head + tail)[i] == tail[i - 1]);
                assert(tail.contains(tail[i - 1]));
            }
        }
    }
}

/// The characters of `text`, one by one.
pub fn to_chars(text: &str) -> (chars: Vec<char>)
    ensures
        chars@ == text@,
{
    broadcast use vstd::string::group_string_axioms;

    let len: usize = text.unicode_len();
    let mut chars: Vec<char> = Vec::new();
    let mut rest = text.chars();
    loop
        invariant
            len == text@.len(),
            chars@ + rest.remaining() == text@,
        ensures
            chars@ == text@,
        decreases len - chars.len(),
    {
        let ghost before = rest.remaining();
        match rest.next() {
            Some(c) => {
                chars.push(c);
                assert(chars@ + rest.remaining() =~= text@) by {
                    assert(before =~= seq![c] + before.drop_first());
                }
            },
            None => {
                assert(chars@ =~= text@);
                break;
            },
        }
    }
    chars
}

/// Whether `text` begins with the character `c`.
pub fn starts_with_char(text: &str, c: char) -> (yes: bool)
    ensures
        yes == begins_with(text@, c),
{
    text.unicode_len() > 0 && text.get_char(0) == c
}

/// Whether `text` ends with the character `c`.
pub fn ends_with_char(text: &str, c: char) -> (yes: bool)
    ensures
        yes == ends_with(text@, c),
{
    let len: usize = text.unicode_len();
    len > 0 && text.get_char(len - 1) == c
}

/// Whether `text` begins with all of `prefix`, character for character.
pub fn has_prefix(text: &str, prefix: &str) -> (yes: bool)
    ensures
        yes == prefix@.is_prefix_of(text@),
{
    let whole = to_chars(text);
    let start = to_chars(prefix);
    if start.len() > whole.len() {
        return false;
    }
    let mut i: usize = 0;
    while i < start.len()
        invariant
            i <= start.len() <= whole.len(),
            whole@ == text@,
            start@ == prefix@,
            forall|j: int| 0 <= j < i ==> prefix@[j] == text@[j],
        decreases start.len() - i,
    {
        if start[i] != whole[i] {
            assert(text@.subrange(0, prefix@.len() as int)[i as int] != prefix@[i as int]);
            return false;
        }
        i = i + 1;
    }
    assert(prefix@ =~= text@.subrange(0, prefix@.len() as int));
    true
}

/// Whether two texts hold the same characters.
pub fn same_text(a: &str, b: &str) -> (yes: bool)
    ensures
        yes == (a@ == b@),
{
    let left = to_chars(a);
    let right = to_chars(b);
    if left.len() != right.len() {
        return false;
    }
    let mut i: usize = 0;
    while i < left.len()
        invariant
            i <= left.len(),
            left.len() == right.len(),
            left@ == a@,
            right@ == b@,
            forall|j: int| 0 <= j < i ==> a@[j] == b@[j],
        decreases left.len() - i,
    {
        if left[i] != right[i] {
            return false;
        }
        i = i + 1;
    }
    assert(a@ =~= b@);
    true
}

/// `text` without the run of `c` that it begins with.
pub fn trim_start(text: &str, c: char) -> (rest: String)
    ensures
        rest@ == strip_leading(text@, c),
{
    let chars = to_chars(text);
    let len: usize = chars.len();
    let mut i: usize = 0;
    assert(text@.skip(0) =~= text@);
    while i < len && chars[i] == c
        invariant
            i <= len,
            len == text@.len(),
            chars@ == text@,
            strip_leading(text@, c) == strip_leading(text@.skip(i as int), c),
        decreases len - i,
    {
        assert(text@.skip(i as int).skip(1) =~= text@.skip(i + 1));
        i = i + 1;
    }
    assert(text@.subrange(i as int, len as int) =~= text@.skip(i as int));
    String::from_str(text.substring_char(i, len))
}

/// The part of `text` before the first `c`; all of it where it holds no `c`.
pub fn up_to_char(text: &str, c: char) -> (head: String)
    ensures
        head@ == before_first(text@, c),
{
    let chars = to_chars(text);
    let len: usize = chars.len();
    let mut i: usize = 0;
    assert(text@.skip(0) =~= text@);
    assert(text@.take(0) + before_first(text@, c) =~= before_first(text@, c));
    while i < len && chars[i] != c
        invariant
            i <= len,
            len == text@.len(),
            chars@ == text@,
            before_first(text@, c) == text@.take(i as int) + before_first(
                text@.skip(i as int),
                c,
            ),
        decreases len - i,
    {
        let ghost rest = text@.skip(i as int);
        assert(rest.skip(1) =~= text@.skip(i + 1));
        assert(text@.take(i as int) + (seq![rest[0]] + before_first(rest.skip(1), c))
            =~= text@.take(i + 1) + before_first(rest.skip(1), c));
        i = i + 1;
    }
    assert(text@.take(i as int) + Seq::<char>::empty() =~= text@.subrange(0, i as int));
    String::from_str(text.substring_char(0, i))
}

/// `text` with every `from` replaced by the text `to`.
pub fn replace_char(text: &str, from: char, to: &str) -> (out: String)
    ensures
        out@ == replace_each(text@, from, to@),
{
    let chars = to_chars(text);
    let len: usize = chars.len();
    let mut out = String::new();
    let mut i: usize = 0;
    while i < len
        invariant
            i <= len,
            len == text@.len(),
            chars@ == text@,
            out@ == replace_each(text@.take(i as int), from, to@),
        decreases len - i,
    {
        assert(text@.take(i + 1).drop_last() =~= text@.take(i as int));
        if chars[i] == from {
            out.append(to);
        } else {
            assert(text@.subrange(i as int, i + 1) =~= seq![text@[i as int]]);
            out.append(text.substring_char(i, i + 1));
        }
        i = i + 1;
    }
    assert(text@.take(len as int) =~= text@);
    out
}

/// `first` followed by `second`.
pub fn join_text(first: &str, second: &str) -> (out: String)
    ensures
        out@ == first@ + second@,
{
    let mut out = String::from_str(first);
    out.append(second);
    out
}

} // verus!
