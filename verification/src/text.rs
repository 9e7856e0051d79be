//! Work on the characters of a text: trimming and splitting.

use vstd::prelude::*;

verus! {

/// Whether `c` is white space as Unicode defines it: one of the code
/// points that it marks `White_Space`.
pub open spec fn is_space(c: char) -> bool {
    let n = c as u32;
    ||| 0x09 <= n <= 0x0D
    ||| n == 0x20
    ||| n == 0x85
    ||| n == 0xA0
    ||| n == 0x1680
    ||| 0x2000 <= n <= 0x200A
    ||| n == 0x2028
    ||| n == 0x2029
    ||| n == 0x202F
    ||| n == 0x205F
    ||| n == 0x3000
}

/// `s` without the white space it begins with.
pub open spec fn trim_start(s: Seq<char>) -> Seq<char>
    decreases s.len(),
{
    if s.len() > 0 && is_space(s[0]) {
        trim_start(s.skip(1))
    } else {
        s
    }
}

/// `s` without the white space it ends with.
pub open spec fn trim_end(s: Seq<char>) -> Seq<char>
    decreases s.len(),
{
    if s.len() > 0 && is_space(s.last()) {
        trim_end(s.drop_last())
    } else {
        s
    }
}

/// `s` without the white space at either end.
pub open spec fn trimmed(s: Seq<char>) -> Seq<char> {
    trim_end(trim_start(s))
}

/// The pieces that the occurrences of `sep` cut `s` into, in order: one more
/// piece than there are occurrences.
pub open spec fn pieces(s: Seq<char>, sep: char) -> Seq<Seq<char>>
    decreases s.len(),
{
    if s.len() == 0 {
        seq![Seq::<char>::empty()]
    } else {
        let before = pieces(s.drop_last(), sep);
        if s.last() == sep {
            before.push(Seq::<char>::empty())
        } else {
            before.update(before.len() - 1, before.last().push(s.last()))
        }
    }
}

/// How often `c` occurs in `s`.
pub open spec fn occurrences(s: Seq<char>, c: char) -> nat
    decreases s.len(),
{
    if s.len() == 0 {
        0
    } else if s.last() == c {
        occurrences(s.drop_last(), c) + 1
    } else {
        occurrences(s.drop_last(), c)
    }
}

/// Whether `pattern` stands in `s` at position `at`.
pub open spec fn occurs_at(s: Seq<char>, pattern: Seq<char>, at: int) -> bool {
    &&& 0 <= at
    &&& at + pattern.len() <= s.len()
    &&& s.subrange(at, at + pattern.len()) == pattern
}

/// The first position at or after `from` where `pattern` stands in `s`.
pub open spec fn first_occurrence(s: Seq<char>, pattern: Seq<char>, from: int) -> Option<int>
    decreases s.len() + 1 - from,
{
    if from < 0 || from + pattern.len() > s.len() {
        None
    } else if occurs_at(s, pattern, from) {
        Some(from)
    } else {
        first_occurrence(s, pattern, from + 1)
    }
}

/// `s` cut at the first occurrence of `pattern`: what stands before it, and
/// what stands after it where there is one.
pub open spec fn cut_at_first(s: Seq<char>, pattern: Seq<char>) -> (Seq<char>, Option<Seq<char>>) {
    match first_occurrence(s, pattern, 0) {
        Some(at) => (s.take(at), Some(s.skip(at + pattern.len()))),
        None => (s, None),
    }
}

/// There is one piece more than there are separators.
pub proof fn lemma_pieces_len(s: Seq<char>, sep: char)
    ensures
        pieces(s, sep).len() == occurrences(s, sep) + 1,
    decreases s.len(),
{
    if s.len() > 0 {
        lemma_pieces_len(s.drop_last(), sep);
    }
}

/// The characters of a text.
pub fn chars_of(s: &str) -> (v: Vec<char>)
    ensures
        v@ == s@,
{
    let mut v: Vec<char> = Vec::new();
    for c in it: s.chars()
        invariant
            it.seq() == s@,
            v@ == it.seq().take(it.index()),
    {
        v.push(c);
    }
    v
}

/// Whether a character is white space.
pub fn char_is_space(c: char) -> (r: bool)
    ensures
        r == is_space(c),
{
    let n: u32 = c as u32;
    (0x09 <= n && n <= 0x0D) || n == 0x20 || n == 0x85 || n == 0xA0 || n == 0x1680 || (0x2000 <= n
        && n <= 0x200A) || n == 0x2028 || n == 0x2029 || n == 0x202F || n == 0x205F || n == 0x3000
}

/// The text without the white space at either end.
pub fn trim(s: &str) -> (r: String)
    ensures
        r@ == trimmed(s@),
{
    let chars = chars_of(s);
    let n = chars.len();
    let mut lo: usize = 0;
    assert(chars@.skip(0) == chars@);
    while lo < n && char_is_space(chars[lo])
        invariant
            n == chars@.len(),
            lo <= n,
            trim_start(chars@) == trim_start(chars@.skip(lo as int)),
        decreases n - lo,
    {
        assert(chars@.skip(lo as int).skip(1) == chars@.skip(lo + 1));
        lo += 1;
    }
    let mut hi: usize = n;
    while hi > lo && char_is_space(chars[hi - 1])
        invariant
            n == chars@.len(),
            lo <= hi <= n,
            trimmed(chars@) == trim_end(chars@.subrange(lo as int, hi as int)),
        decreases hi,
    {
        assert(chars@.subrange(lo as int, hi as int).drop_last() == chars@.subrange(
            lo as int,
            hi - 1,
        ));
        hi -= 1;
    }
    String::from_str(s.substring_char(lo, hi))
}

/// The pieces that the occurrences of `sep` cut the text into.
pub fn split(s: &str, sep: char) -> (r: Vec<String>)
    ensures
        r.len() == occurrences(s@, sep) + 1,
        strings_view(r@) == pieces(s@, sep),
{
    let chars = chars_of(s);
    let n = chars.len();
    let mut out: Vec<String> = Vec::new();
    let mut start: usize = 0;
    let mut i: usize = 0;
    proof {
        lemma_pieces_len(s@, sep);
        assert(s@.take(0) == Seq::<char>::empty());
    }
    while i < n
        invariant
            n == chars@.len(),
            chars@ == s@,
            start <= i <= n,
            pieces(s@.take(i as int), sep) == strings_view(out@).push(
                s@.subrange(start as int, i as int),
            ),
        decreases n - i,
    {
        proof {
            assert(s@.take(i + 1).drop_last() == s@.take(i as int));
        }
        if chars[i] == sep {
            out.push(String::from_str(s.substring_char(start, i)));
            start = i + 1;
            proof {
                assert(s@.subrange(start as int, i + 1) == Seq::<char>::empty());
            }
        } else {
            proof {
                assert(s@.subrange(start as int, i as int).push(s@[i as int]) == s@.subrange(
                    start as int,
                    i + 1,
                ));
            }
        }
        i += 1;
    }
    out.push(String::from_str(s.substring_char(start, n)));
    proof {
        assert(s@.take(n as int) == s@);
    }
    out
}

/// The text cut at the first occurrence of `pattern`.
pub fn cut(s: &str, pattern: &str) -> (r: (String, Option<String>))
    ensures
        r.0@ == cut_at_first(s@, pattern@).0,
        option_view(r.1) == cut_at_first(s@, pattern@).1,
{
    let chars = chars_of(s);
    let pat = chars_of(pattern);
    let n = chars.len();
    let m = pat.len();
    if m > n {
        return (String::from_str(s), None);
    }
    let limit = n - m;
    let mut at: usize = 0;
    loop
        invariant
            n == chars@.len(),
            m == pat@.len(),
            limit == n - m,
            at <= limit,
            chars@ == s@,
            pat@ == pattern@,
            first_occurrence(s@, pattern@, 0) == first_occurrence(s@, pattern@, at as int),
        decreases limit - at,
    {
        if matches_at(&chars, &pat, at) {
            let head = String::from_str(s.substring_char(0, at));
            let tail = String::from_str(s.substring_char(at + m, n));
            return (head, Some(tail));
        }
        if at == limit {
            return (String::from_str(s), None);
        }
        at += 1;
    }
}

/// Whether `pattern` stands in `s` at position `at`.
fn matches_at(s: &Vec<char>, pattern: &Vec<char>, at: usize) -> (r: bool)
    requires
        at + pattern@.len() <= s@.len(),
    ensures
        r == occurs_at(s@, pattern@, at as int),
{
    let m = pattern.len();
    let mut k: usize = 0;
    assert(s@.len() == s.len());
    while k < m
        invariant
            m == pattern@.len(),
            at + m <= s@.len() <= usize::MAX,
            k <= m,
            s@.subrange(at as int, at + k) == pattern@.take(k as int),
        decreases m - k,
    {
        if s[at + k] != pattern[k] {
            return false;
        }
        k += 1;
    }
    proof {
        assert(pattern@.take(m as int) == pattern@);
    }
    true
}

/// The texts that a sequence of strings holds.
pub open spec fn strings_view(s: Seq<String>) -> Seq<Seq<char>> {
    s.map_values(|x: String| x@)
}

/// The text that an optional string holds.
pub open spec fn option_view(s: Option<String>) -> Option<Seq<char>> {
    match s {
        Some(x) => Some(x@),
        None => None,
    }
}

} // verus!
