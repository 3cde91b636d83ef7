//! Character-level helpers on strings: splitting, trimming and literal
//! substitution, each with its mathematical meaning on `Seq<char>`.

use vstd::prelude::*;
use vstd::utf8::{decode_utf8, valid_utf8};

verus! {

/// The error of `String::from_utf8`; nothing in it is read.
#[verifier::external_type_specification]
#[verifier::external_body]
pub struct ExFromUtf8Error(std::string::FromUtf8Error);

/// `String::from_utf8` accepts exactly the byte strings that are valid UTF-8
/// and returns the text they encode.
pub assume_specification[ String::from_utf8 ](bytes: Vec<u8>) -> (r: Result<
    String,
    std::string::FromUtf8Error,
>)
    ensures
        r is Ok <==> valid_utf8(bytes@),
        r matches Ok(s) ==> s@ == decode_utf8(bytes@),
;

/// `String::push` appends one character.
pub assume_specification[ String::push ](s: &mut String, c: char)
    ensures
        final(s)@ == old(s)@.push(c),
;

/// The text that `bytes` encode in UTF-8, if they are valid UTF-8.
pub open spec fn utf8_text(bytes: Seq<u8>) -> Option<Seq<char>> {
    if valid_utf8(bytes) {
        Some(decode_utf8(bytes))
    } else {
        None
    }
}

/// Whether Unicode counts `c` as white space (`White_Space`), as
/// `char::is_whitespace` does.
pub open spec fn is_whitespace(c: char) -> bool {
    let v = c as u32;
    ||| 0x09 <= v <= 0x0D
    ||| v == 0x20
    ||| v == 0x85
    ||| v == 0xA0
    ||| v == 0x1680
    ||| 0x2000 <= v <= 0x200A
    ||| v == 0x2028
    ||| v == 0x2029
    ||| v == 0x202F
    ||| v == 0x205F
    ||| v == 0x3000
}

/// The index of the first `c` in `s`, or `s.len()` if there is none.
pub open spec fn position_of(s: Seq<char>, c: char) -> int
    decreases s.len(),
{
    if s.len() == 0 || s[0] == c {
        0
    } else {
        1 + position_of(s.drop_first(), c)
    }
}

/// The pieces of `s` between occurrences of `sep`. There is always at least
/// one piece; pieces may be empty.
pub open spec fn split_on(s: Seq<char>, sep: char) -> Seq<Seq<char>>
    decreases s.len(),
{
    let p = position_of(s, sep);
    if 0 <= p < s.len() {
        seq![s.take(p)] + split_on(s.skip(p + 1), sep)
    } else {
        seq![s]
    }
}

/// The pieces put together again, with `sep` between each two.
pub open spec fn joined(pieces: Seq<Seq<char>>, sep: char) -> Seq<char>
    decreases pieces.len(),
{
    if pieces.len() == 0 {
        Seq::empty()
    } else if pieces.len() == 1 {
        pieces.first()
    } else {
        pieces.first() + seq![sep] + joined(pieces.drop_first(), sep)
    }
}

/// `s` without its leading whitespace.
pub open spec fn trimmed_start(s: Seq<char>) -> Seq<char>
    decreases s.len(),
{
    if s.len() > 0 && is_whitespace(s.first()) {
        trimmed_start(s.drop_first())
    } else {
        s
    }
}

/// `s` without its trailing whitespace.
pub open spec fn trimmed_end(s: Seq<char>) -> Seq<char>
    decreases s.len(),
{
    if s.len() > 0 && is_whitespace(s.last()) {
        trimmed_end(s.drop_last())
    } else {
        s
    }
}

/// `s` without leading and trailing whitespace.
pub open spec fn trimmed(s: Seq<char>) -> Seq<char> {
    trimmed_end(trimmed_start(s))
}

/// `s` with every occurrence of `pattern` replaced by `with`, scanning from
/// the left and never looking into text already replaced. An empty pattern
/// occurs nowhere.
pub open spec fn replaced(s: Seq<char>, pattern: Seq<char>, with: Seq<char>) -> Seq<char>
    decreases s.len(),
{
    if pattern.len() == 0 || s.len() < pattern.len() {
        s
    } else if s.take(pattern.len() as int) == pattern {
        with + replaced(s.skip(pattern.len() as int), pattern, with)
    } else {
        seq![s.first()] + replaced(s.drop_first(), pattern, with)
    }
}

/// `position_of` is the one index before which `c` does not occur and at
/// which it does, or the length.
pub proof fn lemma_position_of(s: Seq<char>, c: char, p: int)
    requires
        0 <= p <= s.len(),
        forall|k: int| 0 <= k < p ==> s[k] != c,
        p == s.len() || s[p] == c,
    ensures
        position_of(s, c) == p,
    decreases p,
{
    if p > 0 {
        let rest = s.drop_first();
        assert forall|k: int| 0 <= k < p - 1 implies rest[k] != c by {
            assert(rest[k] == s[k + 1]);
        }
        lemma_position_of(rest, c, p - 1);
    }
}

/// `position_of` lies within `s` or at its end; `c` does not occur before
/// it, and does occur at it unless it is the end.
pub proof fn lemma_position_of_is_first(s: Seq<char>, c: char)
    ensures
        0 <= position_of(s, c) <= s.len(),
        forall|k: int| 0 <= k < position_of(s, c) ==> s[k] != c,
        position_of(s, c) < s.len() ==> s[position_of(s, c)] == c,
    decreases s.len(),
{
    if s.len() > 0 && s[0] != c {
        let rest = s.drop_first();
        lemma_position_of_is_first(rest, c);
        assert forall|k: int| 0 <= k < position_of(s, c) implies s[k] != c by {
            if k > 0 {
                assert(s[k] == rest[k - 1]);
            }
        }
        assert(position_of(s, c) < s.len() ==> s[position_of(s, c)] == rest[position_of(rest, c)]);
    }
}

/// What `split_on` gives is one piece more than there are separators, and
/// no piece holds a separator.
pub proof fn lemma_split_pieces(s: Seq<char>, sep: char)
    ensures
        split_on(s, sep).len() >= 1,
        forall|i: int, k: int|
            0 <= i < split_on(s, sep).len() && 0 <= k < split_on(s, sep)[i].len()
                ==> #[trigger] split_on(s, sep)[i][k] != sep,
    decreases s.len(),
{
    lemma_position_of_is_first(s, sep);
    let p = position_of(s, sep);
    if 0 <= p < s.len() {
        let rest = s.skip(p + 1);
        lemma_split_pieces(rest, sep);
        let pieces = split_on(s, sep);
        assert forall|i: int, k: int| 0 <= i < pieces.len() && 0 <= k < pieces[i].len() implies
            #[trigger] pieces[i][k] != sep by {
            if i == 0 {
                assert(pieces[0] == s.take(p));
                assert(pieces[0][k] == s[k]);
            } else {
                assert(pieces[i] == split_on(rest, sep)[i - 1]);
            }
        }
    }
}

/// Joining the pieces of `s` with `sep` between them gives `s` back: a
/// split loses nothing.
pub proof fn lemma_split_joins_back(s: Seq<char>, sep: char)
    ensures
        joined(split_on(s, sep), sep) == s,
    decreases s.len(),
{
    lemma_position_of_is_first(s, sep);
    let p = position_of(s, sep);
    if 0 <= p < s.len() {
        let rest = s.skip(p + 1);
        lemma_split_joins_back(rest, sep);
        lemma_split_pieces(rest, sep);
        let pieces = split_on(s, sep);
        assert(pieces.len() > 1);
        assert(pieces.drop_first() == split_on(rest, sep));
        assert(pieces.first() == s.take(p));
        assert(s.take(p) + seq![sep] + rest == s);
    } else {
        assert(split_on(s, sep).drop_first().len() == 0);
    }
}

/// The characters of `s`, in order.
pub fn chars_of(s: &str) -> (r: Vec<char>)
    ensures
        r@ == s@,
{
    let mut out: Vec<char> = Vec::new();
    for c in it: s.chars()
        invariant
            out@ == it.seq().take(it.index() as int),
            it.seq() == s@,
    {
        out.push(c);
    }
    out
}

/// Decodes `bytes` as UTF-8.
pub fn text_of(bytes: Vec<u8>) -> (r: Option<String>)
    ensures
        r is Some <==> utf8_text(bytes@) is Some,
        r matches Some(s) ==> utf8_text(bytes@) == Some(s@),
{
    match String::from_utf8(bytes) {
        Ok(s) => Some(s),
        Err(_) => None,
    }
}

/// Tells whether `c` is whitespace.
pub fn char_is_whitespace(c: char) -> (r: bool)
    ensures
        r == is_whitespace(c),
{
    let v: u32 = c as u32;
    (0x09 <= v && v <= 0x0D) || v == 0x20 || v == 0x85 || v == 0xA0 || v == 0x1680 || (0x2000 <= v
        && v <= 0x200A) || v == 0x2028 || v == 0x2029 || v == 0x202F || v == 0x205F || v == 0x3000
}

/// Splits `s` at every `sep`.
pub fn split(s: &str, sep: char) -> (parts: Vec<String>)
    ensures
        parts.deep_view() == split_on(s@, sep),
{
    let chars = chars_of(s);
    let n: usize = chars.len();
    let mut parts: Vec<String> = Vec::new();
    let mut start: usize = 0;
    let mut i: usize = 0;
    assert(s@.skip(0) == s@);
    assert(parts.deep_view() + split_on(s@, sep) == split_on(s@, sep));
    while i < n
        invariant
            chars@ == s@,
            n == chars.len(),
            start <= i <= n,
            forall|k: int| start <= k < i ==> s@[k] != sep,
            split_on(s@, sep) == parts.deep_view() + split_on(s@.skip(start as int), sep),
        decreases n - i,
    {
        if chars[i] == sep {
            let piece = s.substring_char(start, i).to_owned();
            proof {
                let tail = s@.skip(start as int);
                lemma_position_of(tail, sep, i - start);
                assert(tail.take(i - start) == s@.subrange(start as int, i as int));
                assert(tail.skip(i - start + 1) == s@.skip(i + 1));
                assert(parts.deep_view().push(piece@) + split_on(s@.skip(i + 1), sep)
                    == parts.deep_view() + split_on(tail, sep));
            }
            let ghost before = parts.deep_view();
            parts.push(piece);
            assert(parts.deep_view() == before.push(piece@));
            start = i + 1;
        }
        i = i + 1;
    }
    let piece = s.substring_char(start, n).to_owned();
    proof {
        let tail = s@.skip(start as int);
        lemma_position_of(tail, sep, n - start);
        assert(tail == s@.subrange(start as int, n as int));
        assert(parts.deep_view().push(piece@) == parts.deep_view() + split_on(tail, sep));
    }
    let ghost before = parts.deep_view();
    parts.push(piece);
    assert(parts.deep_view() == before.push(piece@));
    parts
}

/// Removes leading and trailing whitespace.
pub fn trim(s: &str) -> (r: String)
    ensures
        r@ == trimmed(s@),
{
    let chars = chars_of(s);
    let n: usize = chars.len();
    let mut a: usize = 0;
    assert(s@.skip(0) == s@);
    while a < n && char_is_whitespace(chars[a])
        invariant
            chars@ == s@,
            n == chars.len(),
            a <= n,
            trimmed_start(s@) == trimmed_start(s@.skip(a as int)),
        decreases n - a,
    {
        assert(s@.skip(a as int).drop_first() == s@.skip(a + 1));
        a = a + 1;
    }
    let mut b: usize = n;
    while b > a && char_is_whitespace(chars[b - 1])
        invariant
            chars@ == s@,
            n == chars.len(),
            a <= b <= n,
            trimmed_end(s@.skip(a as int)) == trimmed_end(s@.subrange(a as int, b as int)),
        decreases b,
    {
        assert(s@.subrange(a as int, b as int).drop_last() == s@.subrange(a as int, b - 1));
        b = b - 1;
    }
    proof {
        assert(s@.skip(a as int) == s@.subrange(a as int, n as int));
        let head = s@.skip(a as int);
        assert(trimmed_start(head) == head) by {
            if a < n {
                assert(head.first() == s@[a as int]);
            }
        }
        let mid = s@.subrange(a as int, b as int);
        assert(trimmed_end(mid) == mid) by {
            if b > a {
                assert(mid.last() == s@[b - 1]);
            }
        }
    }
    s.substring_char(a, b).to_owned()
}

/// Whether `pattern` stands in `chars` at index `at`.
fn occurs_at(chars: &Vec<char>, at: usize, pattern: &Vec<char>) -> (r: bool)
    requires
        at + pattern.len() <= chars.len(),
    ensures
        r == (chars@.subrange(at as int, at + pattern.len()) == pattern@),
{
    let m: usize = pattern.len();
    let mut j: usize = 0;
    while j < m
        invariant
            m == pattern.len(),
            at + m <= chars.len(),
            j <= m,
            forall|k: int| 0 <= k < j ==> chars@[at + k] == pattern@[k],
        decreases m - j,
    {
        if chars[at + j] != pattern[j] {
            assert(chars@.subrange(at as int, at + m)[j as int] != pattern@[j as int]);
            return false;
        }
        j = j + 1;
    }
    assert(chars@.subrange(at as int, at + m) =~= pattern@);
    true
}

/// Replaces every occurrence of `pattern` in `s` by `with`.
pub fn replace(s: &str, pattern: &str, with: &str) -> (r: String)
    ensures
        r@ == replaced(s@, pattern@, with@),
{
    let chars = chars_of(s);
    let pat = chars_of(pattern);
    let n: usize = chars.len();
    let m: usize = pat.len();
    if m == 0 || n < m {
        return s.to_owned();
    }
    let mut out = String::new();
    let mut start: usize = 0;
    let mut i: usize = 0;
    assert(s@.skip(0) == s@);
    assert(out@ + s@.subrange(0, 0) + replaced(s@, pattern@, with@) == replaced(
        s@,
        pattern@,
        with@,
    ));
    while n - i >= m
        invariant
            chars@ == s@,
            pat@ == pattern@,
            n == chars.len(),
            m == pat.len(),
            0 < m <= n,
            start <= i <= n,
            replaced(s@, pattern@, with@) == out@ + s@.subrange(start as int, i as int) + replaced(
                s@.skip(i as int),
                pattern@,
                with@,
            ),
        decreases n - i,
    {
        let ghost tail = s@.skip(i as int);
        assert(tail.take(m as int) == s@.subrange(i as int, i + m));
        if occurs_at(&chars, i, &pat) {
            out.append(s.substring_char(start, i));
            out.append(with);
            assert(tail.skip(m as int) == s@.skip(i + m));
            i = i + m;
            start = i;
            assert(s@.subrange(start as int, i as int) == Seq::<char>::empty());
        } else {
            assert(tail.drop_first() == s@.skip(i + 1));
            assert(s@.subrange(start as int, i as int) + seq![tail.first()] == s@.subrange(
                start as int,
                i + 1,
            ));
            i = i + 1;
        }
    }
    assert(s@.subrange(start as int, i as int) + s@.skip(i as int) == s@.subrange(
        start as int,
        n as int,
    ));
    out.append(s.substring_char(start, n));
    out
}

} // verus!
