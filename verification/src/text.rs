//! Small verified operations on strings, stated over sequences of characters.

use vstd::prelude::*;
use vstd::string::StrSliceExecFns;
use vstd::string::StringExecFns;

verus! {

/// `c` with an ASCII capital letter replaced by its small letter.
pub open spec fn ascii_lower(c: char) -> char {
    if 'A' <= c && c <= 'Z' {
        ((c as u8) + 32) as char
    } else {
        c
    }
}

/// `s` with every ASCII capital letter replaced by its small letter.
pub open spec fn lower(s: Seq<char>) -> Seq<char> {
    Seq::new(s.len(), |i: int| ascii_lower(s[i]))
}

/// Whether `a` and `b` are the same up to the case of ASCII letters.
///
/// Only ASCII letters are folded. The Kelvin sign is the one character
/// outside ASCII whose lower-case form lies within ASCII, where it is `k`.
/// So against a word of ASCII characters without `k` this is the same
/// comparison as one of the Unicode lower-case forms.
pub open spec fn eq_ignore_case(a: Seq<char>, b: Seq<char>) -> bool {
    lower(a) == lower(b)
}

/// Whether `s` begins with `prefix`.
pub open spec fn starts_with(s: Seq<char>, prefix: Seq<char>) -> bool {
    prefix.len() <= s.len() && s.take(prefix.len() as int) == prefix
}

/// Whether `sub` occurs in `s` at position `at`.
pub open spec fn occurs_at(s: Seq<char>, sub: Seq<char>, at: int) -> bool {
    0 <= at && at + sub.len() <= s.len() && s.subrange(at, at + sub.len()) == sub
}

/// Whether `sub` occurs somewhere in `s`.
pub open spec fn contains_sub(s: Seq<char>, sub: Seq<char>) -> bool {
    exists|at: int| occurs_at(s, sub, at)
}

/// `s` without the run of `c` at its end.
pub open spec fn trim_end(s: Seq<char>, c: char) -> Seq<char>
    decreases s.len(),
{
    if s.len() > 0 && s.last() == c {
        trim_end(s.drop_last(), c)
    } else {
        s
    }
}

/// `s` without the repetitions of `pattern` at its start. An empty pattern
/// removes nothing.
pub open spec fn trim_start(s: Seq<char>, pattern: Seq<char>) -> Seq<char>
    decreases s.len(),
{
    if pattern.len() > 0 && starts_with(s, pattern) {
        trim_start(s.skip(pattern.len() as int), pattern)
    } else {
        s
    }
}

/// The pieces of `s` between the occurrences of `sep`. There is always at
/// least one piece; a separator at either end, or two in a row, give an
/// empty piece.
pub open spec fn split(s: Seq<char>, sep: char) -> Seq<Seq<char>>
    decreases s.len(),
{
    if s.len() == 0 {
        seq![Seq::<char>::empty()]
    } else if s.last() == sep {
        split(s.drop_last(), sep).push(Seq::<char>::empty())
    } else {
        let before = split(s.drop_last(), sep);
        before.drop_last().push(before.last().push(s.last()))
    }
}

/// The pieces put together again, with `sep` between neighbours.
pub open spec fn join(pieces: Seq<Seq<char>>, sep: char) -> Seq<char>
    decreases pieces.len(),
{
    if pieces.len() == 0 {
        Seq::<char>::empty()
    } else if pieces.len() == 1 {
        pieces[0]
    } else {
        join(pieces.drop_last(), sep).push(sep) + pieces.last()
    }
}

/// Whether `c` occurs nowhere in `s`.
pub open spec fn free_of(s: Seq<char>, c: char) -> bool {
    forall|i: int| 0 <= i < s.len() ==> s[i] != c
}

/// There is always at least one piece.
pub proof fn lemma_split_nonempty(s: Seq<char>, sep: char)
    ensures
        split(s, sep).len() >= 1,
    decreases s.len(),
{
    if s.len() > 0 {
        lemma_split_nonempty(s.drop_last(), sep);
    }
}

/// No piece holds the separator.
pub proof fn lemma_split_pieces_free(s: Seq<char>, sep: char)
    ensures
        forall|i: int| 0 <= i < split(s, sep).len() ==> free_of(#[trigger] split(s, sep)[i], sep),
    decreases s.len(),
{
    if s.len() > 0 {
        lemma_split_nonempty(s.drop_last(), sep);
        lemma_split_pieces_free(s.drop_last(), sep);
    }
}

/// A string without the separator is its own single piece.
pub proof fn lemma_split_single(t: Seq<char>, sep: char)
    requires
        free_of(t, sep),
    ensures
        split(t, sep) == seq![t],
    decreases t.len(),
{
    if t.len() > 0 {
        lemma_split_single(t.drop_last(), sep);
        assert(t.drop_last().push(t.last()) =~= t);
        assert(seq![t.drop_last()].drop_last().push(t) =~= seq![t]);
    } else {
        assert(t =~= Seq::<char>::empty());
    }
}

/// A string without the separator that follows a separator is the last
/// piece, and the pieces before it are those of what stands before the
/// separator.
pub proof fn lemma_split_last(x: Seq<char>, t: Seq<char>, sep: char)
    requires
        free_of(t, sep),
    ensures
        split(x.push(sep) + t, sep) == split(x, sep).push(t),
    decreases t.len(),
{
    let whole = x.push(sep) + t;
    if t.len() == 0 {
        assert(whole =~= x.push(sep));
        assert(whole.drop_last() =~= x);
        assert(t =~= Seq::<char>::empty());
    } else {
        lemma_split_last(x, t.drop_last(), sep);
        assert(whole.drop_last() =~= x.push(sep) + t.drop_last());
        assert(whole.last() == t.last());
        let before = split(x, sep).push(t.drop_last());
        assert(before.drop_last() =~= split(x, sep));
        assert(t.drop_last().push(t.last()) =~= t);
    }
}

/// Splitting what was joined gives the pieces back, provided that there is
/// a piece and that no piece holds the separator.
pub proof fn lemma_split_join(pieces: Seq<Seq<char>>, sep: char)
    requires
        pieces.len() >= 1,
        forall|i: int| 0 <= i < pieces.len() ==> free_of(#[trigger] pieces[i], sep),
    ensures
        split(join(pieces, sep), sep) == pieces,
    decreases pieces.len(),
{
    if pieces.len() == 1 {
        lemma_split_single(pieces[0], sep);
        assert(seq![pieces[0]] =~= pieces);
    } else {
        lemma_split_join(pieces.drop_last(), sep);
        lemma_split_last(join(pieces.drop_last(), sep), pieces.last(), sep);
        assert(pieces.drop_last().push(pieces.last()) =~= pieces);
    }
}

/// Whether `c` has the Unicode property `White_Space`.
pub open spec fn is_whitespace(c: char) -> bool {
    let n = c as u32;
    ||| 0x09 <= n <= 0x0D
    ||| n == 0x20
    ||| n == 0x85
    ||| n == 0xA0
    ||| n == 0x1680
    ||| 0x2000 <= n <= 0x200A
    ||| n == 0x2028
    ||| n == 0x2029
    ||| n == 0x202F
    ||| n == 0x205F
    ||| n == 0x3000
}

/// Whether `s` is empty or made of white space only.
pub open spec fn is_blank(s: Seq<char>) -> bool {
    forall|i: int| 0 <= i < s.len() ==> is_whitespace(#[trigger] s[i])
}

/// The characters of `s`, one by one.
pub fn chars_of(s: &str) -> (v: Vec<char>)
    ensures
        v@ == s@,
{
    let mut v: Vec<char> = Vec::new();
    for c in iter: s.chars()
        invariant
            iter.seq() == s@,
            v@ == s@.take(iter.index() as int),
    {
        v.push(c);
        proof {
            assert(s@.take(iter.index() + 1) =~= s@.take(iter.index() as int).push(c));
        }
    }
    proof {
        assert(s@.take(s@.len() as int) =~= s@);
    }
    v
}

/// `c` with an ASCII capital letter replaced by its small letter.
pub fn to_ascii_lower(c: char) -> (r: char)
    ensures
        r == ascii_lower(c),
{
    if 'A' <= c && c <= 'Z' {
        ((c as u8) + 32) as char
    } else {
        c
    }
}

/// Whether `c` has the Unicode property `White_Space`.
pub fn char_is_whitespace(c: char) -> (b: bool)
    ensures
        b == is_whitespace(c),
{
    let n: u32 = c as u32;
    (0x09 <= n && n <= 0x0D) || n == 0x20 || n == 0x85 || n == 0xA0 || n == 0x1680 || (0x2000 <= n
        && n <= 0x200A) || n == 0x2028 || n == 0x2029 || n == 0x202F || n == 0x205F || n == 0x3000
}

/// Whether `s` is empty or made of white space only.
pub fn str_is_blank(s: &str) -> (b: bool)
    ensures
        b == is_blank(s@),
{
    for c in iter: s.chars()
        invariant
            iter.seq() == s@,
            is_blank(s@.take(iter.index() as int)),
    {
        if !char_is_whitespace(c) {
            return false;
        }
        proof {
            assert(s@.take(iter.index() + 1) =~= s@.take(iter.index() as int).push(c));
        }
    }
    proof {
        assert(s@.take(s@.len() as int) =~= s@);
    }
    true
}

/// Whether `a` and `b` are the same up to the case of ASCII letters.
pub fn chars_eq_ignore_case(a: &[char], b: &[char]) -> (r: bool)
    ensures
        r == eq_ignore_case(a@, b@),
{
    if a.len() != b.len() {
        proof {
            assert(lower(a@).len() != lower(b@).len());
        }
        return false;
    }
    let mut i: usize = 0;
    while i < a.len()
        invariant
            a@.len() == b@.len(),
            i <= a@.len(),
            forall|j: int| 0 <= j < i ==> ascii_lower(a@[j]) == ascii_lower(b@[j]),
        decreases a@.len() - i,
    {
        if to_ascii_lower(a[i]) != to_ascii_lower(b[i]) {
            proof {
                assert(lower(a@)[i as int] != lower(b@)[i as int]);
            }
            return false;
        }
        i += 1;
    }
    proof {
        assert(lower(a@) =~= lower(b@));
    }
    true
}

/// Whether `sub` occurs in `s` at position `at`.
pub fn chars_occur_at(s: &[char], sub: &[char], at: usize) -> (r: bool)
    ensures
        r == occurs_at(s@, sub@, at as int),
{
    if sub.len() > s.len() || at > s.len() - sub.len() {
        return false;
    }
    let mut i: usize = 0;
    while i < sub.len()
        invariant
            at + sub@.len() <= s@.len() <= usize::MAX,
            i <= sub@.len(),
            forall|j: int| 0 <= j < i ==> s@[at + j] == sub@[j],
        decreases sub@.len() - i,
    {
        if s[at + i] != sub[i] {
            proof {
                assert(s@.subrange(at as int, at + sub@.len())[i as int] != sub@[i as int]);
            }
            return false;
        }
        i += 1;
    }
    proof {
        assert(s@.subrange(at as int, at + sub@.len()) =~= sub@);
    }
    true
}

/// Whether `s` begins with `prefix`.
pub fn chars_start_with(s: &[char], prefix: &[char]) -> (r: bool)
    ensures
        r == starts_with(s@, prefix@),
{
    let r = chars_occur_at(s, prefix, 0);
    proof {
        if prefix@.len() <= s@.len() {
            assert(s@.subrange(0, prefix@.len() as int) =~= s@.take(prefix@.len() as int));
        }
    }
    r
}

/// Whether `sub` occurs somewhere in `s`.
pub fn chars_contain(s: &[char], sub: &[char]) -> (r: bool)
    ensures
        r == contains_sub(s@, sub@),
{
    if sub.len() > s.len() {
        return false;
    }
    if sub.len() == 0 {
        proof {
            assert(s@.subrange(0, 0) =~= sub@);
            assert(occurs_at(s@, sub@, 0));
        }
        return true;
    }
    let last: usize = s.len() - sub.len();
    let mut at: usize = 0;
    while at <= last
        invariant
            last == s@.len() - sub@.len(),
            last < usize::MAX,
            at <= last + 1,
            forall|k: int| 0 <= k < at ==> !occurs_at(s@, sub@, k),
        decreases last + 1 - at,
    {
        if chars_occur_at(s, sub, at) {
            return true;
        }
        at += 1;
    }
    false
}

/// The views of the strings in `v`, in order.
pub open spec fn views(v: Seq<String>) -> Seq<Seq<char>> {
    Seq::new(v.len(), |i: int| v[i]@)
}

/// The piece of `s` from position `from` up to `to`, as a string of its own.
pub(crate) fn piece(s: &str, from: usize, to: usize) -> (r: String)
    requires
        from <= to <= s@.len(),
    ensures
        r@ == s@.subrange(from as int, to as int),
{
    String::from_str(s.substring_char(from, to))
}

/// The pieces of `s` between the occurrences of `sep`.
pub fn split_str(s: &str, sep: char) -> (pieces: Vec<String>)
    ensures
        views(pieces@) == split(s@, sep),
{
    let chars = chars_of(s);
    let mut pieces: Vec<String> = Vec::new();
    let mut start: usize = 0;
    let mut i: usize = 0;
    proof {
        assert(s@.take(0) =~= Seq::<char>::empty());
        assert(views(pieces@).push(s@.subrange(0, 0)) =~= seq![Seq::<char>::empty()]);
    }
    while i < chars.len()
        invariant
            chars@ == s@,
            start <= i <= s@.len(),
            views(pieces@).push(s@.subrange(start as int, i as int)) == split(
                s@.take(i as int),
                sep,
            ),
        decreases chars@.len() - i,
    {
        let ghost before = split(s@.take(i as int), sep);
        let ghost old_pieces = views(pieces@);
        proof {
            assert(s@.take(i + 1).drop_last() =~= s@.take(i as int));
            assert(s@.take(i + 1).last() == s@[i as int]);
            assert(before.last() == s@.subrange(start as int, i as int));
            assert(before.drop_last() =~= old_pieces);
        }
        if chars[i] == sep {
            let token = piece(s, start, i);
            pieces.push(token);
            start = i + 1;
            proof {
                assert(views(pieces@) =~= before);
                assert(s@.subrange(start as int, i + 1) =~= Seq::<char>::empty());
            }
        } else {
            proof {
                assert(s@.subrange(start as int, i + 1) =~= s@.subrange(
                    start as int,
                    i as int,
                ).push(s@[i as int]));
            }
        }
        i += 1;
    }
    let token = piece(s, start, i);
    proof {
        assert(s@.take(s@.len() as int) =~= s@);
        assert(views(pieces@.push(token)) =~= views(pieces@).push(token@));
    }
    pieces.push(token);
    pieces
}

/// `s` without the run of `c` at its end.
pub fn trim_end_str(s: &str, c: char) -> (r: String)
    ensures
        r@ == trim_end(s@, c),
{
    let chars = chars_of(s);
    let mut end: usize = chars.len();
    proof {
        assert(s@.take(s@.len() as int) =~= s@);
    }
    while end > 0 && chars[end - 1] == c
        invariant
            chars@ == s@,
            end <= s@.len(),
            trim_end(s@, c) == trim_end(s@.take(end as int), c),
        decreases end,
    {
        proof {
            assert(s@.take(end as int).drop_last() =~= s@.take(end - 1));
        }
        end -= 1;
    }
    proof {
        assert(s@.subrange(0, end as int) =~= s@.take(end as int));
    }
    piece(s, 0, end)
}

/// `s` without the repetitions of `pattern` at its start.
pub fn trim_start_str(s: &str, pattern: &str) -> (r: String)
    ensures
        r@ == trim_start(s@, pattern@),
{
    let chars = chars_of(s);
    let pat = chars_of(pattern);
    let mut start: usize = 0;
    proof {
        assert(s@.skip(0) =~= s@);
    }
    if pat.len() > 0 {
        while pat.len() <= chars.len() - start && chars_occur_at(
            chars.as_slice(),
            pat.as_slice(),
            start,
        )
            invariant
                chars@ == s@,
                pat@ == pattern@,
                pat@.len() > 0,
                start <= s@.len(),
                trim_start(s@, pattern@) == trim_start(s@.skip(start as int), pattern@),
            decreases s@.len() - start,
        {
            proof {
                let rest = s@.skip(start as int);
                assert(rest.take(pat@.len() as int) =~= s@.subrange(
                    start as int,
                    start + pat@.len(),
                ));
                assert(rest.skip(pat@.len() as int) =~= s@.skip(start + pat@.len()));
            }
            start += pat.len();
        }
        proof {
            let rest = s@.skip(start as int);
            if pat@.len() <= rest.len() {
                assert(rest.take(pat@.len() as int) =~= s@.subrange(
                    start as int,
                    start + pat@.len(),
                ));
            }
            assert(!starts_with(rest, pattern@));
        }
    }
    proof {
        assert(s@.subrange(start as int, s@.len() as int) =~= s@.skip(start as int));
    }
    piece(s, start, chars.len())
}

/// Whether `a` and `b` are the same up to the case of ASCII letters.
pub fn str_eq_ignore_case(a: &str, b: &str) -> (r: bool)
    ensures
        r == eq_ignore_case(a@, b@),
{
    let x = chars_of(a);
    let y = chars_of(b);
    chars_eq_ignore_case(x.as_slice(), y.as_slice())
}

/// Whether `s` begins with `prefix`.
pub fn str_starts_with(s: &str, prefix: &str) -> (r: bool)
    ensures
        r == starts_with(s@, prefix@),
{
    let x = chars_of(s);
    let y = chars_of(prefix);
    chars_start_with(x.as_slice(), y.as_slice())
}

/// Whether `s` begins with `prefix` up to the case of ASCII letters.
pub fn str_starts_with_ignore_case(s: &str, prefix: &str) -> (r: bool)
    ensures
        r == (prefix@.len() <= s@.len() && eq_ignore_case(
            s@.take(prefix@.len() as int),
            prefix@,
        )),
{
    let x = chars_of(s);
    let y = chars_of(prefix);
    if y.len() > x.len() {
        return false;
    }
    let head = vstd::slice::slice_subrange(x.as_slice(), 0, y.len());
    proof {
        assert(head@ =~= s@.take(prefix@.len() as int));
    }
    chars_eq_ignore_case(head, y.as_slice())
}

/// Whether `sub` occurs somewhere in `s`.
pub fn str_contains(s: &str, sub: &str) -> (r: bool)
    ensures
        r == contains_sub(s@, sub@),
{
    let x = chars_of(s);
    let y = chars_of(sub);
    chars_contain(x.as_slice(), y.as_slice())
}

} // verus!
