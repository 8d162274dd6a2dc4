//! Character-level helpers shared by the parsers of this crate.
//!
//! Every parser here works on `Vec<char>` and states its result over
//! `Seq<char>`; the two conversions at the bottom move between `str` and
//! that representation.

use vstd::prelude::*;

verus! {

/// The decimal digit character for `d`.
pub open spec fn digit_char(d: int) -> char
    recommends
        0 <= d < 10,
{
    if d == 0 {
        '0'
    } else if d == 1 {
        '1'
    } else if d == 2 {
        '2'
    } else if d == 3 {
        '3'
    } else if d == 4 {
        '4'
    } else if d == 5 {
        '5'
    } else if d == 6 {
        '6'
    } else if d == 7 {
        '7'
    } else if d == 8 {
        '8'
    } else {
        '9'
    }
}

/// The decimal notation of `n`, without padding: `"0"` for zero, otherwise
/// the digits from the most significant one.
pub open spec fn decimal(n: nat) -> Seq<char>
    decreases n,
{
    if n < 10 {
        seq![digit_char(n as int)]
    } else {
        decimal(n / 10).push(digit_char((n % 10) as int))
    }
}

fn digit_of(d: u64) -> (c: char)
    requires
        d < 10,
    ensures
        c == digit_char(d as int),
{
    if d == 0 {
        '0'
    } else if d == 1 {
        '1'
    } else if d == 2 {
        '2'
    } else if d == 3 {
        '3'
    } else if d == 4 {
        '4'
    } else if d == 5 {
        '5'
    } else if d == 6 {
        '6'
    } else if d == 7 {
        '7'
    } else if d == 8 {
        '8'
    } else {
        '9'
    }
}

/// Writes `n` in decimal notation.
pub fn decimal_chars(n: u64) -> (out: Vec<char>)
    ensures
        out@ == decimal(n as nat),
    decreases n,
{
    if n < 10 {
        let mut out: Vec<char> = Vec::new();
        out.push(digit_of(n));
        out
    } else {
        let mut out = decimal_chars(n / 10);
        out.push(digit_of(n % 10));
        out
    }
}

/// Appends `tail` to `out`.
pub fn push_all(out: &mut Vec<char>, tail: &Vec<char>)
    ensures
        final(out)@ == old(out)@ + tail@,
{
    let mut i: usize = 0;
    while i < tail.len()
        invariant
            i <= tail.len(),
            out@ == old(out)@ + tail@.take(i as int),
        decreases tail.len() - i,
    {
        out.push(tail[i]);
        i += 1;
        assert(tail@.take(i as int) == tail@.take(i - 1).push(tail@[i - 1]));
    }
    assert(tail@.take(tail.len() as int) == tail@);
}

/// Whether `a` and `b` hold the same characters.
pub fn chars_equal(a: &Vec<char>, b: &Vec<char>) -> (same: bool)
    ensures
        same == (a@ == b@),
{
    if a.len() != b.len() {
        return false;
    }
    let mut i: usize = 0;
    while i < a.len()
        invariant
            i <= a.len(),
            a.len() == b.len(),
            a@.take(i as int) == b@.take(i as int),
        decreases a.len() - i,
    {
        if a[i] != b[i] {
            return false;
        }
        i += 1;
        assert(a@.take(i as int) == a@.take(i - 1).push(a@[i - 1]));
        assert(b@.take(i as int) == b@.take(i - 1).push(b@[i - 1]));
    }
    assert(a@.take(a.len() as int) == a@);
    assert(b@.take(b.len() as int) == b@);
    true
}

/// Whether `a` holds the characters of `lit`.
pub fn is_text(a: &Vec<char>, lit: &str) -> (same: bool)
    ensures
        same == (a@ == lit@),
{
    let b = chars_of(lit);
    chars_equal(a, &b)
}

/// The code point of `c`, with the upper-case ASCII letters moved onto the
/// lower-case ones.
pub open spec fn ascii_folded(c: char) -> int {
    if 'A' <= c && c <= 'Z' {
        c as u32 + 32
    } else {
        c as u32 as int
    }
}

/// Whether `a` and `b` are the same text when ASCII letters are compared
/// without regard to case.
pub open spec fn same_ignoring_ascii_case(a: Seq<char>, b: Seq<char>) -> bool {
    &&& a.len() == b.len()
    &&& forall|i: int| 0 <= i < a.len() ==> ascii_folded(#[trigger] a[i]) == ascii_folded(b[i])
}

fn fold_ascii(c: char) -> (code: u32)
    ensures
        code == ascii_folded(c),
{
    if 'A' <= c && c <= 'Z' {
        c as u32 + 32
    } else {
        c as u32
    }
}

/// Compares `a` with `lit`, ASCII letters without regard to case.
pub fn is_text_ignoring_ascii_case(a: &Vec<char>, lit: &str) -> (same: bool)
    ensures
        same == same_ignoring_ascii_case(a@, lit@),
{
    let b = chars_of(lit);
    if a.len() != b.len() {
        return false;
    }
    let mut i: usize = 0;
    while i < a.len()
        invariant
            i <= a.len(),
            a.len() == b.len(),
            b@ == lit@,
            forall|j: int| 0 <= j < i ==> ascii_folded(#[trigger] a@[j]) == ascii_folded(b@[j]),
        decreases a.len() - i,
    {
        if fold_ascii(a[i]) != fold_ascii(b[i]) {
            return false;
        }
        i += 1;
    }
    true
}

/// The index of the first `c` in `s`, or the length of `s` where it holds
/// none.
pub open spec fn position(s: Seq<char>, c: char) -> int
    decreases s.len(),
{
    if s.len() == 0 || s[0] == c {
        0
    } else {
        1 + position(s.drop_first(), c)
    }
}

/// `position` is the least index that holds `c`, and lies within `s`
/// unless `s` holds no `c`.
pub proof fn lemma_position(s: Seq<char>, c: char)
    ensures
        0 <= position(s, c) <= s.len(),
        forall|j: int| 0 <= j < position(s, c) ==> s[j] != c,
        position(s, c) < s.len() ==> s[position(s, c)] == c,
    decreases s.len(),
{
    if s.len() == 0 || s[0] == c {
    } else {
        let rest = s.drop_first();
        lemma_position(rest, c);
        assert forall|j: int| 0 <= j < position(s, c) implies s[j] != c by {
            if j > 0 {
                assert(s[j] == rest[j - 1]);
            }
        }
        if position(s, c) < s.len() {
            assert(s[position(s, c)] == rest[position(rest, c)]);
        }
    }
}

/// An index that holds `c` and has no `c` before it is the position of `c`.
pub proof fn lemma_position_is(s: Seq<char>, c: char, p: int)
    requires
        0 <= p <= s.len(),
        forall|j: int| 0 <= j < p ==> s[j] != c,
        p < s.len() ==> s[p] == c,
    ensures
        position(s, c) == p,
{
    lemma_position(s, c);
    let q = position(s, c);
    if q < p {
        assert(s[q] != c);
    }
    if p < q {
        assert(s[p] != c);
    }
}

/// Finds the first `c` in `v`.
pub fn find_char(v: &Vec<char>, c: char) -> (at: usize)
    ensures
        at == position(v@, c),
{
    let mut i: usize = 0;
    while i < v.len() && v[i] != c
        invariant
            i <= v.len(),
            forall|j: int| 0 <= j < i ==> v@[j] != c,
        decreases v.len() - i,
    {
        i += 1;
    }
    proof {
        lemma_position_is(v@, c, i as int);
    }
    i
}

/// The characters of `v` from `from` up to, not including, `to`.
pub fn slice_chars(v: &Vec<char>, from: usize, to: usize) -> (out: Vec<char>)
    requires
        from <= to <= v.len(),
    ensures
        out@ == v@.subrange(from as int, to as int),
{
    let mut out: Vec<char> = Vec::new();
    let mut i: usize = from;
    while i < to
        invariant
            from <= i <= to,
            to <= v.len(),
            out@ == v@.subrange(from as int, i as int),
        decreases to - i,
    {
        out.push(v[i]);
        i += 1;
        assert(v@.subrange(from as int, i as int) == v@.subrange(from as int, i - 1).push(v@[i - 1]));
    }
    out
}

/// Finds the first `c` in `v` at or after `from`.
pub fn find_char_from(v: &Vec<char>, c: char, from: usize) -> (at: usize)
    requires
        from <= v.len(),
    ensures
        at == from + position(v@.skip(from as int), c),
        from <= at <= v.len(),
{
    let mut i: usize = from;
    while i < v.len() && v[i] != c
        invariant
            from <= i <= v.len(),
            forall|j: int| from <= j < i ==> v@[j] != c,
        decreases v.len() - i,
    {
        i += 1;
    }
    proof {
        lemma_position_is(v@.skip(from as int), c, i - from);
    }
    i
}

/// Whether `c` is white space: the characters with the Unicode property
/// `White_Space`, which is what `char::is_whitespace` tests.
pub open spec fn is_whitespace(c: char) -> bool {
    let u = c as u32;
    ||| 0x09 <= u <= 0x0D
    ||| u == 0x20
    ||| u == 0x85
    ||| u == 0xA0
    ||| u == 0x1680
    ||| 0x2000 <= u <= 0x200A
    ||| u == 0x2028
    ||| u == 0x2029
    ||| u == 0x202F
    ||| u == 0x205F
    ||| u == 0x3000
}

/// Tests whether `c` is white space.
pub fn whitespace(c: char) -> (yes: bool)
    ensures
        yes == is_whitespace(c),
{
    let u = c as u32;
    (0x09 <= u && u <= 0x0D) || u == 0x20 || u == 0x85 || u == 0xA0 || u == 0x1680 || (0x2000 <= u
        && u <= 0x200A) || u == 0x2028 || u == 0x2029 || u == 0x202F || u == 0x205F || u == 0x3000
}

/// How many white-space characters `s` starts with.
pub open spec fn leading_spaces(s: Seq<char>) -> int
    decreases s.len(),
{
    if s.len() == 0 || !is_whitespace(s[0]) {
        0
    } else {
        1 + leading_spaces(s.drop_first())
    }
}

/// How many white-space characters `s` ends with.
pub open spec fn trailing_spaces(s: Seq<char>) -> int
    decreases s.len(),
{
    if s.len() == 0 || !is_whitespace(s.last()) {
        0
    } else {
        1 + trailing_spaces(s.drop_last())
    }
}

/// `s` without the white space at its two ends, as `str::trim` gives it.
pub open spec fn trimmed(s: Seq<char>) -> Seq<char> {
    let a = leading_spaces(s);
    if a == s.len() {
        Seq::empty()
    } else {
        s.subrange(a, s.len() - trailing_spaces(s))
    }
}

/// The first index of `s` that holds no white space is the number of its
/// leading spaces.
pub proof fn lemma_leading_spaces_is(s: Seq<char>, p: int)
    requires
        0 <= p <= s.len(),
        forall|j: int| 0 <= j < p ==> is_whitespace(s[j]),
        p < s.len() ==> !is_whitespace(s[p]),
    ensures
        leading_spaces(s) == p,
    decreases s.len(),
{
    if s.len() == 0 || !is_whitespace(s[0]) {
        if p > 0 {
            assert(is_whitespace(s[0]));
        }
    } else {
        let rest = s.drop_first();
        assert(p > 0);
        assert forall|j: int| 0 <= j < p - 1 implies is_whitespace(rest[j]) by {
            assert(rest[j] == s[j + 1]);
        }
        lemma_leading_spaces_is(rest, p - 1);
    }
}

/// Counting from the end, the first index of `s` that holds no white space
/// gives the number of its trailing spaces.
pub proof fn lemma_trailing_spaces_is(s: Seq<char>, q: int)
    requires
        0 <= q <= s.len(),
        forall|j: int| q <= j < s.len() ==> is_whitespace(s[j]),
        q > 0 ==> !is_whitespace(s[q - 1]),
    ensures
        trailing_spaces(s) == s.len() - q,
    decreases s.len(),
{
    if s.len() == 0 || !is_whitespace(s.last()) {
        if q < s.len() {
            assert(is_whitespace(s[s.len() - 1]));
        }
    } else {
        let rest = s.drop_last();
        assert(q < s.len());
        assert forall|j: int| q <= j < rest.len() implies is_whitespace(rest[j]) by {
            assert(rest[j] == s[j]);
        }
        lemma_trailing_spaces_is(rest, q);
    }
}

/// Removes the white space at the two ends of `v`.
pub fn trim(v: &Vec<char>) -> (out: Vec<char>)
    ensures
        out@ == trimmed(v@),
{
    let mut a: usize = 0;
    while a < v.len() && whitespace(v[a])
        invariant
            a <= v.len(),
            forall|j: int| 0 <= j < a ==> is_whitespace(v@[j]),
        decreases v.len() - a,
    {
        a += 1;
    }
    proof {
        lemma_leading_spaces_is(v@, a as int);
    }
    if a == v.len() {
        return Vec::new();
    }
    let mut q: usize = v.len();
    while q > a && whitespace(v[q - 1])
        invariant
            a <= q <= v.len(),
            a < v.len(),
            !is_whitespace(v@[a as int]),
            forall|j: int| q <= j < v.len() ==> is_whitespace(v@[j]),
        decreases q,
    {
        q -= 1;
    }
    proof {
        lemma_trailing_spaces_is(v@, q as int);
    }
    slice_chars(v, a, q)
}

/// The pieces of `s` between the occurrences of `c`, as `str::split` gives
/// them: one piece more than there are occurrences, empty pieces included.
pub open spec fn split(s: Seq<char>, c: char) -> Seq<Seq<char>>
    decreases s.len(),
{
    let p = position(s, c);
    if 0 <= p < s.len() {
        seq![s.take(p)] + split(s.skip(p + 1), c)
    } else {
        seq![s]
    }
}

/// The views of the pieces in `v`.
pub open spec fn pieces(v: Seq<Vec<char>>) -> Seq<Seq<char>> {
    v.map_values(|piece: Vec<char>| piece@)
}

/// Cuts `v` at every `c`.
pub fn split_chars(v: &Vec<char>, c: char) -> (out: Vec<Vec<char>>)
    ensures
        pieces(out@) == split(v@, c),
{
    let mut out: Vec<Vec<char>> = Vec::new();
    let mut start: usize = 0;
    assert(pieces(out@) + split(v@.skip(0), c) == split(v@, c)) by {
        assert(v@.skip(0) == v@);
    }
    loop
        invariant_except_break
            start <= v.len(),
            pieces(out@) + split(v@.skip(start as int), c) == split(v@, c),
        ensures
            pieces(out@) == split(v@, c),
        decreases v.len() - start,
    {
        let at = find_char_from(v, c, start);
        let piece = slice_chars(v, start, at);
        let ghost rest = v@.skip(start as int);
        let ghost before = out@;
        proof {
            lemma_position(rest, c);
            assert(piece@ == rest.take(at - start));
        }
        out.push(piece);
        assert(pieces(out@) == pieces(before).push(piece@));
        if at == v.len() {
            proof {
                assert(rest.take(rest.len() as int) == rest);
                assert(split(rest, c) == seq![rest]);
            }
            break;
        }
        proof {
            assert(rest.skip(at - start + 1) == v@.skip(at + 1));
            assert(split(rest, c) == seq![piece@] + split(v@.skip(at + 1), c));
        }
        start = at + 1;
    }
    out
}

/// `s` with every `from` turned into `to`.
pub open spec fn replaced(s: Seq<char>, from: char, to: char) -> Seq<char> {
    s.map_values(|c: char| if c == from { to } else { c })
}

/// Turns every `from` in `v` into `to`.
pub fn replace_char(v: &Vec<char>, from: char, to: char) -> (out: Vec<char>)
    ensures
        out@ == replaced(v@, from, to),
{
    let mut out: Vec<char> = Vec::new();
    let mut i: usize = 0;
    while i < v.len()
        invariant
            i <= v.len(),
            out@ == replaced(v@.take(i as int), from, to),
        decreases v.len() - i,
    {
        let c = v[i];
        out.push(if c == from { to } else { c });
        i += 1;
        assert(v@.take(i as int) == v@.take(i - 1).push(v@[i - 1]));
    }
    proof {
        assert(v@.take(v.len() as int) == v@);
    }
    out
}

/// The characters of `s`, in order.
pub fn chars_of(s: &str) -> (out: Vec<char>)
    ensures
        out@ == s@,
{
    let n = s.unicode_len();
    let mut out: Vec<char> = Vec::new();
    let mut i: usize = 0;
    while i < n
        invariant
            n == s@.len(),
            i <= n,
            out@ == s@.take(i as int),
        decreases n - i,
    {
        out.push(s.get_char(i));
        i += 1;
        assert(s@.take(i as int) == s@.take(i - 1).push(s@[i - 1]));
    }
    assert(s@.take(n as int) == s@);
    out
}

/// `String::from_iter` over the characters of `chars`: the string that
/// holds exactly those characters, in order.
#[verifier::external_body]
pub(crate) fn string_of(chars: &Vec<char>) -> (s: String)
    ensures
        s@ == chars@,
{
    String::from_iter(chars.iter())
}

} // verus!
