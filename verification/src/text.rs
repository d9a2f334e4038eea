//! Byte-string utilities shared by the text-processing stages: substring
//! matching, searching, ASCII case mapping, whitespace trimming, splitting
//! into lines and joining them back.
//!
//! All text in this crate is handled as bytes; the transformations below
//! only ever inspect ASCII bytes, so multi-byte encodings pass through
//! them unchanged.

use vstd::prelude::*;
use vstd::string::StringSliceAdditionalSpecFns;

verus! {

/// The line separator.
pub const NL: u8 = 10;

/// The colon byte.
pub const COLON: u8 = 58;

/// True when `pat` occurs in `s` starting at index `i`.
pub open spec fn occurs_at(s: Seq<u8>, pat: Seq<u8>, i: int) -> bool {
    &&& 0 <= i
    &&& i + pat.len() <= s.len()
    &&& s.subrange(i, i + pat.len()) == pat
}

/// True when `pat` occurs somewhere in `s`.
pub open spec fn contains_seq(s: Seq<u8>, pat: Seq<u8>) -> bool {
    exists|i: int| occurs_at(s, pat, i)
}

/// An occurrence in the dropped head of a sequence is an occurrence in the
/// whole sequence, shifted.
pub proof fn lemma_occurs_skip(s: Seq<u8>, pat: Seq<u8>, n: int, i: int)
    requires
        0 <= n <= s.len(),
        0 <= i,
    ensures
        occurs_at(s.skip(n), pat, i) == occurs_at(s, pat, i + n),
{
    if i + pat.len() <= s.len() - n {
        assert(s.skip(n).subrange(i, i + pat.len()) =~= s.subrange(i + n, i + n + pat.len()));
    }
}

/// Check whether `pat` occurs in `s` at index `i`.
pub fn match_at(s: &Vec<u8>, pat: &Vec<u8>, i: usize) -> (b: bool)
    ensures
        b == occurs_at(s@, pat@, i as int),
{
    if i > s.len() || s.len() - i < pat.len() {
        return false;
    }
    let n = s.len();
    let mut j: usize = 0;
    while j < pat.len()
        invariant
            0 <= j <= pat@.len(),
            i + pat@.len() <= n,
            n == s@.len(),
            forall|jj: int| 0 <= jj < j ==> s@[i + jj] == pat@[jj],
        decreases pat@.len() - j,
    {
        if s[i + j] != pat[j] {
            assert(s@.subrange(i as int, i + pat@.len())[j as int] != pat@[j as int]);
            return false;
        }
        j = j + 1;
    }
    assert(s@.subrange(i as int, i + pat@.len()) =~= pat@);
    true
}

/// Check whether `pat` occurs anywhere in `s`.
pub fn contains_pattern(s: &Vec<u8>, pat: &Vec<u8>) -> (b: bool)
    ensures
        b == contains_seq(s@, pat@),
{
    if pat.len() == 0 {
        assert(s@.subrange(0, 0) =~= pat@);
        assert(occurs_at(s@, pat@, 0));
        return true;
    }
    if pat.len() > s.len() {
        assert(forall|i: int| !occurs_at(s@, pat@, i));
        return false;
    }
    let n = s.len();
    let m = pat.len();
    let mut i: usize = 0;
    while i <= n - m
        invariant
            0 <= i <= n - m + 1,
            1 <= m <= n,
            n == s@.len(),
            m == pat@.len(),
            forall|ii: int| 0 <= ii < i ==> !occurs_at(s@, pat@, ii),
        decreases n - m + 1 - i,
    {
        if match_at(s, pat, i) {
            return true;
        }
        i = i + 1;
    }
    assert(forall|ii: int| i <= ii ==> !occurs_at(s@, pat@, ii));
    false
}

/// The index of the first occurrence of byte `b` in `s`, or the length of
/// `s` when the byte does not occur.
pub open spec fn find_byte_spec(s: Seq<u8>, b: u8) -> int
    decreases s.len(),
{
    if s.len() == 0 {
        0
    } else if s[0] == b {
        0
    } else {
        1 + find_byte_spec(s.skip(1), b)
    }
}

/// What `find_byte_spec` yields: the first position holding `b`, and no
/// earlier one does.
pub proof fn lemma_find_byte(s: Seq<u8>, b: u8)
    ensures
        0 <= find_byte_spec(s, b) <= s.len(),
        forall|j: int| 0 <= j < find_byte_spec(s, b) ==> s[j] != b,
        find_byte_spec(s, b) < s.len() ==> s[find_byte_spec(s, b)] == b,
    decreases s.len(),
{
    if s.len() > 0 && s[0] != b {
        lemma_find_byte(s.skip(1), b);
        assert(forall|j: int| 0 <= j < find_byte_spec(s, b) ==> s[j] != b) by {
            assert(forall|j: int|
                1 <= j < find_byte_spec(s, b) ==> s[j] == s.skip(1)[j - 1] && s.skip(1)[j - 1]
                    != b);
        }
    }
}

/// A position that holds `b` while no earlier one does is the position
/// `find_byte_spec` yields.
pub proof fn lemma_find_byte_unique(s: Seq<u8>, b: u8, m: int)
    requires
        0 <= m <= s.len(),
        forall|j: int| 0 <= j < m ==> s[j] != b,
        m < s.len() ==> s[m] == b,
    ensures
        find_byte_spec(s, b) == m,
    decreases s.len(),
{
    if s.len() == 0 {
    } else if m == 0 {
    } else {
        assert(s[0] != b);
        assert(forall|j: int| 0 <= j < m - 1 ==> s.skip(1)[j] == s[j + 1] && s[j + 1] != b);
        assert(m - 1 < s.skip(1).len() ==> s.skip(1)[m - 1] == b);
        lemma_find_byte_unique(s.skip(1), b, m - 1);
    }
}

/// Find the first occurrence of byte `b` in `s` at or after `from`.
pub fn find_byte_from(s: &Vec<u8>, b: u8, from: usize) -> (r: Option<usize>)
    requires
        from <= s@.len(),
    ensures
        match r {
            Some(j) => from <= j < s@.len() && find_byte_spec(s@.skip(from as int), b) == j - from,
            None => find_byte_spec(s@.skip(from as int), b) == s@.len() - from,
        },
{
    let mut i: usize = from;
    while i < s.len()
        invariant
            from <= i <= s@.len(),
            forall|j: int| from <= j < i ==> s@[j] != b,
        decreases s@.len() - i,
    {
        if s[i] == b {
            proof {
                assert(forall|j: int|
                    0 <= j < i - from ==> s@.skip(from as int)[j] == s@[j + from] && s@[j + from]
                        != b);
                lemma_find_byte_unique(s@.skip(from as int), b, i - from);
            }
            return Some(i);
        }
        i = i + 1;
    }
    proof {
        assert(forall|j: int|
            0 <= j < s@.len() - from ==> s@.skip(from as int)[j] == s@[j + from] && s@[j + from]
                != b);
        lemma_find_byte_unique(s@.skip(from as int), b, s@.len() - from);
    }
    None
}

/// ASCII uppercase of one byte: a lowercase letter moves to its uppercase
/// form, every other byte stays.
pub open spec fn upper_byte(b: u8) -> u8 {
    if 97 <= b <= 122 {
        (b - 32) as u8
    } else {
        b
    }
}

/// ASCII lowercase of one byte.
pub open spec fn lower_byte(b: u8) -> u8 {
    if 65 <= b <= 90 {
        (b + 32) as u8
    } else {
        b
    }
}

/// ASCII uppercase applied to every byte.
pub open spec fn upper_seq(s: Seq<u8>) -> Seq<u8> {
    Seq::new(s.len(), |i: int| upper_byte(s[i]))
}

/// ASCII lowercase applied to every byte.
pub open spec fn lower_seq(s: Seq<u8>) -> Seq<u8> {
    Seq::new(s.len(), |i: int| lower_byte(s[i]))
}

/// Uppercasing twice is the same as uppercasing once.
pub proof fn lemma_upper_seq_idempotent(s: Seq<u8>)
    ensures
        upper_seq(upper_seq(s)) == upper_seq(s),
{
    assert(upper_seq(upper_seq(s)) =~= upper_seq(s));
}

/// ASCII-uppercase a byte string.
pub fn to_upper(s: &Vec<u8>) -> (r: Vec<u8>)
    ensures
        r@ == upper_seq(s@),
{
    let mut out: Vec<u8> = Vec::new();
    let mut i: usize = 0;
    while i < s.len()
        invariant
            i <= s@.len(),
            out@ =~= upper_seq(s@).take(i as int),
        decreases s@.len() - i,
    {
        let b = s[i];
        if 97 <= b && b <= 122 {
            out.push(b - 32);
        } else {
            out.push(b);
        }
        assert(out@ =~= upper_seq(s@).take(i + 1));
        i = i + 1;
    }
    assert(out@ =~= upper_seq(s@));
    out
}

/// ASCII-lowercase a byte string.
pub fn to_lower(s: &Vec<u8>) -> (r: Vec<u8>)
    ensures
        r@ == lower_seq(s@),
{
    let mut out: Vec<u8> = Vec::new();
    let mut i: usize = 0;
    while i < s.len()
        invariant
            i <= s@.len(),
            out@ =~= lower_seq(s@).take(i as int),
        decreases s@.len() - i,
    {
        let b = s[i];
        if 65 <= b && b <= 90 {
            out.push(b + 32);
        } else {
            out.push(b);
        }
        assert(out@ =~= lower_seq(s@).take(i + 1));
        i = i + 1;
    }
    assert(out@ =~= lower_seq(s@));
    out
}

/// True of the ASCII whitespace bytes: tab, line feed, vertical tab, form
/// feed, carriage return and space.
pub open spec fn is_ws(b: u8) -> bool {
    b == 9 || b == 10 || b == 11 || b == 12 || b == 13 || b == 32
}

/// Check one byte for ASCII whitespace.
pub fn is_ws_byte(b: u8) -> (r: bool)
    ensures
        r == is_ws(b),
{
    b == 9 || b == 10 || b == 11 || b == 12 || b == 13 || b == 32
}

/// `s` without its leading ASCII whitespace.
pub open spec fn trim_start_spec(s: Seq<u8>) -> Seq<u8>
    decreases s.len(),
{
    if s.len() > 0 && is_ws(s[0]) {
        trim_start_spec(s.skip(1))
    } else {
        s
    }
}

/// `s` without its trailing ASCII whitespace.
pub open spec fn trim_end_spec(s: Seq<u8>) -> Seq<u8>
    decreases s.len(),
{
    if s.len() > 0 && is_ws(s.last()) {
        trim_end_spec(s.drop_last())
    } else {
        s
    }
}

/// `s` without leading and trailing ASCII whitespace.
pub open spec fn trim_spec(s: Seq<u8>) -> Seq<u8> {
    trim_end_spec(trim_start_spec(s))
}

/// Dropping all leading whitespace leaves the suffix after the first
/// non-whitespace byte.
pub proof fn lemma_trim_start_skip(s: Seq<u8>, a: int)
    requires
        0 <= a <= s.len(),
        forall|j: int| 0 <= j < a ==> is_ws(s[j]),
        a < s.len() ==> !is_ws(s[a]),
    ensures
        trim_start_spec(s) == s.skip(a),
    decreases s.len(),
{
    if s.len() == 0 {
        assert(s.skip(a) =~= s);
    } else if a == 0 {
        assert(s.skip(0) =~= s);
    } else {
        assert(is_ws(s[0]));
        assert(forall|j: int| 0 <= j < a - 1 ==> s.skip(1)[j] == s[j + 1] && is_ws(s[j + 1]));
        lemma_trim_start_skip(s.skip(1), a - 1);
        assert(s.skip(1).skip(a - 1) =~= s.skip(a));
    }
}

/// Dropping all trailing whitespace leaves the prefix up to the last
/// non-whitespace byte.
pub proof fn lemma_trim_end_take(s: Seq<u8>, e: int)
    requires
        0 <= e <= s.len(),
        forall|j: int| e <= j < s.len() ==> is_ws(s[j]),
        e > 0 ==> !is_ws(s[e - 1]),
    ensures
        trim_end_spec(s) == s.take(e),
    decreases s.len(),
{
    if s.len() == 0 {
        assert(s.take(e) =~= s);
    } else if e == s.len() {
        assert(s.take(e) =~= s);
    } else {
        assert(is_ws(s.last()));
        assert(forall|j: int|
            e <= j < s.drop_last().len() ==> s.drop_last()[j] == s[j] && is_ws(s[j]));
        lemma_trim_end_take(s.drop_last(), e);
        assert(s.drop_last().take(e) =~= s.take(e));
    }
}

/// A string that neither starts nor ends with whitespace trims to itself.
pub proof fn lemma_trim_fixed(s: Seq<u8>)
    requires
        s.len() > 0 ==> !is_ws(s[0]) && !is_ws(s.last()),
    ensures
        trim_spec(s) == s,
{
}

/// Trimming leaves no whitespace at either end.
pub proof fn lemma_trim_ends(s: Seq<u8>)
    ensures
        trim_spec(s).len() > 0 ==> !is_ws(trim_spec(s)[0]) && !is_ws(trim_spec(s).last()),
    decreases s.len(),
{
    lemma_trim_start_ends(s);
    lemma_trim_end_keep_head(trim_start_spec(s));
}

/// After dropping leading whitespace, the head is not whitespace.
pub proof fn lemma_trim_start_ends(s: Seq<u8>)
    ensures
        trim_start_spec(s).len() > 0 ==> !is_ws(trim_start_spec(s)[0]),
    decreases s.len(),
{
    if s.len() > 0 && is_ws(s[0]) {
        lemma_trim_start_ends(s.skip(1));
    }
}

/// Dropping trailing whitespace keeps the head and leaves no whitespace
/// at the tail.
pub proof fn lemma_trim_end_keep_head(s: Seq<u8>)
    ensures
        trim_end_spec(s).len() > 0 ==> !is_ws(trim_end_spec(s).last()),
        trim_end_spec(s).len() > 0 ==> trim_end_spec(s)[0] == s[0],
        s.len() > 0 && !is_ws(s[0]) ==> trim_end_spec(s).len() > 0 || s.len() == 0,
    decreases s.len(),
{
    if s.len() > 0 && is_ws(s.last()) {
        lemma_trim_end_keep_head(s.drop_last());
    }
}

/// Trim ASCII whitespace from both ends of a byte string.
pub fn trim_bytes(s: &Vec<u8>) -> (r: Vec<u8>)
    ensures
        r@ == trim_spec(s@),
{
    let mut a: usize = 0;
    while a < s.len() && is_ws_byte(s[a])
        invariant
            a <= s@.len(),
            forall|j: int| 0 <= j < a ==> is_ws(s@[j]),
        decreases s@.len() - a,
    {
        a = a + 1;
    }
    proof {
        lemma_trim_start_skip(s@, a as int);
    }
    let mut e: usize = s.len();
    while e > a && is_ws_byte(s[e - 1])
        invariant
            a <= e <= s@.len(),
            forall|j: int| e <= j < s@.len() ==> is_ws(s@[j]),
            trim_start_spec(s@) == s@.skip(a as int),
            forall|j: int| 0 <= j < a ==> is_ws(s@[j]),
            a < s@.len() ==> !is_ws(s@[a as int]),
        decreases e,
    {
        e = e - 1;
    }
    proof {
        assert(forall|j: int|
            e - a <= j < s@.skip(a as int).len() ==> s@.skip(a as int)[j] == s@[j + a] && is_ws(
                s@[j + a],
            ));
        if e > a {
            assert(!is_ws(s@.skip(a as int)[e - a - 1]));
        }
        lemma_trim_end_take(s@.skip(a as int), e - a);
    }
    let mut out: Vec<u8> = Vec::new();
    let mut i: usize = a;
    while i < e
        invariant
            a <= i <= e <= s@.len(),
            out@ =~= s@.subrange(a as int, i as int),
        decreases e - i,
    {
        out.push(s[i]);
        assert(out@ =~= s@.subrange(a as int, i + 1));
        i = i + 1;
    }
    proof {
        assert(s@.skip(a as int).take(e - a) =~= s@.subrange(a as int, e as int));
    }
    out
}

/// Copy a range of a byte string.
pub fn subvec(s: &Vec<u8>, a: usize, b: usize) -> (r: Vec<u8>)
    requires
        a <= b <= s@.len(),
    ensures
        r@ == s@.subrange(a as int, b as int),
{
    let mut out: Vec<u8> = Vec::new();
    let mut i: usize = a;
    while i < b
        invariant
            a <= i <= b <= s@.len(),
            out@ =~= s@.subrange(a as int, i as int),
        decreases b - i,
    {
        out.push(s[i]);
        assert(out@ =~= s@.subrange(a as int, i + 1));
        i = i + 1;
    }
    out
}

/// Append a copy of `src` to `dst`.
pub fn append_bytes(dst: &mut Vec<u8>, src: &Vec<u8>)
    ensures
        final(dst)@ == old(dst)@ + src@,
{
    let mut i: usize = 0;
    while i < src.len()
        invariant
            i <= src@.len(),
            dst@ =~= old(dst)@ + src@.take(i as int),
        decreases src@.len() - i,
    {
        dst.push(src[i]);
        assert(dst@ =~= old(dst)@ + src@.take(i + 1));
        i = i + 1;
    }
    assert(dst@ =~= old(dst)@ + src@);
}

/// Compare two byte strings for equality.
pub fn bytes_eq(a: &Vec<u8>, b: &Vec<u8>) -> (r: bool)
    ensures
        r == (a@ == b@),
{
    if a.len() != b.len() {
        return false;
    }
    let mut i: usize = 0;
    while i < a.len()
        invariant
            i <= a@.len(),
            a@.len() == b@.len(),
            forall|j: int| 0 <= j < i ==> a@[j] == b@[j],
        decreases a@.len() - i,
    {
        if a[i] != b[i] {
            return false;
        }
        i = i + 1;
    }
    assert(a@ =~= b@);
    true
}

/// The lines of `s`, split on the line separator; a trailing separator
/// yields a final empty line.
pub open spec fn line_split(s: Seq<u8>) -> Seq<Seq<u8>>
    decreases s.len(),
{
    let idx = find_byte_spec(s, NL);
    if idx == s.len() {
        seq![s]
    } else if 0 <= idx < s.len() {
        seq![s.take(idx)] + line_split(s.skip(idx + 1))
    } else {
        seq![s]
    }
}

/// The lines joined with the line separator.
pub open spec fn line_join(ls: Seq<Seq<u8>>) -> Seq<u8>
    decreases ls.len(),
{
    if ls.len() == 0 {
        Seq::empty()
    } else if ls.len() == 1 {
        ls[0]
    } else {
        ls[0] + seq![NL] + line_join(ls.skip(1))
    }
}

/// Every line produced by splitting is free of the separator.
pub proof fn lemma_line_split_nl_free(s: Seq<u8>)
    ensures
        forall|i: int|
            0 <= i < line_split(s).len() ==> !#[trigger] line_split(s)[i].contains(NL),
        line_split(s).len() >= 1,
    decreases s.len(),
{
    lemma_find_byte(s, NL);
    let idx = find_byte_spec(s, NL);
    if idx == s.len() {
        assert forall|i: int| 0 <= i < line_split(s).len() implies !#[trigger] line_split(
            s,
        )[i].contains(NL) by {
            assert(line_split(s)[i] == s);
            if s.contains(NL) {
                let j = choose|j: int| 0 <= j < s.len() && s[j] == NL;
                assert(false);
            }
        }
    } else {
        lemma_line_split_nl_free(s.skip(idx + 1));
        assert forall|i: int| 0 <= i < line_split(s).len() implies !#[trigger] line_split(
            s,
        )[i].contains(NL) by {
            if i == 0 {
                assert(line_split(s)[0] == s.take(idx));
                if s.take(idx).contains(NL) {
                    let j = choose|j: int| 0 <= j < idx && s.take(idx)[j] == NL;
                    assert(s[j] == NL);
                    assert(false);
                }
            } else {
                assert(line_split(s)[i] == line_split(s.skip(idx + 1))[i - 1]);
            }
        }
    }
}

/// Splitting a join of separator-free lines gives back the lines.
pub proof fn lemma_split_join(ls: Seq<Seq<u8>>)
    requires
        ls.len() >= 1,
        forall|i: int| 0 <= i < ls.len() ==> !#[trigger] ls[i].contains(NL),
    ensures
        line_split(line_join(ls)) == ls,
    decreases ls.len(),
{
    if ls.len() == 1 {
        let s = ls[0];
        assert(forall|j: int| 0 <= j < s.len() ==> s[j] != NL) by {
            assert(!ls[0].contains(NL));
            assert(forall|j: int| 0 <= j < s.len() && s[j] == NL ==> s.contains(NL));
        }
        lemma_find_byte_unique(s, NL, s.len() as int);
        assert(line_split(s) =~= seq![s]);
        assert(ls =~= seq![s]);
    } else {
        let s = line_join(ls);
        assert(s == ls[0] + seq![NL] + line_join(ls.skip(1)));
        assert(forall|j: int| 0 <= j < ls[0].len() ==> ls[0][j] != NL) by {
            assert(!ls[0].contains(NL));
            assert(forall|j: int| 0 <= j < ls[0].len() && ls[0][j] == NL ==> ls[0].contains(NL));
        }
        assert(forall|j: int| 0 <= j < ls[0].len() ==> s[j] == ls[0][j]);
        assert(s[ls[0].len() as int] == NL);
        lemma_find_byte_unique(s, NL, ls[0].len() as int);
        let idx = find_byte_spec(s, NL);
        assert(idx == ls[0].len());
        assert(s.take(idx) =~= ls[0]);
        assert(s.skip(idx + 1) =~= line_join(ls.skip(1)));
        assert(forall|i: int|
            0 <= i < ls.skip(1).len() ==> ls.skip(1)[i] == ls[i + 1] && !ls[i + 1].contains(NL));
        lemma_split_join(ls.skip(1));
        assert(line_split(s) =~= seq![ls[0]] + ls.skip(1));
        assert(seq![ls[0]] + ls.skip(1) =~= ls);
    }
}

/// Joining with one more line appends one separator and that line.
pub proof fn lemma_join_push(ls: Seq<Seq<u8>>, x: Seq<u8>)
    requires
        ls.len() >= 1,
    ensures
        line_join(ls.push(x)) == line_join(ls) + seq![NL] + x,
    decreases ls.len(),
{
    if ls.len() == 1 {
        let ls2 = ls.push(x);
        assert(ls2.len() == 2);
        assert(ls2[0] == ls[0]);
        assert(ls2.skip(1) =~= seq![x]);
        assert(line_join(ls2.skip(1)) == x);
        assert(line_join(ls2) == ls2[0] + seq![NL] + x);
    } else {
        lemma_join_push(ls.skip(1), x);
        assert(ls.push(x).skip(1) =~= ls.skip(1).push(x));
        assert(line_join(ls.push(x)) == ls[0] + seq![NL] + line_join(ls.skip(1).push(x)));
        assert(ls[0] + seq![NL] + (line_join(ls.skip(1)) + seq![NL] + x) =~= (ls[0] + seq![NL]
            + line_join(ls.skip(1))) + seq![NL] + x);
    }
}

/// The views of a vector of byte strings.
pub open spec fn views(ls: Seq<Vec<u8>>) -> Seq<Seq<u8>> {
    Seq::new(ls.len(), |i: int| ls[i]@)
}

/// A byte is absent from a sequence exactly when no position holds it.
pub proof fn lemma_absent_byte(s: Seq<u8>, b: u8)
    ensures
        !s.contains(b) <==> (forall|j: int| 0 <= j < s.len() ==> s[j] != b),
{
    if exists|i: int| 0 <= i < s.len() && s[i] == b {
        let i = choose|i: int| 0 <= i < s.len() && s[i] == b;
        assert(s.contains(b));
    }
    if s.contains(b) {
        let i = choose|i: int| 0 <= i < s.len() && s[i] == b;
        assert(s[i] == b);
    }
}

/// Dropping leading whitespace leaves a suffix of the string.
pub proof fn lemma_trim_start_is_suffix(s: Seq<u8>)
    ensures
        exists|k: int| 0 <= k <= s.len() && trim_start_spec(s) == s.skip(k),
    decreases s.len(),
{
    if s.len() > 0 && is_ws(s[0]) {
        lemma_trim_start_is_suffix(s.skip(1));
        let k = choose|k: int|
            0 <= k <= s.skip(1).len() && trim_start_spec(s.skip(1)) == s.skip(1).skip(k);
        assert(s.skip(1).skip(k) =~= s.skip(k + 1));
        assert(trim_start_spec(s) == s.skip(k + 1));
    } else {
        assert(s.skip(0) =~= s);
        assert(trim_start_spec(s) == s.skip(0));
    }
}

/// Dropping trailing whitespace leaves a prefix of the string.
pub proof fn lemma_trim_end_is_prefix(s: Seq<u8>)
    ensures
        exists|k: int| 0 <= k <= s.len() && trim_end_spec(s) == s.take(k),
    decreases s.len(),
{
    if s.len() > 0 && is_ws(s.last()) {
        lemma_trim_end_is_prefix(s.drop_last());
        let k = choose|k: int|
            0 <= k <= s.drop_last().len() && trim_end_spec(s.drop_last()) == s.drop_last().take(k);
        assert(s.drop_last().take(k) =~= s.take(k));
        assert(trim_end_spec(s) == s.take(k));
    } else {
        assert(s.take(s.len() as int) =~= s);
        assert(trim_end_spec(s) == s.take(s.len() as int));
    }
}

/// A byte absent from a string is absent from its trimmed form.
pub proof fn lemma_trim_keeps_absence(s: Seq<u8>, b: u8)
    requires
        !s.contains(b),
    ensures
        !trim_spec(s).contains(b),
{
    lemma_absent_byte(s, b);
    lemma_trim_start_is_suffix(s);
    let k1 = choose|k: int| 0 <= k <= s.len() && trim_start_spec(s) == s.skip(k);
    lemma_trim_end_is_prefix(trim_start_spec(s));
    let k2 = choose|k: int|
        0 <= k <= trim_start_spec(s).len() && trim_end_spec(trim_start_spec(s))
            == trim_start_spec(s).take(k);
    lemma_absent_byte(trim_spec(s), b);
    assert(forall|j: int|
        0 <= j < trim_spec(s).len() ==> trim_spec(s)[j] == s[j + k1] && s[j + k1] != b);
}

/// The bytes of an ASCII string literal.
pub fn bytes_of(s: &str) -> (r: Vec<u8>)
    ensures
        r@ == s.spec_bytes(),
{
    vstd::slice::slice_to_vec(s.as_bytes())
}

} // verus!
