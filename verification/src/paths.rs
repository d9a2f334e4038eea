//! A plain model of filesystem paths as byte strings with `/` separators:
//! joining, the final segment, and the parent. The pipeline only ever
//! builds paths from segments of this shape, so nothing subtler is needed.

use vstd::prelude::*;

verus! {

/// The path separator.
pub const SEP: u8 = 47;

/// True of a path that starts at the filesystem root.
pub open spec fn is_absolute_spec(p: Seq<u8>) -> bool {
    p.len() > 0 && p[0] == SEP
}

/// Whether a path starts at the filesystem root.
pub fn is_absolute(p: &Vec<u8>) -> (r: bool)
    ensures
        r == is_absolute_spec(p@),
{
    p.len() > 0 && p[0] == SEP
}

/// `base` extended by `rel`: an absolute `rel` replaces `base`, otherwise
/// the two are joined with one separator.
pub open spec fn path_join_spec(base: Seq<u8>, rel: Seq<u8>) -> Seq<u8> {
    if is_absolute_spec(rel) {
        rel
    } else if base.len() == 0 {
        rel
    } else if base.last() == SEP {
        base + rel
    } else {
        base + seq![SEP] + rel
    }
}

/// Join two paths.
pub fn path_join(base: &Vec<u8>, rel: &Vec<u8>) -> (r: Vec<u8>)
    ensures
        r@ == path_join_spec(base@, rel@),
{
    if is_absolute(rel) || base.len() == 0 {
        return crate::text::subvec(rel, 0, rel.len());
    }
    let mut out = crate::text::subvec(base, 0, base.len());
    if base[base.len() - 1] != SEP {
        out.push(SEP);
    }
    crate::text::append_bytes(&mut out, rel);
    proof {
        if base@.last() == SEP {
            assert(out@ =~= base@ + rel@);
        } else {
            assert(out@ =~= base@ + seq![SEP] + rel@);
        }
    }
    out
}

/// The index of the last separator in `p`, or `-1` when none occurs.
pub open spec fn last_sep_spec(p: Seq<u8>) -> int
    decreases p.len(),
{
    if p.len() == 0 {
        -1
    } else if p.last() == SEP {
        p.len() - 1
    } else {
        last_sep_spec(p.drop_last())
    }
}

/// What `last_sep_spec` yields: the last position holding a separator.
pub proof fn lemma_last_sep(p: Seq<u8>)
    ensures
        -1 <= last_sep_spec(p) < p.len(),
        last_sep_spec(p) >= 0 ==> p[last_sep_spec(p)] == SEP,
        forall|j: int| last_sep_spec(p) < j < p.len() ==> p[j] != SEP,
    decreases p.len(),
{
    if p.len() > 0 && p.last() != SEP {
        lemma_last_sep(p.drop_last());
        assert(forall|j: int|
            last_sep_spec(p) < j < p.len() - 1 ==> p[j] == p.drop_last()[j] && p[j] != SEP);
    }
}

/// The final path segment: everything after the last separator.
pub open spec fn file_name_spec(p: Seq<u8>) -> Seq<u8> {
    p.skip(last_sep_spec(p) + 1)
}

/// The parent path: everything before the last separator, or nothing when
/// the path is a single segment.
pub open spec fn parent_spec(p: Seq<u8>) -> Option<Seq<u8>> {
    if last_sep_spec(p) >= 0 {
        Some(p.take(last_sep_spec(p)))
    } else {
        None
    }
}

/// Find the index just past the last separator, scanning from the end.
fn seg_start(p: &Vec<u8>) -> (r: usize)
    ensures
        r == last_sep_spec(p@) + 1,
{
    let mut i: usize = p.len();
    while i > 0
        invariant
            i <= p@.len(),
            forall|j: int| i <= j < p@.len() ==> p@[j] != SEP,
        decreases i,
    {
        if p[i - 1] == SEP {
            proof {
                lemma_last_sep_unique(p@, i - 1);
            }
            return i;
        }
        i = i - 1;
    }
    proof {
        lemma_last_sep_unique_none(p@);
    }
    0
}

/// A separator with none after it sits at the last-separator index.
proof fn lemma_last_sep_unique(p: Seq<u8>, m: int)
    requires
        0 <= m < p.len(),
        p[m] == SEP,
        forall|j: int| m < j < p.len() ==> p[j] != SEP,
    ensures
        last_sep_spec(p) == m,
    decreases p.len(),
{
    if m == p.len() - 1 {
    } else {
        assert(p.last() != SEP);
        assert(forall|j: int| m < j < p.drop_last().len() ==> p.drop_last()[j] == p[j]);
        lemma_last_sep_unique(p.drop_last(), m);
    }
}

/// With no separator at all, the last-separator index is `-1`.
proof fn lemma_last_sep_unique_none(p: Seq<u8>)
    requires
        forall|j: int| 0 <= j < p.len() ==> p[j] != SEP,
    ensures
        last_sep_spec(p) == -1,
    decreases p.len(),
{
    if p.len() > 0 {
        assert(forall|j: int| 0 <= j < p.drop_last().len() ==> p.drop_last()[j] == p[j]);
        lemma_last_sep_unique_none(p.drop_last());
    }
}

/// The final path segment.
pub fn file_name(p: &Vec<u8>) -> (r: Vec<u8>)
    ensures
        r@ == file_name_spec(p@),
{
    proof {
        lemma_last_sep(p@);
    }
    let s = seg_start(p);
    crate::text::subvec(p, s, p.len())
}

/// The parent path, when the path has more than one segment.
pub fn parent(p: &Vec<u8>) -> (r: Option<Vec<u8>>)
    ensures
        match r {
            Some(q) => parent_spec(p@) == Some(q@),
            None => parent_spec(p@) is None,
        },
{
    proof {
        lemma_last_sep(p@);
    }
    let s = seg_start(p);
    if s == 0 {
        None
    } else {
        Some(crate::text::subvec(p, 0, s - 1))
    }
}

} // verus!
