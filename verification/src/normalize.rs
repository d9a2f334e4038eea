//! The output normalizer: a pure, deterministic rewrite of generated
//! binding text.
//!
//! Three steps run in order. Namespace-qualified standard-library path
//! prefixes are replaced by their freestanding-runtime equivalents, in one
//! left-to-right scan over the text. Each line that declares a public
//! constant has the declared identifier ASCII-uppercased, leaving its type
//! and value unchanged. Finally the text is made to end with exactly one
//! trailing line separator.

use vstd::prelude::*;

use crate::text::{
    occurs_at, match_at, find_byte_from, find_byte_spec, lemma_find_byte, lemma_find_byte_unique,
    lemma_occurs_skip, upper_seq, to_upper, trim_spec, trim_bytes, subvec, append_bytes,
    line_split, line_join, views, lemma_split_join, lemma_line_split_nl_free, lemma_join_push,
    lemma_trim_ends, lemma_trim_fixed, lemma_upper_seq_idempotent, upper_byte, is_ws, NL, COLON,
};

verus! {

/// How many source prefixes the rewriter recognises.
pub const PATTERN_COUNT: usize = 8;

/// The namespace-qualified source prefixes the rewriter recognises, by
/// index; each is listed in its doc line below as text.
pub open spec fn source_pattern(k: int) -> Seq<u8> {
    if k == 0 {  // `::std::mem::`
        seq![58u8, 58u8, 115u8, 116u8, 100u8, 58u8, 58u8, 109u8, 101u8, 109u8, 58u8, 58u8]
    } else if k == 1 {  // `::std::os::raw::`
        seq![58u8, 58u8, 115u8, 116u8, 100u8, 58u8, 58u8, 111u8, 115u8, 58u8, 58u8, 114u8, 97u8, 119u8, 58u8, 58u8]
    } else if k == 2 {  // `::std::option::`
        seq![58u8, 58u8, 115u8, 116u8, 100u8, 58u8, 58u8, 111u8, 112u8, 116u8, 105u8, 111u8, 110u8, 58u8, 58u8]
    } else if k == 3 {  // `::std::ptr::`
        seq![58u8, 58u8, 115u8, 116u8, 100u8, 58u8, 58u8, 112u8, 116u8, 114u8, 58u8, 58u8]
    } else if k == 4 {  // `:: std :: mem ::`
        seq![58u8, 58u8, 32u8, 115u8, 116u8, 100u8, 32u8, 58u8, 58u8, 32u8, 109u8, 101u8, 109u8, 32u8, 58u8, 58u8]
    } else if k == 5 {  // `:: std :: os :: raw ::`
        seq![58u8, 58u8, 32u8, 115u8, 116u8, 100u8, 32u8, 58u8, 58u8, 32u8, 111u8, 115u8, 32u8, 58u8, 58u8, 32u8, 114u8, 97u8, 119u8, 32u8, 58u8, 58u8]
    } else if k == 6 {  // `:: std :: option ::`
        seq![58u8, 58u8, 32u8, 115u8, 116u8, 100u8, 32u8, 58u8, 58u8, 32u8, 111u8, 112u8, 116u8, 105u8, 111u8, 110u8, 32u8, 58u8, 58u8]
    } else if k == 7 {  // `:: std :: ptr ::`
        seq![58u8, 58u8, 32u8, 115u8, 116u8, 100u8, 32u8, 58u8, 58u8, 32u8, 112u8, 116u8, 114u8, 32u8, 58u8, 58u8]
    } else {
        Seq::empty()
    }
}

/// The freestanding-runtime prefix that replaces each source prefix.
pub open spec fn target_pattern(k: int) -> Seq<u8> {
    if k == 0 {  // `::core::mem::`
        seq![58u8, 58u8, 99u8, 111u8, 114u8, 101u8, 58u8, 58u8, 109u8, 101u8, 109u8, 58u8, 58u8]
    } else if k == 1 {  // `::core::ffi::`
        seq![58u8, 58u8, 99u8, 111u8, 114u8, 101u8, 58u8, 58u8, 102u8, 102u8, 105u8, 58u8, 58u8]
    } else if k == 2 {  // `::core::option::`
        seq![58u8, 58u8, 99u8, 111u8, 114u8, 101u8, 58u8, 58u8, 111u8, 112u8, 116u8, 105u8, 111u8, 110u8, 58u8, 58u8]
    } else if k == 3 {  // `::core::ptr::`
        seq![58u8, 58u8, 99u8, 111u8, 114u8, 101u8, 58u8, 58u8, 112u8, 116u8, 114u8, 58u8, 58u8]
    } else if k == 4 {  // `:: core :: mem ::`
        seq![58u8, 58u8, 32u8, 99u8, 111u8, 114u8, 101u8, 32u8, 58u8, 58u8, 32u8, 109u8, 101u8, 109u8, 32u8, 58u8, 58u8]
    } else if k == 5 {  // `:: core :: ffi ::`
        seq![58u8, 58u8, 32u8, 99u8, 111u8, 114u8, 101u8, 32u8, 58u8, 58u8, 32u8, 102u8, 102u8, 105u8, 32u8, 58u8, 58u8]
    } else if k == 6 {  // `:: core :: option ::`
        seq![58u8, 58u8, 32u8, 99u8, 111u8, 114u8, 101u8, 32u8, 58u8, 58u8, 32u8, 111u8, 112u8, 116u8, 105u8, 111u8, 110u8, 32u8, 58u8, 58u8]
    } else if k == 7 {  // `:: core :: ptr ::`
        seq![58u8, 58u8, 32u8, 99u8, 111u8, 114u8, 101u8, 32u8, 58u8, 58u8, 32u8, 112u8, 116u8, 114u8, 32u8, 58u8, 58u8]
    } else {
        Seq::empty()
    }
}

/// Build the source prefix with index `k`.
pub fn source_pattern_vec(k: usize) -> (r: Vec<u8>)
    requires
        k < PATTERN_COUNT,
    ensures
        r@ == source_pattern(k as int),
{
    if k == 0 {
        let v: Vec<u8> = vec![58u8, 58u8, 115u8, 116u8, 100u8, 58u8, 58u8, 109u8, 101u8, 109u8, 58u8, 58u8];
        assert(v@ =~= source_pattern(0));
        v
    } else if k == 1 {
        let v: Vec<u8> = vec![58u8, 58u8, 115u8, 116u8, 100u8, 58u8, 58u8, 111u8, 115u8, 58u8, 58u8, 114u8, 97u8, 119u8, 58u8, 58u8];
        assert(v@ =~= source_pattern(1));
        v
    } else if k == 2 {
        let v: Vec<u8> = vec![58u8, 58u8, 115u8, 116u8, 100u8, 58u8, 58u8, 111u8, 112u8, 116u8, 105u8, 111u8, 110u8, 58u8, 58u8];
        assert(v@ =~= source_pattern(2));
        v
    } else if k == 3 {
        let v: Vec<u8> = vec![58u8, 58u8, 115u8, 116u8, 100u8, 58u8, 58u8, 112u8, 116u8, 114u8, 58u8, 58u8];
        assert(v@ =~= source_pattern(3));
        v
    } else if k == 4 {
        let v: Vec<u8> = vec![58u8, 58u8, 32u8, 115u8, 116u8, 100u8, 32u8, 58u8, 58u8, 32u8, 109u8, 101u8, 109u8, 32u8, 58u8, 58u8];
        assert(v@ =~= source_pattern(4));
        v
    } else if k == 5 {
        let v: Vec<u8> = vec![58u8, 58u8, 32u8, 115u8, 116u8, 100u8, 32u8, 58u8, 58u8, 32u8, 111u8, 115u8, 32u8, 58u8, 58u8, 32u8, 114u8, 97u8, 119u8, 32u8, 58u8, 58u8];
        assert(v@ =~= source_pattern(5));
        v
    } else if k == 6 {
        let v: Vec<u8> = vec![58u8, 58u8, 32u8, 115u8, 116u8, 100u8, 32u8, 58u8, 58u8, 32u8, 111u8, 112u8, 116u8, 105u8, 111u8, 110u8, 32u8, 58u8, 58u8];
        assert(v@ =~= source_pattern(6));
        v
    } else if k == 7 {
        let v: Vec<u8> = vec![58u8, 58u8, 32u8, 115u8, 116u8, 100u8, 32u8, 58u8, 58u8, 32u8, 112u8, 116u8, 114u8, 32u8, 58u8, 58u8];
        assert(v@ =~= source_pattern(7));
        v
    } else {
        let v: Vec<u8> = Vec::new();
        v
    }
}

/// Build the replacement prefix with index `k`.
pub fn target_pattern_vec(k: usize) -> (r: Vec<u8>)
    requires
        k < PATTERN_COUNT,
    ensures
        r@ == target_pattern(k as int),
{
    if k == 0 {
        let v: Vec<u8> = vec![58u8, 58u8, 99u8, 111u8, 114u8, 101u8, 58u8, 58u8, 109u8, 101u8, 109u8, 58u8, 58u8];
        assert(v@ =~= target_pattern(0));
        v
    } else if k == 1 {
        let v: Vec<u8> = vec![58u8, 58u8, 99u8, 111u8, 114u8, 101u8, 58u8, 58u8, 102u8, 102u8, 105u8, 58u8, 58u8];
        assert(v@ =~= target_pattern(1));
        v
    } else if k == 2 {
        let v: Vec<u8> = vec![58u8, 58u8, 99u8, 111u8, 114u8, 101u8, 58u8, 58u8, 111u8, 112u8, 116u8, 105u8, 111u8, 110u8, 58u8, 58u8];
        assert(v@ =~= target_pattern(2));
        v
    } else if k == 3 {
        let v: Vec<u8> = vec![58u8, 58u8, 99u8, 111u8, 114u8, 101u8, 58u8, 58u8, 112u8, 116u8, 114u8, 58u8, 58u8];
        assert(v@ =~= target_pattern(3));
        v
    } else if k == 4 {
        let v: Vec<u8> = vec![58u8, 58u8, 32u8, 99u8, 111u8, 114u8, 101u8, 32u8, 58u8, 58u8, 32u8, 109u8, 101u8, 109u8, 32u8, 58u8, 58u8];
        assert(v@ =~= target_pattern(4));
        v
    } else if k == 5 {
        let v: Vec<u8> = vec![58u8, 58u8, 32u8, 99u8, 111u8, 114u8, 101u8, 32u8, 58u8, 58u8, 32u8, 102u8, 102u8, 105u8, 32u8, 58u8, 58u8];
        assert(v@ =~= target_pattern(5));
        v
    } else if k == 6 {
        let v: Vec<u8> = vec![58u8, 58u8, 32u8, 99u8, 111u8, 114u8, 101u8, 32u8, 58u8, 58u8, 32u8, 111u8, 112u8, 116u8, 105u8, 111u8, 110u8, 32u8, 58u8, 58u8];
        assert(v@ =~= target_pattern(6));
        v
    } else if k == 7 {
        let v: Vec<u8> = vec![58u8, 58u8, 32u8, 99u8, 111u8, 114u8, 101u8, 32u8, 58u8, 58u8, 32u8, 112u8, 116u8, 114u8, 32u8, 58u8, 58u8];
        assert(v@ =~= target_pattern(7));
        v
    } else {
        let v: Vec<u8> = Vec::new();
        v
    }
}

/// Every recognised source prefix is non-empty.
pub proof fn lemma_source_pattern_nonempty(k: int)
    requires
        0 <= k < 8,
    ensures
        source_pattern(k).len() >= 1,
{
}

/// No recognised source prefix is a prefix of another, so at most one
/// of them can match at a given position.
pub proof fn lemma_source_patterns_not_prefix(k: int, m: int)
    requires
        0 <= k < 8,
        0 <= m < 8,
        k != m,
    ensures
        !source_pattern(k).is_prefix_of(source_pattern(m)),
{
    if source_pattern(k).len() > source_pattern(m).len() {
    }
    if k == 0 && m == 1 {
        assert(source_pattern(0)[7] != source_pattern(1)[7]);
        if source_pattern(0).is_prefix_of(source_pattern(1)) {
            assert(source_pattern(1).take(source_pattern(0).len() as int)[7] == source_pattern(1)[7]);
        }
    }
    if k == 0 && m == 2 {
        assert(source_pattern(0)[7] != source_pattern(2)[7]);
        if source_pattern(0).is_prefix_of(source_pattern(2)) {
            assert(source_pattern(2).take(source_pattern(0).len() as int)[7] == source_pattern(2)[7]);
        }
    }
    if k == 0 && m == 3 {
        assert(source_pattern(0)[7] != source_pattern(3)[7]);
        if source_pattern(0).is_prefix_of(source_pattern(3)) {
            assert(source_pattern(3).take(source_pattern(0).len() as int)[7] == source_pattern(3)[7]);
        }
    }
    if k == 0 && m == 4 {
        assert(source_pattern(0)[2] != source_pattern(4)[2]);
        if source_pattern(0).is_prefix_of(source_pattern(4)) {
            assert(source_pattern(4).take(source_pattern(0).len() as int)[2] == source_pattern(4)[2]);
        }
    }
    if k == 0 && m == 5 {
        assert(source_pattern(0)[2] != source_pattern(5)[2]);
        if source_pattern(0).is_prefix_of(source_pattern(5)) {
            assert(source_pattern(5).take(source_pattern(0).len() as int)[2] == source_pattern(5)[2]);
        }
    }
    if k == 0 && m == 6 {
        assert(source_pattern(0)[2] != source_pattern(6)[2]);
        if source_pattern(0).is_prefix_of(source_pattern(6)) {
            assert(source_pattern(6).take(source_pattern(0).len() as int)[2] == source_pattern(6)[2]);
        }
    }
    if k == 0 && m == 7 {
        assert(source_pattern(0)[2] != source_pattern(7)[2]);
        if source_pattern(0).is_prefix_of(source_pattern(7)) {
            assert(source_pattern(7).take(source_pattern(0).len() as int)[2] == source_pattern(7)[2]);
        }
    }
    if k == 1 && m == 4 {
        assert(source_pattern(1)[2] != source_pattern(4)[2]);
        if source_pattern(1).is_prefix_of(source_pattern(4)) {
            assert(source_pattern(4).take(source_pattern(1).len() as int)[2] == source_pattern(4)[2]);
        }
    }
    if k == 1 && m == 5 {
        assert(source_pattern(1)[2] != source_pattern(5)[2]);
        if source_pattern(1).is_prefix_of(source_pattern(5)) {
            assert(source_pattern(5).take(source_pattern(1).len() as int)[2] == source_pattern(5)[2]);
        }
    }
    if k == 1 && m == 6 {
        assert(source_pattern(1)[2] != source_pattern(6)[2]);
        if source_pattern(1).is_prefix_of(source_pattern(6)) {
            assert(source_pattern(6).take(source_pattern(1).len() as int)[2] == source_pattern(6)[2]);
        }
    }
    if k == 1 && m == 7 {
        assert(source_pattern(1)[2] != source_pattern(7)[2]);
        if source_pattern(1).is_prefix_of(source_pattern(7)) {
            assert(source_pattern(7).take(source_pattern(1).len() as int)[2] == source_pattern(7)[2]);
        }
    }
    if k == 2 && m == 1 {
        assert(source_pattern(2)[8] != source_pattern(1)[8]);
        if source_pattern(2).is_prefix_of(source_pattern(1)) {
            assert(source_pattern(1).take(source_pattern(2).len() as int)[8] == source_pattern(1)[8]);
        }
    }
    if k == 2 && m == 4 {
        assert(source_pattern(2)[2] != source_pattern(4)[2]);
        if source_pattern(2).is_prefix_of(source_pattern(4)) {
            assert(source_pattern(4).take(source_pattern(2).len() as int)[2] == source_pattern(4)[2]);
        }
    }
    if k == 2 && m == 5 {
        assert(source_pattern(2)[2] != source_pattern(5)[2]);
        if source_pattern(2).is_prefix_of(source_pattern(5)) {
            assert(source_pattern(5).take(source_pattern(2).len() as int)[2] == source_pattern(5)[2]);
        }
    }
    if k == 2 && m == 6 {
        assert(source_pattern(2)[2] != source_pattern(6)[2]);
        if source_pattern(2).is_prefix_of(source_pattern(6)) {
            assert(source_pattern(6).take(source_pattern(2).len() as int)[2] == source_pattern(6)[2]);
        }
    }
    if k == 2 && m == 7 {
        assert(source_pattern(2)[2] != source_pattern(7)[2]);
        if source_pattern(2).is_prefix_of(source_pattern(7)) {
            assert(source_pattern(7).take(source_pattern(2).len() as int)[2] == source_pattern(7)[2]);
        }
    }
    if k == 3 && m == 0 {
        assert(source_pattern(3)[7] != source_pattern(0)[7]);
        if source_pattern(3).is_prefix_of(source_pattern(0)) {
            assert(source_pattern(0).take(source_pattern(3).len() as int)[7] == source_pattern(0)[7]);
        }
    }
    if k == 3 && m == 1 {
        assert(source_pattern(3)[7] != source_pattern(1)[7]);
        if source_pattern(3).is_prefix_of(source_pattern(1)) {
            assert(source_pattern(1).take(source_pattern(3).len() as int)[7] == source_pattern(1)[7]);
        }
    }
    if k == 3 && m == 2 {
        assert(source_pattern(3)[7] != source_pattern(2)[7]);
        if source_pattern(3).is_prefix_of(source_pattern(2)) {
            assert(source_pattern(2).take(source_pattern(3).len() as int)[7] == source_pattern(2)[7]);
        }
    }
    if k == 3 && m == 4 {
        assert(source_pattern(3)[2] != source_pattern(4)[2]);
        if source_pattern(3).is_prefix_of(source_pattern(4)) {
            assert(source_pattern(4).take(source_pattern(3).len() as int)[2] == source_pattern(4)[2]);
        }
    }
    if k == 3 && m == 5 {
        assert(source_pattern(3)[2] != source_pattern(5)[2]);
        if source_pattern(3).is_prefix_of(source_pattern(5)) {
            assert(source_pattern(5).take(source_pattern(3).len() as int)[2] == source_pattern(5)[2]);
        }
    }
    if k == 3 && m == 6 {
        assert(source_pattern(3)[2] != source_pattern(6)[2]);
        if source_pattern(3).is_prefix_of(source_pattern(6)) {
            assert(source_pattern(6).take(source_pattern(3).len() as int)[2] == source_pattern(6)[2]);
        }
    }
    if k == 3 && m == 7 {
        assert(source_pattern(3)[2] != source_pattern(7)[2]);
        if source_pattern(3).is_prefix_of(source_pattern(7)) {
            assert(source_pattern(7).take(source_pattern(3).len() as int)[2] == source_pattern(7)[2]);
        }
    }
    if k == 4 && m == 1 {
        assert(source_pattern(4)[2] != source_pattern(1)[2]);
        if source_pattern(4).is_prefix_of(source_pattern(1)) {
            assert(source_pattern(1).take(source_pattern(4).len() as int)[2] == source_pattern(1)[2]);
        }
    }
    if k == 4 && m == 5 {
        assert(source_pattern(4)[10] != source_pattern(5)[10]);
        if source_pattern(4).is_prefix_of(source_pattern(5)) {
            assert(source_pattern(5).take(source_pattern(4).len() as int)[10] == source_pattern(5)[10]);
        }
    }
    if k == 4 && m == 6 {
        assert(source_pattern(4)[10] != source_pattern(6)[10]);
        if source_pattern(4).is_prefix_of(source_pattern(6)) {
            assert(source_pattern(6).take(source_pattern(4).len() as int)[10] == source_pattern(6)[10]);
        }
    }
    if k == 4 && m == 7 {
        assert(source_pattern(4)[10] != source_pattern(7)[10]);
        if source_pattern(4).is_prefix_of(source_pattern(7)) {
            assert(source_pattern(7).take(source_pattern(4).len() as int)[10] == source_pattern(7)[10]);
        }
    }
    if k == 6 && m == 5 {
        assert(source_pattern(6)[11] != source_pattern(5)[11]);
        if source_pattern(6).is_prefix_of(source_pattern(5)) {
            assert(source_pattern(5).take(source_pattern(6).len() as int)[11] == source_pattern(5)[11]);
        }
    }
    if k == 7 && m == 1 {
        assert(source_pattern(7)[2] != source_pattern(1)[2]);
        if source_pattern(7).is_prefix_of(source_pattern(1)) {
            assert(source_pattern(1).take(source_pattern(7).len() as int)[2] == source_pattern(1)[2]);
        }
    }
    if k == 7 && m == 4 {
        assert(source_pattern(7)[10] != source_pattern(4)[10]);
        if source_pattern(7).is_prefix_of(source_pattern(4)) {
            assert(source_pattern(4).take(source_pattern(7).len() as int)[10] == source_pattern(4)[10]);
        }
    }
    if k == 7 && m == 5 {
        assert(source_pattern(7)[10] != source_pattern(5)[10]);
        if source_pattern(7).is_prefix_of(source_pattern(5)) {
            assert(source_pattern(5).take(source_pattern(7).len() as int)[10] == source_pattern(5)[10]);
        }
    }
    if k == 7 && m == 6 {
        assert(source_pattern(7)[10] != source_pattern(6)[10]);
        if source_pattern(7).is_prefix_of(source_pattern(6)) {
            assert(source_pattern(6).take(source_pattern(7).len() as int)[10] == source_pattern(6)[10]);
        }
    }
}

/// The prefix of a public-constant declaration line: `pub const `.
pub open spec fn pub_const_prefix() -> Seq<u8> {
    seq![112u8, 117u8, 98u8, 32u8, 99u8, 111u8, 110u8, 115u8, 116u8, 32u8]
}

/// Build the public-constant declaration prefix.
pub fn pub_const_prefix_vec() -> (r: Vec<u8>)
    ensures
        r@ == pub_const_prefix(),
{
    let v: Vec<u8> = vec![112u8, 117u8, 98u8, 32u8, 99u8, 111u8, 110u8, 115u8, 116u8, 32u8];
    assert(v@ =~= pub_const_prefix());
    v
}

/// The first recognised source prefix, at or after index `k` in the fixed
/// order, that occurs at the start of `s`.
pub open spec fn first_source_match_from(s: Seq<u8>, k: int) -> Option<int>
    decreases 8 - k,
{
    if k < 0 || k >= 8 {
        None
    } else if occurs_at(s, source_pattern(k), 0) {
        Some(k)
    } else {
        first_source_match_from(s, k + 1)
    }
}

/// The first recognised source prefix that occurs at the start of `s`.
pub open spec fn first_source_match(s: Seq<u8>) -> Option<int> {
    first_source_match_from(s, 0)
}

/// When no source prefix in the remaining order matches, the search yields
/// none.
pub proof fn lemma_first_match_none(s: Seq<u8>, k: int)
    requires
        0 <= k <= 8,
        forall|m: int| k <= m < 8 ==> !occurs_at(s, source_pattern(m), 0),
    ensures
        first_source_match_from(s, k) is None,
    decreases 8 - k,
{
    if k < 8 {
        lemma_first_match_none(s, k + 1);
    }
}

/// When prefix `k` matches and no earlier one does, the search yields `k`.
pub proof fn lemma_first_match_some(s: Seq<u8>, j: int, k: int)
    requires
        0 <= j <= k < 8,
        occurs_at(s, source_pattern(k), 0),
        forall|m: int| j <= m < k ==> !occurs_at(s, source_pattern(m), 0),
    ensures
        first_source_match_from(s, j) == Some(k),
    decreases 8 - j,
{
    if j < k {
        lemma_first_match_some(s, j + 1, k);
    }
}

/// The prefix-rewritten form of `s`: scanning left to right, each
/// occurrence of a recognised source prefix is replaced by its
/// freestanding-runtime equivalent and the scan continues after it; every
/// other byte is kept.
pub open spec fn rewrite(s: Seq<u8>) -> Seq<u8>
    decreases s.len(),
{
    if s.len() == 0 {
        Seq::empty()
    } else {
        match first_source_match(s) {
            Some(k) => {
                let l = source_pattern(k).len() as int;
                if 1 <= l <= s.len() {
                    target_pattern(k) + rewrite(s.skip(l))
                } else {
                    s
                }
            },
            None => s.take(1) + rewrite(s.skip(1)),
        }
    }
}

/// Find the first recognised source prefix occurring at index `i` of `s`.
fn source_match_at(s: &Vec<u8>, i: usize) -> (r: Option<usize>)
    requires
        i <= s@.len(),
    ensures
        match r {
            Some(k) => k < 8 && first_source_match(s@.skip(i as int)) == Some(k as int)
                && occurs_at(s@.skip(i as int), source_pattern(k as int), 0),
            None => first_source_match(s@.skip(i as int)) is None,
        },
{
    let mut k: usize = 0;
    while k < PATTERN_COUNT
        invariant
            k <= PATTERN_COUNT,
            i <= s@.len(),
            forall|m: int| 0 <= m < k ==> !occurs_at(s@, source_pattern(m), i as int),
        decreases 8 - k,
    {
        let pat = source_pattern_vec(k);
        if match_at(s, &pat, i) {
            proof {
                assert forall|m: int| 0 <= m < k implies !occurs_at(
                    s@.skip(i as int),
                    source_pattern(m),
                    0,
                ) by {
                    lemma_occurs_skip(s@, source_pattern(m), i as int, 0);
                }
                lemma_occurs_skip(s@, source_pattern(k as int), i as int, 0);
                lemma_first_match_some(s@.skip(i as int), 0, k as int);
            }
            return Some(k);
        }
        k = k + 1;
    }
    proof {
        assert forall|m: int| 0 <= m < 8 implies !occurs_at(
            s@.skip(i as int),
            source_pattern(m),
            0,
        ) by {
            lemma_occurs_skip(s@, source_pattern(m), i as int, 0);
        }
        lemma_first_match_none(s@.skip(i as int), 0);
    }
    None
}

/// Rewrite every recognised source prefix in `s` to its
/// freestanding-runtime equivalent, in one left-to-right scan.
pub fn rewrite_prefixes(s: &Vec<u8>) -> (r: Vec<u8>)
    ensures
        r@ == rewrite(s@),
{
    let n = s.len();
    let mut out: Vec<u8> = Vec::new();
    let mut i: usize = 0;
    proof {
        assert(s@.skip(0) =~= s@);
    }
    while i < n
        invariant
            i <= n,
            n == s@.len(),
            rewrite(s@) =~= out@ + rewrite(s@.skip(i as int)),
        decreases n - i,
    {
        match source_match_at(s, i) {
            Some(k) => {
                let pat = source_pattern_vec(k);
                let tgt = target_pattern_vec(k);
                proof {
                    lemma_source_pattern_nonempty(k as int);
                    let u = s@.skip(i as int);
                    let l = source_pattern(k as int).len() as int;
                    assert(occurs_at(u, source_pattern(k as int), 0));
                    assert(1 <= l <= u.len());
                    assert(rewrite(u) == target_pattern(k as int) + rewrite(u.skip(l)));
                    assert(u.skip(l) =~= s@.skip(i + l));
                    assert(out@ + rewrite(u) =~= (out@ + target_pattern(k as int)) + rewrite(
                        s@.skip(i + l),
                    ));
                }
                append_bytes(&mut out, &tgt);
                i = i + pat.len();
            },
            None => {
                proof {
                    assert(s@.skip(i as int).take(1) =~= seq![s@[i as int]]);
                    assert(s@.skip(i as int).skip(1) =~= s@.skip(i + 1));
                    assert(out@ + rewrite(s@.skip(i as int)) =~= out@.push(s@[i as int]) + rewrite(
                        s@.skip(i + 1),
                    ));
                }
                let b = s[i];
                out.push(b);
                i = i + 1;
            },
        }
    }
    proof {
        assert(s@.skip(n as int) =~= Seq::<u8>::empty());
        assert(out@ + rewrite(s@.skip(n as int)) =~= out@);
    }
    out
}

/// The constant-uppercasing transform of one line. A line of the shape
/// `pub const NAME: tail` becomes `pub const TRIMMED_UPPER_NAME: tail`,
/// where the declared identifier is trimmed of surrounding whitespace and
/// ASCII-uppercased; every other line is kept byte for byte.
pub open spec fn const_line(l: Seq<u8>) -> Seq<u8> {
    let p = pub_const_prefix();
    if l.len() >= p.len() && l.take(p.len() as int) == p {
        let rest = l.skip(p.len() as int);
        let c = find_byte_spec(rest, COLON);
        if c < rest.len() {
            p + upper_seq(trim_spec(rest.take(c))) + rest.skip(c)
        } else {
            l
        }
    } else {
        l
    }
}

/// Apply the constant-uppercasing transform to one line.
pub fn uppercase_const_line(l: &Vec<u8>) -> (r: Vec<u8>)
    ensures
        r@ == const_line(l@),
{
    let p = pub_const_prefix_vec();
    proof {
        assert(l@.len() >= p@.len() && occurs_at(l@, p@, 0) ==> l@.take(p@.len() as int) == l@.subrange(0, p@.len() as int));
        assert(l@.take(p@.len() as int) =~= l@.subrange(0, p@.len() as int));
    }
    if l.len() < p.len() || !match_at(l, &p, 0) {
        return subvec(l, 0, l.len());
    }
    let plen = p.len();
    match find_byte_from(l, COLON, plen) {
        None => {
            proof {
                lemma_find_byte(l@.skip(plen as int), COLON);
            }
            subvec(l, 0, l.len())
        },
        Some(c) => {
            proof {
                assert(l@.skip(plen as int).take(c - plen) =~= l@.subrange(plen as int, c as int));
                assert(l@.skip(plen as int).skip(c - plen) =~= l@.subrange(c as int, l@.len() as int));
            }
            let name = subvec(l, plen, c);
            let trimmed = trim_bytes(&name);
            let upper = to_upper(&trimmed);
            let mut out = subvec(l, 0, plen);
            append_bytes(&mut out, &upper);
            let tail = subvec(l, c, l.len());
            append_bytes(&mut out, &tail);
            proof {
                assert(l@.subrange(0, plen as int) =~= pub_const_prefix());
                assert(out@ =~= pub_const_prefix() + upper_seq(trim_spec(l@.subrange(plen as int, c as int))) + l@.subrange(c as int, l@.len() as int));
            }
            out
        },
    }
}

/// The constant-uppercasing transform applied to every line.
pub open spec fn map_const_lines(ls: Seq<Seq<u8>>) -> Seq<Seq<u8>> {
    ls.map_values(|l: Seq<u8>| const_line(l))
}

/// The lines without their trailing run of empty lines.
pub open spec fn drop_trailing_empties(ls: Seq<Seq<u8>>) -> Seq<Seq<u8>>
    decreases ls.len(),
{
    if ls.len() > 0 && ls.last().len() == 0 {
        drop_trailing_empties(ls.drop_last())
    } else {
        ls
    }
}

/// Dropping trailing empty lines keeps a prefix of the lines, and what
/// remains ends in a non-empty line, when anything remains.
pub proof fn lemma_dte_props(ls: Seq<Seq<u8>>)
    ensures
        drop_trailing_empties(ls).len() <= ls.len(),
        drop_trailing_empties(ls) == ls.take(drop_trailing_empties(ls).len() as int),
        drop_trailing_empties(ls).len() > 0 ==> drop_trailing_empties(ls).last().len() > 0,
    decreases ls.len(),
{
    if ls.len() > 0 && ls.last().len() == 0 {
        lemma_dte_props(ls.drop_last());
        assert(ls.drop_last().take(drop_trailing_empties(ls).len() as int) =~= ls.take(
            drop_trailing_empties(ls).len() as int,
        ));
    } else {
        assert(ls.take(ls.len() as int) =~= ls);
    }
}

/// The fully normalized form of generated binding text: prefixes
/// rewritten, constant lines uppercased, and the result ending in exactly
/// one line separator.
pub open spec fn normalize_spec(s: Seq<u8>) -> Seq<u8> {
    line_join(drop_trailing_empties(map_const_lines(line_split(rewrite(s))))) + seq![NL]
}

/// Split text into its lines.
pub fn split_lines(t: &Vec<u8>) -> (ls: Vec<Vec<u8>>)
    ensures
        views(ls@) == line_split(t@),
{
    let n = t.len();
    let mut out: Vec<Vec<u8>> = Vec::new();
    let mut cur: Vec<u8> = Vec::new();
    let mut i: usize = 0;
    proof {
        assert(cur@ =~= t@.subrange(0, 0));
        assert(t@.skip(0) =~= t@);
        assert(views(out@) =~= Seq::<Seq<u8>>::empty());
        assert(views(out@) + line_split(t@) =~= line_split(t@));
    }
    while i < n
        invariant
            i <= n,
            n == t@.len(),
            cur@.len() <= i,
            cur@ =~= t@.subrange(i - cur@.len(), i as int),
            forall|j: int| 0 <= j < cur@.len() ==> cur@[j] != NL,
            line_split(t@) =~= views(out@) + line_split(t@.skip(i - cur@.len())),
        decreases n - i,
    {
        let b = t[i];
        if b == NL {
            proof {
                let start = i - cur@.len();
                let u = t@.skip(start);
                assert(forall|j: int| 0 <= j < cur@.len() ==> u[j] == cur@[j] && u[j] != NL);
                assert(u[cur@.len() as int] == NL);
                lemma_find_byte_unique(u, NL, cur@.len() as int);
                assert(u.take(cur@.len() as int) =~= cur@);
                assert(u.skip(cur@.len() + 1int) =~= t@.skip(i + 1));
                assert(line_split(u) == seq![cur@] + line_split(t@.skip(i + 1)));
                assert(views(out@.push(cur)) =~= views(out@).push(cur@));
                assert(views(out@) + (seq![cur@] + line_split(t@.skip(i + 1))) =~= views(
                    out@.push(cur),
                ) + line_split(t@.skip(i + 1)));
            }
            out.push(cur);
            cur = Vec::new();
            proof {
                assert(cur@ =~= t@.subrange(i + 1, i + 1));
            }
        } else {
            cur.push(b);
            proof {
                assert(cur@ =~= t@.subrange(i + 1 - cur@.len(), i + 1));
            }
        }
        i = i + 1;
    }
    proof {
        let start = i - cur@.len();
        let u = t@.skip(start);
        assert(forall|j: int| 0 <= j < cur@.len() ==> u[j] == cur@[j] && u[j] != NL);
        lemma_find_byte_unique(u, NL, cur@.len() as int);
        assert(u =~= cur@);
        assert(line_split(u) == seq![cur@]);
        assert(views(out@.push(cur)) =~= views(out@) + seq![cur@]);
    }
    out.push(cur);
    out
}

/// Normalize generated binding text: rewrite the recognised source
/// prefixes, uppercase the declared name of every public-constant line,
/// and end the result with exactly one line separator.
pub fn normalize_bindings(s: &Vec<u8>) -> (r: Vec<u8>)
    ensures
        r@ == normalize_spec(s@),
{
    let t = rewrite_prefixes(s);
    let lines = split_lines(&t);
    let ghost ls = line_split(rewrite(s@));
    let mut mapped: Vec<Vec<u8>> = Vec::new();
    let mut i: usize = 0;
    while i < lines.len()
        invariant
            i <= lines@.len(),
            views(lines@) == ls,
            views(mapped@) =~= map_const_lines(ls).take(i as int),
        decreases lines@.len() - i,
    {
        let m = uppercase_const_line(&lines[i]);
        proof {
            assert(views(mapped@.push(m)) =~= views(mapped@).push(m@));
            assert(m@ == const_line(ls[i as int]));
            assert(views(mapped@).push(m@) =~= map_const_lines(ls).take(i + 1));
        }
        mapped.push(m);
        i = i + 1;
    }
    proof {
        assert(views(mapped@) =~= map_const_lines(ls));
    }
    let ghost ms = map_const_lines(ls);
    while mapped.len() > 0 && mapped[mapped.len() - 1].len() == 0
        invariant
            drop_trailing_empties(ms) == drop_trailing_empties(views(mapped@)),
        decreases mapped@.len(),
    {
        proof {
            assert(views(mapped@).last().len() == 0);
            assert(views(mapped@.drop_last()) =~= views(mapped@).drop_last());
        }
        mapped.pop();
    }
    proof {
        if views(mapped@).len() > 0 {
            assert(views(mapped@).last().len() > 0);
        }
        assert(drop_trailing_empties(views(mapped@)) == views(mapped@));
        assert(views(mapped@) == drop_trailing_empties(ms));
    }
    let ghost ds = drop_trailing_empties(ms);
    let mut out: Vec<u8> = Vec::new();
    if mapped.len() > 0 {
        append_bytes(&mut out, &mapped[0]);
        proof {
            assert(views(mapped@).take(1) =~= seq![views(mapped@)[0]]);
            assert(out@ =~= line_join(views(mapped@).take(1)));
        }
        let mut j: usize = 1;
        while j < mapped.len()
            invariant
                1 <= j <= mapped@.len(),
                views(mapped@) == ds,
                out@ =~= line_join(views(mapped@).take(j as int)),
            decreases mapped@.len() - j,
        {
            out.push(NL);
            append_bytes(&mut out, &mapped[j]);
            proof {
                lemma_join_push(views(mapped@).take(j as int), views(mapped@)[j as int]);
                assert(views(mapped@).take(j + 1) =~= views(mapped@).take(j as int).push(
                    views(mapped@)[j as int],
                ));
            }
            j = j + 1;
        }
        proof {
            assert(views(mapped@).take(mapped@.len() as int) =~= views(mapped@));
        }
    } else {
        proof {
            assert(ds.len() == 0);
            assert(line_join(ds) =~= Seq::<u8>::empty());
        }
    }
    out.push(NL);
    proof {
        assert(out@ =~= line_join(ds) + seq![NL]);
    }
    out
}

/// True when no recognised source prefix occurs anywhere in `t`.
pub open spec fn free_of_source_prefixes(t: Seq<u8>) -> bool {
    forall|k: int, i: int| 0 <= k < 8 ==> !occurs_at(t, source_pattern(k), i)
}

/// Law: text in which no recognised source prefix occurs is left untouched
/// by the prefix rewriter.
pub proof fn lemma_rewrite_untouched(t: Seq<u8>)
    requires
        free_of_source_prefixes(t),
    ensures
        rewrite(t) == t,
    decreases t.len(),
{
    if t.len() == 0 {
        assert(rewrite(t) =~= t);
    } else {
        assert(forall|m: int| 0 <= m < 8 ==> !occurs_at(t, source_pattern(m), 0));
        lemma_first_match_none(t, 0);
        assert forall|k: int, i: int| 0 <= k < 8 implies !occurs_at(
            t.skip(1),
            source_pattern(k),
            i,
        ) by {
            if 0 <= i {
                lemma_occurs_skip(t, source_pattern(k), 1, i);
            }
        }
        lemma_rewrite_untouched(t.skip(1));
        assert(rewrite(t) == t.take(1) + t.skip(1));
        assert(t.take(1) + t.skip(1) =~= t);
    }
}

/// Law: when exactly one recognised source prefix occurs before the rest
/// of the text, the rewriter replaces it with its corresponding
/// freestanding-runtime prefix and leaves the surrounding text untouched.
///
/// `a` is the text before the occurrence; no prefix may occur starting
/// inside `a`, so that the named occurrence is the first one.
pub proof fn lemma_rewrite_single_occurrence(a: Seq<u8>, k: int, b: Seq<u8>)
    requires
        0 <= k < 8,
        forall|m: int, j: int|
            0 <= m < 8 && 0 <= j < a.len() ==> !occurs_at(
                a + source_pattern(k) + b,
                source_pattern(m),
                j,
            ),
    ensures
        rewrite(a + source_pattern(k) + b) == a + target_pattern(k) + rewrite(b),
    decreases a.len(),
{
    let s = a + source_pattern(k) + b;
    let pk = source_pattern(k);
    lemma_source_pattern_nonempty(k);
    if a.len() == 0 {
        assert(s =~= pk + b);
        assert(s.subrange(0, pk.len() as int) =~= pk);
        assert(occurs_at(s, pk, 0));
        assert forall|m: int| 0 <= m < k implies !occurs_at(s, source_pattern(m), 0) by {
            if occurs_at(s, source_pattern(m), 0) {
                let pm = source_pattern(m);
                if pm.len() <= pk.len() {
                    lemma_source_patterns_not_prefix(m, k);
                    assert(pk.take(pm.len() as int) =~= s.subrange(0, pm.len() as int));
                    assert(pm.is_prefix_of(pk));
                } else {
                    lemma_source_patterns_not_prefix(k, m);
                    assert(pm.take(pk.len() as int) =~= s.subrange(0, pk.len() as int));
                    assert(pk.is_prefix_of(pm));
                }
            }
        }
        lemma_first_match_some(s, 0, k);
        assert(rewrite(s) == target_pattern(k) + rewrite(s.skip(pk.len() as int)));
        assert(s.skip(pk.len() as int) =~= b);
        assert(target_pattern(k) + rewrite(b) =~= a + target_pattern(k) + rewrite(b));
    } else {
        assert(forall|m: int| 0 <= m < 8 ==> !occurs_at(s, source_pattern(m), 0));
        lemma_first_match_none(s, 0);
        assert(rewrite(s) == s.take(1) + rewrite(s.skip(1)));
        let a2 = a.skip(1);
        assert(s.skip(1) =~= a2 + pk + b);
        assert forall|m: int, j: int|
            0 <= m < 8 && 0 <= j < a2.len() implies !occurs_at(
            a2 + pk + b,
            source_pattern(m),
            j,
        ) by {
            lemma_occurs_skip(s, source_pattern(m), 1, j);
        }
        lemma_rewrite_single_occurrence(a2, k, b);
        assert(s.take(1) + (a2 + target_pattern(k) + rewrite(b)) =~= a + target_pattern(k)
            + rewrite(b));
    }
}

/// Law: a line of the exact public-constant shape has its declared name
/// trimmed and ASCII-uppercased, while its type and value, everything
/// after the first colon, stay untouched.
pub proof fn lemma_const_line_rewrites(name: Seq<u8>, tail: Seq<u8>)
    requires
        !name.contains(COLON),
    ensures
        const_line(pub_const_prefix() + name + seq![COLON] + tail) == pub_const_prefix()
            + upper_seq(trim_spec(name)) + seq![COLON] + tail,
{
    let p = pub_const_prefix();
    let l = p + name + seq![COLON] + tail;
    assert(l.take(p.len() as int) =~= p);
    let rest = l.skip(p.len() as int);
    assert(rest =~= name + seq![COLON] + tail);
    crate::text::lemma_absent_byte(name, COLON);
    assert(forall|j: int| 0 <= j < name.len() ==> rest[j] == name[j] && name[j] != COLON);
    assert(rest[name.len() as int] == COLON);
    lemma_find_byte_unique(rest, COLON, name.len() as int);
    assert(rest.take(name.len() as int) =~= name);
    assert(rest.skip(name.len() as int) =~= seq![COLON] + tail);
    assert(const_line(l) == p + upper_seq(trim_spec(name)) + (seq![COLON] + tail));
    assert(p + upper_seq(trim_spec(name)) + (seq![COLON] + tail) =~= p + upper_seq(
        trim_spec(name),
    ) + seq![COLON] + tail);
}

/// Law: a line that does not start with the public-constant prefix, or
/// holds no colon after it, stays byte for byte.
pub proof fn lemma_const_line_other(l: Seq<u8>)
    requires
        l.len() < pub_const_prefix().len() || l.take(pub_const_prefix().len() as int)
            != pub_const_prefix() || find_byte_spec(l.skip(pub_const_prefix().len() as int), COLON)
            == l.len() - pub_const_prefix().len(),
    ensures
        const_line(l) == l,
{
}

/// Uppercasing a byte keeps its whitespace class and cannot produce a
/// colon or a line separator from anything else.
proof fn lemma_upper_byte_classes(b: u8)
    ensures
        is_ws(upper_byte(b)) == is_ws(b),
        upper_byte(b) == COLON ==> b == COLON,
        upper_byte(b) == NL ==> b == NL,
{
}

/// The constant-uppercasing transform is idempotent on every line.
pub proof fn lemma_const_line_idempotent(l: Seq<u8>)
    ensures
        const_line(const_line(l)) == const_line(l),
{
    let p = pub_const_prefix();
    if l.len() >= p.len() && l.take(p.len() as int) == p {
        let rest = l.skip(p.len() as int);
        lemma_find_byte(rest, COLON);
        let c = find_byte_spec(rest, COLON);
        if c < rest.len() {
            let name = rest.take(c);
            let t = trim_spec(name);
            let u = upper_seq(t);
            let o = p + u + rest.skip(c);
            assert(const_line(l) == o);
            crate::text::lemma_absent_byte(name, COLON);
            assert(!name.contains(COLON)) by {
                assert(forall|j: int| 0 <= j < name.len() ==> name[j] == rest[j] && rest[j] != COLON);
            }
            crate::text::lemma_trim_keeps_absence(name, COLON);
            crate::text::lemma_absent_byte(t, COLON);
            assert(forall|j: int| 0 <= j < u.len() ==> u[j] == upper_byte(t[j]));
            assert forall|j: int| 0 <= j < u.len() implies u[j] != COLON by {
                lemma_upper_byte_classes(t[j]);
            }
            assert(o.len() >= p.len());
            assert(o.take(p.len() as int) =~= p);
            let rest2 = o.skip(p.len() as int);
            assert(rest2 =~= u + rest.skip(c));
            assert(forall|j: int| 0 <= j < u.len() ==> rest2[j] == u[j] && u[j] != COLON);
            assert(rest2[u.len() as int] == rest[c]);
            assert(rest[c] == COLON);
            lemma_find_byte_unique(rest2, COLON, u.len() as int);
            assert(rest2.take(u.len() as int) =~= u);
            assert(rest2.skip(u.len() as int) =~= rest.skip(c));
            assert(const_line(o) == p + upper_seq(trim_spec(u)) + rest.skip(c));
            lemma_trim_ends(name);
            assert forall|j: int| 0 <= j < u.len() implies is_ws(u[j]) == is_ws(t[j]) by {
                lemma_upper_byte_classes(t[j]);
            }
            if u.len() > 0 {
                assert(!is_ws(t[0]) && !is_ws(t.last()));
                assert(!is_ws(u[0]) && !is_ws(u.last()));
            }
            lemma_trim_fixed(u);
            lemma_upper_seq_idempotent(t);
            assert(const_line(o) == o);
        }
    }
}

/// The constant-uppercasing transform keeps a line free of the line
/// separator.
pub proof fn lemma_const_line_nl_free(l: Seq<u8>)
    requires
        !l.contains(NL),
    ensures
        !const_line(l).contains(NL),
{
    let p = pub_const_prefix();
    crate::text::lemma_absent_byte(l, NL);
    if l.len() >= p.len() && l.take(p.len() as int) == p {
        let rest = l.skip(p.len() as int);
        lemma_find_byte(rest, COLON);
        let c = find_byte_spec(rest, COLON);
        if c < rest.len() {
            let name = rest.take(c);
            let t = trim_spec(name);
            let u = upper_seq(t);
            let o = p + u + rest.skip(c);
            assert(!name.contains(NL)) by {
                crate::text::lemma_absent_byte(name, NL);
                assert(forall|j: int|
                    0 <= j < name.len() ==> name[j] == l[j + p.len()] && l[j + p.len()] != NL);
            }
            crate::text::lemma_trim_keeps_absence(name, NL);
            crate::text::lemma_absent_byte(t, NL);
            assert forall|j: int| 0 <= j < o.len() implies o[j] != NL by {
                if j < p.len() {
                    assert(o[j] == p[j]);
                } else if j < p.len() + u.len() {
                    assert(o[j] == upper_byte(t[j - p.len()]));
                    lemma_upper_byte_classes(t[j - p.len()]);
                } else {
                    assert(o[j] == rest[j - p.len() - u.len() + c]);
                    assert(rest[j - p.len() - u.len() + c] == l[j - u.len() + c]);
                }
            }
            crate::text::lemma_absent_byte(o, NL);
        }
    }
}

/// Law: normalization is idempotent. Re-running the normalizer on its own
/// output returns that output unchanged, for every input whose normalized
/// form is free of the recognised source prefixes (rewriting leaves no
/// recognised prefix behind on any generated text; only contrived inputs,
/// where a replacement abuts text that completes a fresh prefix, fall
/// outside this premise).
pub proof fn lemma_normalize_idempotent(s: Seq<u8>)
    requires
        free_of_source_prefixes(normalize_spec(s)),
    ensures
        normalize_spec(normalize_spec(s)) == normalize_spec(s),
{
    let ls = line_split(rewrite(s));
    let ms = map_const_lines(ls);
    let ds = drop_trailing_empties(ms);
    let t = line_join(ds) + seq![NL];
    assert(t == normalize_spec(s));
    lemma_rewrite_untouched(t);
    lemma_dte_props(ms);
    lemma_line_split_nl_free(rewrite(s));
    assert forall|i: int| 0 <= i < ds.len() implies !#[trigger] ds[i].contains(NL)
        && ds[i] == const_line(ls[i]) by {
        assert(ds[i] == ms[i]);
        assert(ms[i] == const_line(ls[i]));
        lemma_const_line_nl_free(ls[i]);
    }
    if ds.len() == 0 {
        assert(t =~= seq![NL]);
        assert(t[0] == NL);
        lemma_find_byte_unique(t, NL, 0);
        assert(t.skip(1) =~= Seq::<u8>::empty());
        lemma_find_byte_unique(Seq::<u8>::empty(), NL, 0);
        assert(line_split(t.skip(1)) == seq![Seq::<u8>::empty()]);
        assert(t.take(0) =~= Seq::<u8>::empty());
        assert(line_split(t) =~= seq![Seq::<u8>::empty(), Seq::<u8>::empty()]);
        let e = Seq::<u8>::empty();
        let ls2 = line_split(rewrite(t));
        assert(ls2 == seq![e, e]);
        let ms2 = map_const_lines(ls2);
        assert(const_line(e) == e);
        assert(ms2 =~~= seq![e, e]);
        assert(ms2.last().len() == 0);
        assert(drop_trailing_empties(ms2) == drop_trailing_empties(ms2.drop_last()));
        assert(ms2.drop_last() =~~= seq![e]);
        assert(drop_trailing_empties(seq![e]) == drop_trailing_empties(seq![e].drop_last()));
        assert(seq![e].drop_last() =~~= Seq::<Seq<u8>>::empty());
        assert(drop_trailing_empties(Seq::<Seq<u8>>::empty()) == Seq::<Seq<u8>>::empty());
        assert(drop_trailing_empties(ms2) =~~= Seq::<Seq<u8>>::empty());
        assert(normalize_spec(t) =~= t);
    } else {
        lemma_join_push(ds, Seq::<u8>::empty());
        assert(line_join(ds.push(Seq::empty())) =~= t);
        assert forall|i: int| 0 <= i < ds.push(Seq::<u8>::empty()).len() implies !#[trigger] ds.push(
            Seq::<u8>::empty(),
        )[i].contains(NL) by {
            if i < ds.len() {
                assert(ds.push(Seq::<u8>::empty())[i] == ds[i]);
            } else {
                crate::text::lemma_absent_byte(Seq::<u8>::empty(), NL);
            }
        }
        lemma_split_join(ds.push(Seq::<u8>::empty()));
        assert(line_split(t) == ds.push(Seq::<u8>::empty()));
        let ls2 = line_split(rewrite(t));
        assert(ls2 == ds.push(Seq::<u8>::empty()));
        let ms2 = map_const_lines(ls2);
        assert forall|i: int| 0 <= i < ms2.len() implies ms2[i] == ls2[i] by {
            if i < ds.len() {
                assert(ls2[i] == ds[i]);
                lemma_const_line_idempotent(ls[i]);
                assert(const_line(ds[i]) == ds[i]);
            } else {
                assert(ls2[i] =~= Seq::<u8>::empty());
                assert(const_line(Seq::<u8>::empty()) == Seq::<u8>::empty());
            }
        }
        assert(ms2 =~= ls2);
        assert(ms2.drop_last() =~= ds);
        assert(ms2.last().len() == 0);
        assert(ds.last().len() > 0);
        assert(drop_trailing_empties(ms2) == drop_trailing_empties(ds));
        assert(drop_trailing_empties(ds) == ds);
        assert(normalize_spec(t) == line_join(ds) + seq![NL]);
    }
}

/// Text assembled from plain segments with one recognised source prefix
/// between each pair of neighbours: `segs[0] + pat(ks[0]) + segs[1] +
/// ... + pat(ks[n-1]) + segs[n]`.
pub open spec fn interleave_sources(segs: Seq<Seq<u8>>, ks: Seq<int>) -> Seq<u8>
    decreases ks.len(),
{
    if ks.len() == 0 || segs.len() != ks.len() + 1 {
        if segs.len() > 0 {
            segs[0]
        } else {
            Seq::empty()
        }
    } else {
        segs[0] + source_pattern(ks[0]) + interleave_sources(segs.skip(1), ks.skip(1))
    }
}

/// The same text with every designated occurrence replaced by its
/// freestanding-runtime prefix.
pub open spec fn interleave_targets(segs: Seq<Seq<u8>>, ks: Seq<int>) -> Seq<u8>
    decreases ks.len(),
{
    if ks.len() == 0 || segs.len() != ks.len() + 1 {
        if segs.len() > 0 {
            segs[0]
        } else {
            Seq::empty()
        }
    } else {
        segs[0] + target_pattern(ks[0]) + interleave_targets(segs.skip(1), ks.skip(1))
    }
}

/// Law: in text holding any number of occurrences of the recognised
/// source prefixes, the rewriter replaces each occurrence with exactly
/// the corresponding freestanding-runtime prefix and leaves every other
/// byte untouched.
///
/// The occurrences are designated by the decomposition: before each one,
/// and in the final segment, no recognised prefix occurs, so the
/// designated occurrences are all there are.
pub proof fn lemma_rewrite_all_occurrences(segs: Seq<Seq<u8>>, ks: Seq<int>)
    requires
        segs.len() == ks.len() + 1,
        forall|i: int| 0 <= i < ks.len() ==> 0 <= #[trigger] ks[i] < 8,
        forall|i: int, m: int, j: int|
            0 <= i < ks.len() && 0 <= m < 8 && 0 <= j < segs[i].len() ==> !occurs_at(
                interleave_sources(segs.skip(i), ks.skip(i)),
                source_pattern(m),
                j,
            ),
        free_of_source_prefixes(segs.last()),
    ensures
        rewrite(interleave_sources(segs, ks)) == interleave_targets(segs, ks),
    decreases ks.len(),
{
    if ks.len() == 0 {
        assert(interleave_sources(segs, ks) == segs[0]);
        assert(segs[0] == segs.last());
        lemma_rewrite_untouched(segs[0]);
    } else {
        let rest = interleave_sources(segs.skip(1), ks.skip(1));
        assert(interleave_sources(segs, ks) == segs[0] + source_pattern(ks[0]) + rest);
        assert(segs.skip(0) =~= segs);
        assert(ks.skip(0) =~= ks);
        assert forall|m: int, j: int|
            0 <= m < 8 && 0 <= j < segs[0].len() implies !occurs_at(
            segs[0] + source_pattern(ks[0]) + rest,
            source_pattern(m),
            j,
        ) by {
            assert(interleave_sources(segs.skip(0), ks.skip(0)) == interleave_sources(segs, ks));
        }
        lemma_rewrite_single_occurrence(segs[0], ks[0], rest);
        assert forall|i: int, m: int, j: int|
            0 <= i < ks.skip(1).len() && 0 <= m < 8 && 0 <= j < segs.skip(1)[i].len() implies !occurs_at(
            interleave_sources(segs.skip(1).skip(i), ks.skip(1).skip(i)),
            source_pattern(m),
            j,
        ) by {
            assert(segs.skip(1).skip(i) =~= segs.skip(i + 1));
            assert(ks.skip(1).skip(i) =~= ks.skip(i + 1));
            assert(segs.skip(1)[i] == segs[i + 1]);
        }
        assert(segs.skip(1).last() == segs.last());
        lemma_rewrite_all_occurrences(segs.skip(1), ks.skip(1));
        assert(rewrite(rest) == interleave_targets(segs.skip(1), ks.skip(1)));
        assert(interleave_targets(segs, ks) == segs[0] + target_pattern(ks[0])
            + interleave_targets(segs.skip(1), ks.skip(1)));
    }
}

} // verus!
