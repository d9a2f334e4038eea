//! The module aggregator: the index file that declares every generated
//! binding submodule, one declaration per line, in emission order.

use vstd::prelude::*;

use crate::text::{append_bytes, views};

verus! {

/// The text before each module name: `pub mod `.
pub open spec fn pub_mod_prefix() -> Seq<u8> {
    seq![112u8, 117u8, 98u8, 32u8, 109u8, 111u8, 100u8, 32u8]
}

/// The text after each module name: `;` and a line separator.
pub open spec fn decl_terminator() -> Seq<u8> {
    seq![59u8, 10u8]
}

/// The index source declaring the given modules, in order: one
/// `pub mod <name>;` line per module, each ending in a line separator.
pub open spec fn mod_index_spec(names: Seq<Seq<u8>>) -> Seq<u8>
    decreases names.len(),
{
    if names.len() == 0 {
        Seq::empty()
    } else {
        mod_index_spec(names.drop_last()) + pub_mod_prefix() + names.last() + decl_terminator()
    }
}

/// Write the index source for the given binding modules, in emission
/// order, terminated by a line separator after every declaration.
pub fn bindings_mod_source(modules: &Vec<Vec<u8>>) -> (r: Vec<u8>)
    ensures
        r@ == mod_index_spec(views(modules@)),
{
    let prefix: Vec<u8> = vec![112u8, 117u8, 98u8, 32u8, 109u8, 111u8, 100u8, 32u8];
    let term: Vec<u8> = vec![59u8, 10u8];
    proof {
        assert(prefix@ =~= pub_mod_prefix());
        assert(term@ =~= decl_terminator());
    }
    let mut out: Vec<u8> = Vec::new();
    let mut i: usize = 0;
    while i < modules.len()
        invariant
            i <= modules@.len(),
            prefix@ == pub_mod_prefix(),
            term@ == decl_terminator(),
            out@ =~= mod_index_spec(views(modules@).take(i as int)),
        decreases modules@.len() - i,
    {
        append_bytes(&mut out, &prefix);
        append_bytes(&mut out, &modules[i]);
        append_bytes(&mut out, &term);
        proof {
            assert(views(modules@).take(i + 1).drop_last() =~= views(modules@).take(i as int));
            assert(views(modules@).take(i + 1).last() == modules@[i as int]@);
            assert(out@ =~= mod_index_spec(views(modules@).take(i + 1)));
        }
        i = i + 1;
    }
    proof {
        assert(views(modules@).take(modules@.len() as int) =~= views(modules@));
    }
    out
}

} // verus!
