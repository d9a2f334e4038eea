//! The header compiler's argument assembly: from one binding target and
//! the shared toolchain arguments to the full, ordered configuration of a
//! header-to-bindings translation.
//!
//! Order matters: later flags override earlier ones, so the probed
//! toolchain arguments come last and take lowest precedence. The
//! translator itself runs outside this crate and is handed this plan.

use vstd::prelude::*;

use crate::catalog::BindingSpec;
use crate::paths::{path_join_spec, path_join};
use crate::text::{trim_spec, trim_bytes, lower_seq, to_lower, match_at, append_bytes, views};
use crate::toolchain::append_all;

verus! {

/// The target-triple flag prefix `--target=`.
pub open spec fn target_flag_prefix() -> Seq<u8> {
    seq![45u8, 45u8, 116u8, 97u8, 114u8, 103u8, 101u8, 116u8, 61u8]
}

/// Build the target-triple flag prefix `--target=`.
pub fn target_flag_prefix_vec() -> (r: Vec<u8>)
    ensures
        r@ == target_flag_prefix(),
{
    let v: Vec<u8> = vec![45u8, 45u8, 116u8, 97u8, 114u8, 103u8, 101u8, 116u8, 61u8];
    assert(v@ =~= target_flag_prefix());
    v
}

/// The quote-include flag prefix `-iquote`.
pub open spec fn iquote_flag_prefix() -> Seq<u8> {
    seq![45u8, 105u8, 113u8, 117u8, 111u8, 116u8, 101u8]
}

/// Build the quote-include flag prefix `-iquote`.
pub fn iquote_flag_prefix_vec() -> (r: Vec<u8>)
    ensures
        r@ == iquote_flag_prefix(),
{
    let v: Vec<u8> = vec![45u8, 105u8, 113u8, 117u8, 111u8, 116u8, 101u8];
    assert(v@ =~= iquote_flag_prefix());
    v
}

/// The include-search flag prefix `-I`.
pub open spec fn include_flag_prefix() -> Seq<u8> {
    seq![45u8, 73u8]
}

/// Build the include-search flag prefix `-I`.
pub fn include_flag_prefix_vec() -> (r: Vec<u8>)
    ensures
        r@ == include_flag_prefix(),
{
    let v: Vec<u8> = vec![45u8, 73u8];
    assert(v@ =~= include_flag_prefix());
    v
}

/// The narrow-instruction-set flag `-mthumb`.
pub open spec fn mthumb_flag() -> Seq<u8> {
    seq![45u8, 109u8, 116u8, 104u8, 117u8, 109u8, 98u8]
}

/// Build the narrow-instruction-set flag `-mthumb`.
pub fn mthumb_flag_vec() -> (r: Vec<u8>)
    ensures
        r@ == mthumb_flag(),
{
    let v: Vec<u8> = vec![45u8, 109u8, 116u8, 104u8, 117u8, 109u8, 98u8];
    assert(v@ =~= mthumb_flag());
    v
}

/// The leading triple text naming the narrow instruction-set family.
pub open spec fn thumb_prefix() -> Seq<u8> {
    seq![116u8, 104u8, 117u8, 109u8, 98u8]
}

/// Build the leading triple text naming the narrow instruction-set family.
pub fn thumb_prefix_vec() -> (r: Vec<u8>)
    ensures
        r@ == thumb_prefix(),
{
    let v: Vec<u8> = vec![116u8, 104u8, 117u8, 109u8, 98u8];
    assert(v@ =~= thumb_prefix());
    v
}

/// The opaque runtime type `_reent`.
pub open spec fn opaque_reent() -> Seq<u8> {
    seq![95u8, 114u8, 101u8, 101u8, 110u8, 116u8]
}

/// Build the opaque runtime type `_reent`.
pub fn opaque_reent_vec() -> (r: Vec<u8>)
    ensures
        r@ == opaque_reent(),
{
    let v: Vec<u8> = vec![95u8, 114u8, 101u8, 101u8, 110u8, 116u8];
    assert(v@ =~= opaque_reent());
    v
}

/// The opaque runtime type `__sFILE`.
pub open spec fn opaque_sfile() -> Seq<u8> {
    seq![95u8, 95u8, 115u8, 70u8, 73u8, 76u8, 69u8]
}

/// Build the opaque runtime type `__sFILE`.
pub fn opaque_sfile_vec() -> (r: Vec<u8>)
    ensures
        r@ == opaque_sfile(),
{
    let v: Vec<u8> = vec![95u8, 95u8, 115u8, 70u8, 73u8, 76u8, 69u8];
    assert(v@ =~= opaque_sfile());
    v
}

/// The opaque runtime type `__sFILE64`.
pub open spec fn opaque_sfile64() -> Seq<u8> {
    seq![95u8, 95u8, 115u8, 70u8, 73u8, 76u8, 69u8, 54u8, 52u8]
}

/// Build the opaque runtime type `__sFILE64`.
pub fn opaque_sfile64_vec() -> (r: Vec<u8>)
    ensures
        r@ == opaque_sfile64(),
{
    let v: Vec<u8> = vec![95u8, 95u8, 115u8, 70u8, 73u8, 76u8, 69u8, 54u8, 52u8];
    assert(v@ =~= opaque_sfile64());
    v
}

/// True of a target triple that names the narrow embedded instruction-set
/// family: trimmed and lowercased, it starts with `thumb`.
pub open spec fn is_thumb_spec(triple: Seq<u8>) -> bool {
    let t = lower_seq(trim_spec(triple));
    t.len() >= thumb_prefix().len() && t.take(thumb_prefix().len() as int) == thumb_prefix()
}

/// Whether a target triple names the narrow embedded instruction-set
/// family.
pub fn is_thumb_target(triple: &Vec<u8>) -> (r: bool)
    ensures
        r == is_thumb_spec(triple@),
{
    let t = to_lower(&trim_bytes(triple));
    let p = thumb_prefix_vec();
    if t.len() < p.len() {
        return false;
    }
    let m = match_at(&t, &p, 0);
    proof {
        assert(t@.take(p@.len() as int) =~= t@.subrange(0, p@.len() as int));
    }
    m
}

/// The fixed opaque-type overrides for the platform-runtime types whose
/// structure must not be exposed.
pub open spec fn opaque_types_spec() -> Seq<Seq<u8>> {
    seq![opaque_reent(), opaque_sfile(), opaque_sfile64()]
}

/// Build the fixed opaque-type overrides.
pub fn opaque_types() -> (r: Vec<Vec<u8>>)
    ensures
        views(r@) == opaque_types_spec(),
{
    let mut v: Vec<Vec<u8>> = Vec::new();
    v.push(opaque_reent_vec());
    v.push(opaque_sfile_vec());
    v.push(opaque_sfile64_vec());
    proof {
        assert(views(v@) =~= opaque_types_spec());
    }
    v
}

/// An include directory resolved against the vendor source root, unless
/// it is already absolute.
pub open spec fn resolve_dir_spec(sources_dir: Seq<u8>, d: Seq<u8>) -> Seq<u8> {
    path_join_spec(sources_dir, d)
}

/// The full ordered compiler argument list for one binding target: the
/// target triple, the host's own system includes, the local include
/// directories, the narrow-instruction-set flag when the triple calls for
/// it, the target's include directories resolved against the vendor root,
/// the target's preprocessor flags, and last, at lowest precedence, the
/// probed toolchain arguments.
pub open spec fn builder_args_spec(
    triple: Seq<u8>,
    host_args: Seq<Seq<u8>>,
    crate_inc: Seq<u8>,
    sources_dir: Seq<u8>,
    include_dirs: Seq<Seq<u8>>,
    clang_args: Seq<Seq<u8>>,
    toolchain_args: Seq<Seq<u8>>,
) -> Seq<Seq<u8>> {
    seq![target_flag_prefix() + triple] + host_args + seq![
        iquote_flag_prefix() + crate_inc,
        include_flag_prefix() + crate_inc,
    ] + (if is_thumb_spec(triple) {
        seq![mthumb_flag()]
    } else {
        Seq::empty()
    }) + Seq::new(
        include_dirs.len(),
        |i: int| include_flag_prefix() + resolve_dir_spec(sources_dir, include_dirs[i]),
    ) + clang_args + toolchain_args
}

/// The assembled configuration of one header translation: the ordered
/// compiler arguments, the opaque-type overrides, and the allow-list
/// patterns — an empty allow-list meaning that no filtering is applied at
/// all.
pub struct BuilderPlan {
    pub clang_args: Vec<Vec<u8>>,
    pub opaque_types: Vec<Vec<u8>>,
    pub allowlist: Vec<Vec<u8>>,
}

/// Assemble the translation plan for one binding target.
///
/// The allow-list carries over exactly: it is empty in the plan exactly
/// when the target's specification allows every symbol, so no filter is
/// installed at all in that case.
pub fn assemble_builder_plan(
    triple: &Vec<u8>,
    host_args: &Vec<Vec<u8>>,
    crate_inc: &Vec<u8>,
    sources_dir: &Vec<u8>,
    spec: &BindingSpec,
    toolchain_args: &Vec<Vec<u8>>,
) -> (r: BuilderPlan)
    ensures
        views(r.clang_args@) == builder_args_spec(
            triple@,
            views(host_args@),
            crate_inc@,
            sources_dir@,
            views(spec.include_dirs@),
            views(spec.clang_args@),
            views(toolchain_args@),
        ),
        views(r.opaque_types@) == opaque_types_spec(),
        views(r.allowlist@) == views(spec.allowlist@),
        r.allowlist@.len() == 0 <==> spec.allowlist@.len() == 0,
{
    let mut args: Vec<Vec<u8>> = Vec::new();
    let mut target = target_flag_prefix_vec();
    append_bytes(&mut target, triple);
    let ghost tv = target@;
    args.push(target);
    proof {
        assert(views(args@) =~= seq![target_flag_prefix() + triple@]);
    }
    append_all(&mut args, host_args);
    let ghost part1 = views(args@);
    let mut iq = iquote_flag_prefix_vec();
    append_bytes(&mut iq, crate_inc);
    let ghost iqv = iq@;
    args.push(iq);
    let mut inc = include_flag_prefix_vec();
    append_bytes(&mut inc, crate_inc);
    let ghost incv = inc@;
    args.push(inc);
    proof {
        assert(views(args@) =~= part1 + seq![iqv, incv]);
    }
    let ghost part2 = views(args@);
    if is_thumb_target(triple) {
        let mt = mthumb_flag_vec();
        let ghost mtv = mt@;
        args.push(mt);
        proof {
            assert(views(args@) =~= part2 + seq![mtv]);
        }
    }
    let ghost part3 = views(args@);
    let mut i: usize = 0;
    while i < spec.include_dirs.len()
        invariant
            i <= spec.include_dirs@.len(),
            views(args@) =~= part3 + Seq::new(
                i as nat,
                |j: int|
                    include_flag_prefix() + resolve_dir_spec(
                        sources_dir@,
                        views(spec.include_dirs@)[j],
                    ),
            ),
        decreases spec.include_dirs@.len() - i,
    {
        let resolved = path_join(sources_dir, &spec.include_dirs[i]);
        let mut flag = include_flag_prefix_vec();
        append_bytes(&mut flag, &resolved);
        let ghost fv = flag@;
        let ghost prevv = views(args@);
        args.push(flag);
        proof {
            assert(views(args@) =~= prevv.push(fv));
            assert(prevv.push(fv) =~= part3 + Seq::new(
                (i + 1) as nat,
                |j: int|
                    include_flag_prefix() + resolve_dir_spec(
                        sources_dir@,
                        views(spec.include_dirs@)[j],
                    ),
            ));
        }
        i = i + 1;
    }
    proof {
        assert(Seq::new(
            spec.include_dirs@.len(),
            |j: int| include_flag_prefix() + resolve_dir_spec(sources_dir@, views(spec.include_dirs@)[j]),
        ) =~= Seq::new(
            views(spec.include_dirs@).len(),
            |j: int| include_flag_prefix() + resolve_dir_spec(sources_dir@, views(spec.include_dirs@)[j]),
        ));
    }
    append_all(&mut args, &spec.clang_args);
    append_all(&mut args, toolchain_args);
    let opaques = opaque_types();
    let mut allow: Vec<Vec<u8>> = Vec::new();
    append_all(&mut allow, &spec.allowlist);
    proof {
        assert(views(allow@) =~= views(spec.allowlist@));
        assert(views(args@) =~= builder_args_spec(
            triple@,
            views(host_args@),
            crate_inc@,
            sources_dir@,
            views(spec.include_dirs@),
            views(spec.clang_args@),
            views(toolchain_args@),
        ));
    }
    BuilderPlan { clang_args: args, opaque_types: opaques, allowlist: allow }
}

} // verus!
