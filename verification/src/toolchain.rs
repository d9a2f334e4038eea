//! The toolchain prober's pure half: deriving candidate system-include
//! directories and sysroot flags from what the probes reported.
//!
//! The probes themselves, spawning the cross-compiler and reading the
//! environment, run outside this crate and hand in their raw output; which
//! candidate directories are present on disk is likewise checked outside,
//! and the surviving ones are handed back to be turned into flags. Every
//! derivation here is deterministic in those inputs, and the emitted flag
//! list never holds a duplicate.

use vstd::prelude::*;

use crate::paths::{path_join_spec, path_join, parent_spec, parent, file_name_spec, file_name, SEP};
use crate::text::{
    occurs_at, contains_seq, contains_pattern, match_at, trim_spec, trim_bytes, subvec,
    append_bytes, bytes_eq, views, lemma_occurs_skip, line_split,
};
use crate::normalize::split_lines;

verus! {

/// The `include` subdirectory.
pub open spec fn dir_include() -> Seq<u8> {
    seq![105u8, 110u8, 99u8, 108u8, 117u8, 100u8, 101u8]
}

/// Build the `include` subdirectory.
pub fn dir_include_vec() -> (r: Vec<u8>)
    ensures
        r@ == dir_include(),
{
    let v: Vec<u8> = vec![105u8, 110u8, 99u8, 108u8, 117u8, 100u8, 101u8];
    assert(v@ =~= dir_include());
    v
}

/// The `include-fixed` subdirectory.
pub open spec fn dir_include_fixed() -> Seq<u8> {
    seq![105u8, 110u8, 99u8, 108u8, 117u8, 100u8, 101u8, 45u8, 102u8, 105u8, 120u8, 101u8, 100u8]
}

/// Build the `include-fixed` subdirectory.
pub fn dir_include_fixed_vec() -> (r: Vec<u8>)
    ensures
        r@ == dir_include_fixed(),
{
    let v: Vec<u8> = vec![105u8, 110u8, 99u8, 108u8, 117u8, 100u8, 101u8, 45u8, 102u8, 105u8, 120u8, 101u8, 100u8];
    assert(v@ =~= dir_include_fixed());
    v
}

/// The `usr/include` subdirectory.
pub open spec fn dir_usr_include() -> Seq<u8> {
    seq![117u8, 115u8, 114u8, 47u8, 105u8, 110u8, 99u8, 108u8, 117u8, 100u8, 101u8]
}

/// Build the `usr/include` subdirectory.
pub fn dir_usr_include_vec() -> (r: Vec<u8>)
    ensures
        r@ == dir_usr_include(),
{
    let v: Vec<u8> = vec![117u8, 115u8, 114u8, 47u8, 105u8, 110u8, 99u8, 108u8, 117u8, 100u8, 101u8];
    assert(v@ =~= dir_usr_include());
    v
}

/// The `usr/include/newlib` subdirectory.
pub open spec fn dir_usr_include_newlib() -> Seq<u8> {
    seq![117u8, 115u8, 114u8, 47u8, 105u8, 110u8, 99u8, 108u8, 117u8, 100u8, 101u8, 47u8, 110u8, 101u8, 119u8, 108u8, 105u8, 98u8]
}

/// Build the `usr/include/newlib` subdirectory.
pub fn dir_usr_include_newlib_vec() -> (r: Vec<u8>)
    ensures
        r@ == dir_usr_include_newlib(),
{
    let v: Vec<u8> = vec![117u8, 115u8, 114u8, 47u8, 105u8, 110u8, 99u8, 108u8, 117u8, 100u8, 101u8, 47u8, 110u8, 101u8, 119u8, 108u8, 105u8, 98u8];
    assert(v@ =~= dir_usr_include_newlib());
    v
}

/// The `arm-none-eabi/include` subdirectory.
pub open spec fn dir_eabi_include() -> Seq<u8> {
    seq![97u8, 114u8, 109u8, 45u8, 110u8, 111u8, 110u8, 101u8, 45u8, 101u8, 97u8, 98u8, 105u8, 47u8, 105u8, 110u8, 99u8, 108u8, 117u8, 100u8, 101u8]
}

/// Build the `arm-none-eabi/include` subdirectory.
pub fn dir_eabi_include_vec() -> (r: Vec<u8>)
    ensures
        r@ == dir_eabi_include(),
{
    let v: Vec<u8> = vec![97u8, 114u8, 109u8, 45u8, 110u8, 111u8, 110u8, 101u8, 45u8, 101u8, 97u8, 98u8, 105u8, 47u8, 105u8, 110u8, 99u8, 108u8, 117u8, 100u8, 101u8];
    assert(v@ =~= dir_eabi_include());
    v
}

/// The `c++` include subdirectory.
pub open spec fn dir_cxx() -> Seq<u8> {
    seq![99u8, 43u8, 43u8]
}

/// Build the `c++` include subdirectory.
pub fn dir_cxx_vec() -> (r: Vec<u8>)
    ensures
        r@ == dir_cxx(),
{
    let v: Vec<u8> = vec![99u8, 43u8, 43u8];
    assert(v@ =~= dir_cxx());
    v
}

/// The `arm-none-eabi` target subdirectory.
pub open spec fn dir_eabi() -> Seq<u8> {
    seq![97u8, 114u8, 109u8, 45u8, 110u8, 111u8, 110u8, 101u8, 45u8, 101u8, 97u8, 98u8, 105u8]
}

/// Build the `arm-none-eabi` target subdirectory.
pub fn dir_eabi_vec() -> (r: Vec<u8>)
    ensures
        r@ == dir_eabi(),
{
    let v: Vec<u8> = vec![97u8, 114u8, 109u8, 45u8, 110u8, 111u8, 110u8, 101u8, 45u8, 101u8, 97u8, 98u8, 105u8];
    assert(v@ =~= dir_eabi());
    v
}

/// The sysroot flag prefix `--sysroot=`.
pub open spec fn sysroot_flag_prefix() -> Seq<u8> {
    seq![45u8, 45u8, 115u8, 121u8, 115u8, 114u8, 111u8, 111u8, 116u8, 61u8]
}

/// Build the sysroot flag prefix `--sysroot=`.
pub fn sysroot_flag_prefix_vec() -> (r: Vec<u8>)
    ensures
        r@ == sysroot_flag_prefix(),
{
    let v: Vec<u8> = vec![45u8, 45u8, 115u8, 121u8, 115u8, 114u8, 111u8, 111u8, 116u8, 61u8];
    assert(v@ =~= sysroot_flag_prefix());
    v
}

/// The system-include flag prefix `-isystem`.
pub open spec fn isystem_flag_prefix() -> Seq<u8> {
    seq![45u8, 105u8, 115u8, 121u8, 115u8, 116u8, 101u8, 109u8]
}

/// Build the system-include flag prefix `-isystem`.
pub fn isystem_flag_prefix_vec() -> (r: Vec<u8>)
    ensures
        r@ == isystem_flag_prefix(),
{
    let v: Vec<u8> = vec![45u8, 105u8, 115u8, 121u8, 115u8, 116u8, 101u8, 109u8];
    assert(v@ =~= isystem_flag_prefix());
    v
}

/// The line that opens the search-directory block of a verbose preprocessor trace.
pub open spec fn trace_start_marker() -> Seq<u8> {
    seq![35u8, 105u8, 110u8, 99u8, 108u8, 117u8, 100u8, 101u8, 32u8, 60u8, 46u8, 46u8, 46u8, 62u8, 32u8, 115u8, 101u8, 97u8, 114u8, 99u8, 104u8, 32u8, 115u8, 116u8, 97u8, 114u8, 116u8, 115u8, 32u8, 104u8, 101u8, 114u8, 101u8, 58u8]
}

/// Build the line that opens the search-directory block of a verbose preprocessor trace.
pub fn trace_start_marker_vec() -> (r: Vec<u8>)
    ensures
        r@ == trace_start_marker(),
{
    let v: Vec<u8> = vec![35u8, 105u8, 110u8, 99u8, 108u8, 117u8, 100u8, 101u8, 32u8, 60u8, 46u8, 46u8, 46u8, 62u8, 32u8, 115u8, 101u8, 97u8, 114u8, 99u8, 104u8, 32u8, 115u8, 116u8, 97u8, 114u8, 116u8, 115u8, 32u8, 104u8, 101u8, 114u8, 101u8, 58u8];
    assert(v@ =~= trace_start_marker());
    v
}

/// The line that closes the search-directory block.
pub open spec fn trace_end_marker() -> Seq<u8> {
    seq![69u8, 110u8, 100u8, 32u8, 111u8, 102u8, 32u8, 115u8, 101u8, 97u8, 114u8, 99u8, 104u8, 32u8, 108u8, 105u8, 115u8, 116u8, 46u8]
}

/// Build the line that closes the search-directory block.
pub fn trace_end_marker_vec() -> (r: Vec<u8>)
    ensures
        r@ == trace_end_marker(),
{
    let v: Vec<u8> = vec![69u8, 110u8, 100u8, 32u8, 111u8, 102u8, 32u8, 115u8, 101u8, 97u8, 114u8, 99u8, 104u8, 32u8, 108u8, 105u8, 115u8, 116u8, 46u8];
    assert(v@ =~= trace_end_marker());
    v
}

/// The leading framework-directory annotation.
pub open spec fn framework_prefix() -> Seq<u8> {
    seq![40u8, 102u8, 114u8, 97u8, 109u8, 101u8, 119u8, 111u8, 114u8, 107u8, 32u8, 100u8, 105u8, 114u8, 101u8, 99u8, 116u8, 111u8, 114u8, 121u8, 41u8, 32u8]
}

/// Build the leading framework-directory annotation.
pub fn framework_prefix_vec() -> (r: Vec<u8>)
    ensures
        r@ == framework_prefix(),
{
    let v: Vec<u8> = vec![40u8, 102u8, 114u8, 97u8, 109u8, 101u8, 119u8, 111u8, 114u8, 107u8, 32u8, 100u8, 105u8, 114u8, 101u8, 99u8, 116u8, 111u8, 114u8, 121u8, 41u8, 32u8];
    assert(v@ =~= framework_prefix());
    v
}

/// The trailing framework-directory annotation.
pub open spec fn framework_suffix() -> Seq<u8> {
    seq![32u8, 40u8, 102u8, 114u8, 97u8, 109u8, 101u8, 119u8, 111u8, 114u8, 107u8, 32u8, 100u8, 105u8, 114u8, 101u8, 99u8, 116u8, 111u8, 114u8, 121u8, 41u8]
}

/// Build the trailing framework-directory annotation.
pub fn framework_suffix_vec() -> (r: Vec<u8>)
    ensures
        r@ == framework_suffix(),
{
    let v: Vec<u8> = vec![32u8, 40u8, 102u8, 114u8, 97u8, 109u8, 101u8, 119u8, 111u8, 114u8, 107u8, 32u8, 100u8, 105u8, 114u8, 101u8, 99u8, 116u8, 111u8, 114u8, 121u8, 41u8];
    assert(v@ =~= framework_suffix());
    v
}

/// What the external probes reported: each field is the raw output of one
/// probe, when that probe succeeded.
pub struct ToolchainProbe {
    /// The environment-provided sysroot override, when set and present on
    /// disk.
    pub env_sysroot: Option<Vec<u8>>,
    /// What the compiler printed for its sysroot.
    pub gcc_sysroot: Option<Vec<u8>>,
    /// What the compiler printed for its built-in include directory.
    pub gcc_include_dir: Option<Vec<u8>>,
    /// What the compiler printed for its runtime-support library path.
    pub gcc_libgcc_path: Option<Vec<u8>>,
    /// The verbose preprocessor trace, as captured from the compiler.
    pub include_trace: Option<Vec<u8>>,
    /// The environment-provided extra include directories, already split.
    pub extra_include_dirs: Vec<Vec<u8>>,
}

/// The standard candidate include directories under a sysroot.
pub open spec fn sysroot_subdirs_spec(p: Seq<u8>) -> Seq<Seq<u8>> {
    seq![
        path_join_spec(p, dir_include()),
        path_join_spec(p, dir_include_fixed()),
        path_join_spec(p, dir_usr_include()),
        path_join_spec(p, dir_usr_include_newlib()),
        path_join_spec(p, dir_eabi_include()),
    ]
}

/// Derive the standard candidate include directories under a sysroot.
pub fn sysroot_subdirs(p: &Vec<u8>) -> (r: Vec<Vec<u8>>)
    ensures
        views(r@) == sysroot_subdirs_spec(p@),
{
    let mut out: Vec<Vec<u8>> = Vec::new();
    out.push(path_join(p, &dir_include_vec()));
    out.push(path_join(p, &dir_include_fixed_vec()));
    out.push(path_join(p, &dir_usr_include_vec()));
    out.push(path_join(p, &dir_usr_include_newlib_vec()));
    out.push(path_join(p, &dir_eabi_include_vec()));
    proof {
        assert(views(out@) =~= sysroot_subdirs_spec(p@));
    }
    out
}

/// The candidate include directories derived from the runtime-support
/// library path: the version directory's own include directories, and the
/// version-qualified compiler-support header directories beside it.
pub open spec fn libgcc_subdirs_spec(p: Seq<u8>) -> Seq<Seq<u8>> {
    match parent_spec(p) {
        Option::None => Seq::empty(),
        Option::Some(vd) => seq![
            path_join_spec(vd, dir_include()),
            path_join_spec(vd, dir_include_fixed()),
        ] + match parent_spec(vd) {
            Option::None => Seq::empty(),
            Option::Some(root) => seq![
                path_join_spec(
                    path_join_spec(path_join_spec(root, dir_include()), dir_cxx()),
                    file_name_spec(vd),
                ),
                path_join_spec(
                    path_join_spec(
                        path_join_spec(path_join_spec(root, dir_include()), dir_cxx()),
                        file_name_spec(vd),
                    ),
                    dir_eabi(),
                ),
            ],
        },
    }
}

/// Derive the candidate include directories from the runtime-support
/// library path.
pub fn libgcc_subdirs(p: &Vec<u8>) -> (r: Vec<Vec<u8>>)
    ensures
        views(r@) == libgcc_subdirs_spec(p@),
{
    let mut out: Vec<Vec<u8>> = Vec::new();
    match parent(p) {
        Option::None => {
            proof {
                assert(views(out@) =~= libgcc_subdirs_spec(p@));
            }
        },
        Option::Some(vd) => {
            out.push(path_join(&vd, &dir_include_vec()));
            out.push(path_join(&vd, &dir_include_fixed_vec()));
            match parent(&vd) {
                Option::None => {
                    proof {
                        assert(views(out@) =~= libgcc_subdirs_spec(p@));
                    }
                },
                Option::Some(root) => {
                    let ver = file_name(&vd);
                    let base = path_join(
                        &path_join(&path_join(&root, &dir_include_vec()), &dir_cxx_vec()),
                        &ver,
                    );
                    let eabi = path_join(&base, &dir_eabi_vec());
                    out.push(base);
                    out.push(eabi);
                    proof {
                        assert(views(out@) =~= libgcc_subdirs_spec(p@));
                    }
                },
            }
        },
    }
    out
}

/// `s` with every leading repetition of `pat` removed.
pub open spec fn strip_prefix_all_spec(s: Seq<u8>, pat: Seq<u8>) -> Seq<u8>
    decreases s.len(),
{
    if pat.len() > 0 && occurs_at(s, pat, 0) {
        strip_prefix_all_spec(s.skip(pat.len() as int), pat)
    } else {
        s
    }
}

/// `s` with every trailing repetition of `pat` removed.
pub open spec fn strip_suffix_all_spec(s: Seq<u8>, pat: Seq<u8>) -> Seq<u8>
    decreases s.len(),
{
    if pat.len() > 0 && occurs_at(s, pat, s.len() - pat.len()) {
        strip_suffix_all_spec(s.take(s.len() - pat.len()), pat)
    } else {
        s
    }
}

/// Remove every leading repetition of `pat` from `s`.
pub fn strip_prefix_all(s: &Vec<u8>, pat: &Vec<u8>) -> (r: Vec<u8>)
    requires
        pat@.len() > 0,
    ensures
        r@ == strip_prefix_all_spec(s@, pat@),
{
    let mut a: usize = 0;
    proof {
        assert(s@.skip(0) =~= s@);
    }
    while a < s.len() && match_at(s, pat, a)
        invariant
            a <= s@.len(),
            pat@.len() > 0,
            strip_prefix_all_spec(s@, pat@) == strip_prefix_all_spec(s@.skip(a as int), pat@),
        decreases s@.len() - a,
    {
        proof {
            lemma_occurs_skip(s@, pat@, a as int, 0);
            assert(occurs_at(s@.skip(a as int), pat@, 0));
            assert(s@.skip(a as int).skip(pat@.len() as int) =~= s@.skip(a + pat@.len()));
        }
        a = a + pat.len();
    }
    proof {
        if a < s@.len() {
            lemma_occurs_skip(s@, pat@, a as int, 0);
        }
        assert(!occurs_at(s@.skip(a as int), pat@, 0));
    }
    subvec(s, a, s.len())
}

/// Remove every trailing repetition of `pat` from `s`.
pub fn strip_suffix_all(s: &Vec<u8>, pat: &Vec<u8>) -> (r: Vec<u8>)
    requires
        pat@.len() > 0,
    ensures
        r@ == strip_suffix_all_spec(s@, pat@),
{
    let mut e: usize = s.len();
    proof {
        assert(s@.take(s@.len() as int) =~= s@);
    }
    while e >= pat.len() && match_at(s, pat, e - pat.len())
        invariant
            e <= s@.len(),
            pat@.len() > 0,
            strip_suffix_all_spec(s@, pat@) == strip_suffix_all_spec(s@.take(e as int), pat@),
        decreases e,
    {
        proof {
            let t = s@.take(e as int);
            assert(t.subrange(e - pat@.len(), e as int) =~= s@.subrange(e - pat@.len(), e as int));
            assert(occurs_at(t, pat@, t.len() - pat@.len()));
            assert(t.take(t.len() - pat@.len()) =~= s@.take(e - pat@.len()));
        }
        e = e - pat.len();
    }
    proof {
        let t = s@.take(e as int);
        if e >= pat@.len() {
            assert(t.subrange(e - pat@.len(), e as int) =~= s@.subrange(e - pat@.len(), e as int));
        }
        assert(!(pat@.len() <= t.len() && occurs_at(t, pat@, t.len() - pat@.len())));
    }
    subvec(s, 0, e)
}

/// One trace line reduced to a candidate directory: trimmed, with the
/// framework-directory annotations removed; empty when nothing remains.
pub open spec fn trace_line_dir_spec(l: Seq<u8>) -> Seq<u8> {
    strip_suffix_all_spec(
        strip_prefix_all_spec(trim_spec(l), framework_prefix()),
        framework_suffix(),
    )
}

/// The absolute search directories listed between the trace markers, in
/// trace order: lines outside the marked block, blank lines and relative
/// paths contribute nothing.
pub open spec fn trace_dirs_spec(lines: Seq<Seq<u8>>, capturing: bool) -> Seq<Seq<u8>>
    decreases lines.len(),
{
    if lines.len() == 0 {
        Seq::empty()
    } else {
        let l = lines[0];
        let rest = lines.skip(1);
        if !capturing {
            if contains_seq(l, trace_start_marker()) {
                trace_dirs_spec(rest, true)
            } else {
                trace_dirs_spec(rest, false)
            }
        } else if contains_seq(l, trace_end_marker()) {
            Seq::empty()
        } else {
            let t = trim_spec(l);
            if t.len() == 0 {
                trace_dirs_spec(rest, true)
            } else {
                let d = trace_line_dir_spec(l);
                if d.len() == 0 || d[0] != SEP {
                    trace_dirs_spec(rest, true)
                } else {
                    seq![d] + trace_dirs_spec(rest, true)
                }
            }
        }
    }
}

/// Extract the native search directories from a verbose preprocessor
/// trace: only the lines between the start and end markers count, each
/// trimmed and stripped of framework annotations, keeping absolute paths
/// in their reported order.
pub fn parse_include_trace(text: &Vec<u8>) -> (r: Vec<Vec<u8>>)
    ensures
        views(r@) == trace_dirs_spec(line_split(text@), false),
{
    let lines = split_lines(text);
    let start_marker = trace_start_marker_vec();
    let end_marker = trace_end_marker_vec();
    let fw_prefix = framework_prefix_vec();
    let fw_suffix = framework_suffix_vec();
    let mut out: Vec<Vec<u8>> = Vec::new();
    let mut mode: u8 = 0;
    let mut i: usize = 0;
    let ghost all = views(lines@);
    proof {
        assert(all.skip(0) =~= all);
        assert(views(out@) + trace_dirs_spec(all, false) =~= trace_dirs_spec(all, false));
    }
    while i < lines.len()
        invariant
            i <= lines@.len(),
            all == views(lines@),
            start_marker@ == trace_start_marker(),
            end_marker@ == trace_end_marker(),
            fw_prefix@ == framework_prefix(),
            fw_suffix@ == framework_suffix(),
            mode <= 2,
            mode == 0 ==> trace_dirs_spec(all, false) =~= views(out@) + trace_dirs_spec(
                all.skip(i as int),
                false,
            ),
            mode == 1 ==> trace_dirs_spec(all, false) =~= views(out@) + trace_dirs_spec(
                all.skip(i as int),
                true,
            ),
            mode == 2 ==> trace_dirs_spec(all, false) =~= views(out@),
        decreases lines@.len() - i,
    {
        let ghost pre = all.skip(i as int);
        proof {
            assert(pre.len() > 0);
            assert(pre[0] == lines@[i as int]@);
            assert(pre.skip(1) =~= all.skip(i + 1));
        }
        if mode == 0 {
            if contains_pattern(&lines[i], &start_marker) {
                mode = 1;
            }
        } else if mode == 1 {
            if contains_pattern(&lines[i], &end_marker) {
                proof {
                    assert(trace_dirs_spec(pre, true) =~= Seq::<Seq<u8>>::empty());
                    assert(views(out@) + trace_dirs_spec(pre, true) =~= views(out@));
                }
                mode = 2;
            } else {
                let t = trim_bytes(&lines[i]);
                if t.len() > 0 {
                    let stripped_pre = strip_prefix_all(&t, &fw_prefix);
                    let d = strip_suffix_all(&stripped_pre, &fw_suffix);
                    proof {
                        assert(d@ == trace_line_dir_spec(lines@[i as int]@));
                    }
                    if d.len() > 0 && d[0] == SEP {
                        let ghost dv = d@;
                        let ghost prevv = views(out@);
                        out.push(d);
                        proof {
                            assert(views(out@) =~= prevv.push(dv));
                            assert(trace_dirs_spec(pre, true) =~= seq![dv] + trace_dirs_spec(
                                all.skip(i + 1),
                                true,
                            ));
                            assert(prevv + (seq![dv] + trace_dirs_spec(all.skip(i + 1), true))
                                =~= prevv.push(dv) + trace_dirs_spec(all.skip(i + 1), true));
                        }
                    }
                }
            }
        }
        i = i + 1;
    }
    proof {
        if mode != 2 {
            assert(all.skip(i as int) =~= Seq::<Seq<u8>>::empty());
            assert(trace_dirs_spec(all.skip(i as int), mode == 1) =~= Seq::<Seq<u8>>::empty());
            if mode == 0 {
                assert(views(out@) + trace_dirs_spec(all.skip(i as int), false) =~= views(out@));
            } else {
                assert(views(out@) + trace_dirs_spec(all.skip(i as int), true) =~= views(out@));
            }
        }
        assert(views(out@) =~= trace_dirs_spec(all, false));
    }
    out
}

/// The list with later repetitions of any earlier entry removed: each
/// entry keeps its first position.
pub open spec fn dedup_spec(ls: Seq<Seq<u8>>) -> Seq<Seq<u8>>
    decreases ls.len(),
{
    if ls.len() == 0 {
        Seq::empty()
    } else {
        let r = dedup_spec(ls.drop_last());
        if r.contains(ls.last()) {
            r
        } else {
            r.push(ls.last())
        }
    }
}

/// Deduplication leaves no entry twice.
pub proof fn lemma_dedup_distinct(ls: Seq<Seq<u8>>)
    ensures
        forall|i: int, j: int|
            0 <= i < j < dedup_spec(ls).len() ==> dedup_spec(ls)[i] != dedup_spec(ls)[j],
    decreases ls.len(),
{
    if ls.len() > 0 {
        lemma_dedup_distinct(ls.drop_last());
        let r = dedup_spec(ls.drop_last());
        if !r.contains(ls.last()) {
            assert forall|i: int, j: int|
                0 <= i < j < dedup_spec(ls).len() implies dedup_spec(ls)[i] != dedup_spec(
                ls,
            )[j] by {
                if j < r.len() {
                } else {
                    assert(dedup_spec(ls)[i] == r[i]);
                    assert(dedup_spec(ls)[j] == ls.last());
                    if r[i] == ls.last() {
                        assert(r.contains(ls.last()));
                    }
                }
            }
        }
    }
}

/// Whether one of the listed byte strings equals `x`.
pub fn contains_bytes(hay: &Vec<Vec<u8>>, x: &Vec<u8>) -> (r: bool)
    ensures
        r == views(hay@).contains(x@),
{
    let mut i: usize = 0;
    while i < hay.len()
        invariant
            i <= hay@.len(),
            forall|j: int| 0 <= j < i ==> views(hay@)[j] != x@,
        decreases hay@.len() - i,
    {
        if bytes_eq(&hay[i], x) {
            assert(views(hay@)[i as int] == x@);
            return true;
        }
        i = i + 1;
    }
    proof {
        if views(hay@).contains(x@) {
            let j = choose|j: int| 0 <= j < views(hay@).len() && views(hay@)[j] == x@;
            assert(false);
        }
    }
    false
}

/// Append `x` unless it is already listed.
pub fn push_unique(acc: &mut Vec<Vec<u8>>, x: Vec<u8>)
    ensures
        views(final(acc)@) == (if views(old(acc)@).contains(x@) {
            views(old(acc)@)
        } else {
            views(old(acc)@).push(x@)
        }),
{
    if !contains_bytes(acc, &x) {
        let ghost prevv = views(acc@);
        let ghost xv = x@;
        acc.push(x);
        proof {
            assert(views(acc@) =~= prevv.push(xv));
        }
    }
}

/// Append each listed byte string unless it is already listed, in order.
pub fn extend_unique(acc: &mut Vec<Vec<u8>>, items: &Vec<Vec<u8>>)
    ensures
        views(final(acc)@) == dedup_extend_spec(views(old(acc)@), views(items@)),
{
    let mut i: usize = 0;
    while i < items.len()
        invariant
            i <= items@.len(),
            views(acc@) == dedup_extend_spec(views(old(acc)@), views(items@).take(i as int)),
        decreases items@.len() - i,
    {
        let item = crate::text::subvec(&items[i], 0, items[i].len());
        proof {
            assert(item@ == views(items@)[i as int]);
            assert(views(items@).take(i + 1).drop_last() =~= views(items@).take(i as int));
        }
        push_unique(acc, item);
        i = i + 1;
    }
    proof {
        assert(views(items@).take(items@.len() as int) =~= views(items@));
    }
}

/// `acc` extended with each entry of `items` that is not yet present,
/// in order.
pub open spec fn dedup_extend_spec(acc: Seq<Seq<u8>>, items: Seq<Seq<u8>>) -> Seq<Seq<u8>>
    decreases items.len(),
{
    if items.len() == 0 {
        acc
    } else {
        let r = dedup_extend_spec(acc, items.drop_last());
        if r.contains(items.last()) {
            r
        } else {
            r.push(items.last())
        }
    }
}

/// Extending an empty list is plain deduplication.
pub proof fn lemma_dedup_extend_empty(items: Seq<Seq<u8>>)
    ensures
        dedup_extend_spec(Seq::empty(), items) == dedup_spec(items),
    decreases items.len(),
{
    if items.len() > 0 {
        lemma_dedup_extend_empty(items.drop_last());
    }
}

/// Every candidate include directory that the probe outputs give rise to,
/// in derivation order, before deduplication: the sysroot subdirectories
/// for the environment override and the compiler-reported sysroot, the
/// compiler's built-in include directory, the directories derived from the
/// runtime-support library path, the native trace directories, and the
/// environment-provided extras.
pub open spec fn candidate_dirs_spec(probe: ToolchainProbe) -> Seq<Seq<u8>> {
    (match probe.env_sysroot {
        Option::Some(p) => sysroot_subdirs_spec(p@),
        Option::None => Seq::empty(),
    }) + (match probe.gcc_sysroot {
        Option::Some(out) => if trim_spec(out@).len() > 0 {
            sysroot_subdirs_spec(trim_spec(out@))
        } else {
            Seq::empty()
        },
        Option::None => Seq::empty(),
    }) + (match probe.gcc_include_dir {
        Option::Some(out) => if trim_spec(out@).len() > 0 && trim_spec(out@) != dir_include() {
            seq![trim_spec(out@)]
        } else {
            Seq::empty()
        },
        Option::None => Seq::empty(),
    }) + (match probe.gcc_libgcc_path {
        Option::Some(out) => libgcc_subdirs_spec(trim_spec(out@)),
        Option::None => Seq::empty(),
    }) + (match probe.include_trace {
        Option::Some(text) => trace_dirs_spec(line_split(text@), false),
        Option::None => Seq::empty(),
    }) + views(probe.extra_include_dirs@)
}

/// Append a copy of every listed byte string, in order.
pub fn append_all(acc: &mut Vec<Vec<u8>>, items: &Vec<Vec<u8>>)
    ensures
        views(final(acc)@) == views(old(acc)@) + views(items@),
{
    let mut i: usize = 0;
    while i < items.len()
        invariant
            i <= items@.len(),
            views(acc@) =~= views(old(acc)@) + views(items@).take(i as int),
        decreases items@.len() - i,
    {
        let item = crate::text::subvec(&items[i], 0, items[i].len());
        proof {
            assert(item@ =~= views(items@)[i as int]);
        }
        let ghost prevv = views(acc@);
        acc.push(item);
        proof {
            assert(views(acc@) =~= prevv.push(views(items@)[i as int]));
            assert(prevv.push(views(items@)[i as int]) =~= views(old(acc)@) + views(
                items@,
            ).take(i + 1));
        }
        i = i + 1;
    }
    proof {
        assert(views(items@).take(items@.len() as int) =~= views(items@));
        assert(views(acc@) =~= views(old(acc)@) + views(items@));
    }
}

/// Derive the candidate system-include directories from the probe
/// outputs: every derivation in order, deduplicated with first positions
/// kept, so the result is deterministic in the probe outputs alone.
pub fn include_candidates(probe: &ToolchainProbe) -> (r: Vec<Vec<u8>>)
    ensures
        views(r@) == dedup_spec(candidate_dirs_spec(*probe)),
        forall|i: int, j: int| 0 <= i < j < r@.len() ==> views(r@)[i] != views(r@)[j],
{
    let mut raw: Vec<Vec<u8>> = Vec::new();
    match &probe.env_sysroot {
        Option::Some(p) => {
            let subs = sysroot_subdirs(p);
            append_all(&mut raw, &subs);
        },
        Option::None => {},
    }
    let ghost part1 = views(raw@);
    match &probe.gcc_sysroot {
        Option::Some(out) => {
            let t = trim_bytes(out);
            if t.len() > 0 {
                let subs = sysroot_subdirs(&t);
                append_all(&mut raw, &subs);
            }
        },
        Option::None => {},
    }
    let ghost part2 = views(raw@);
    match &probe.gcc_include_dir {
        Option::Some(out) => {
            let t = trim_bytes(out);
            if t.len() > 0 && !bytes_eq(&t, &dir_include_vec()) {
                let ghost tv = t@;
                raw.push(t);
                proof {
                    assert(views(raw@) =~= part2.push(tv));
                    assert(part2.push(tv) =~= part2 + seq![tv]);
                }
            }
        },
        Option::None => {},
    }
    let ghost part3 = views(raw@);
    match &probe.gcc_libgcc_path {
        Option::Some(out) => {
            let t = trim_bytes(out);
            let subs = libgcc_subdirs(&t);
            append_all(&mut raw, &subs);
        },
        Option::None => {},
    }
    let ghost part4 = views(raw@);
    match &probe.include_trace {
        Option::Some(text) => {
            let dirs = parse_include_trace(text);
            append_all(&mut raw, &dirs);
        },
        Option::None => {},
    }
    append_all(&mut raw, &probe.extra_include_dirs);
    proof {
        assert(views(raw@) =~= candidate_dirs_spec(*probe));
    }
    let mut out: Vec<Vec<u8>> = Vec::new();
    let ghost base = views(out@);
    extend_unique(&mut out, &raw);
    proof {
        assert(base =~= Seq::<Seq<u8>>::empty());
        lemma_dedup_extend_empty(views(raw@));
        assert(views(out@) == dedup_spec(views(raw@)));
        lemma_dedup_distinct(views(raw@));
    }
    out
}

/// The sysroot flag for one sysroot path.
pub open spec fn sysroot_flag_spec(p: Seq<u8>) -> Seq<u8> {
    sysroot_flag_prefix() + p
}

/// The system-include flag for one directory.
pub open spec fn isystem_flag_spec(d: Seq<u8>) -> Seq<u8> {
    isystem_flag_prefix() + d
}

/// The sysroot flags the probe outputs give rise to, in derivation order,
/// before deduplication.
pub open spec fn sysroot_flags_raw_spec(probe: ToolchainProbe) -> Seq<Seq<u8>> {
    (match probe.env_sysroot {
        Option::Some(p) => seq![sysroot_flag_spec(p@)],
        Option::None => Seq::empty(),
    }) + (match probe.gcc_sysroot {
        Option::Some(out) => if trim_spec(out@).len() > 0 {
            seq![sysroot_flag_spec(trim_spec(out@))]
        } else {
            Seq::empty()
        },
        Option::None => Seq::empty(),
    })
}

/// The full toolchain argument list for the given probe outputs and the
/// candidate directories found present on disk: one sysroot flag per
/// distinct sysroot, then one system-include flag per surviving directory,
/// each flag emitted once.
pub open spec fn toolchain_args_spec(probe: ToolchainProbe, surviving: Seq<Seq<u8>>) -> Seq<
    Seq<u8>,
> {
    dedup_spec(
        sysroot_flags_raw_spec(probe) + Seq::new(surviving.len(), |i: int| isystem_flag_spec(surviving[i])),
    )
}

/// Build one sysroot flag.
pub fn sysroot_flag(p: &Vec<u8>) -> (r: Vec<u8>)
    ensures
        r@ == sysroot_flag_spec(p@),
{
    let mut v = sysroot_flag_prefix_vec();
    append_bytes(&mut v, p);
    v
}

/// Build one system-include flag.
pub fn isystem_flag(d: &Vec<u8>) -> (r: Vec<u8>)
    ensures
        r@ == isystem_flag_spec(d@),
{
    let mut v = isystem_flag_prefix_vec();
    append_bytes(&mut v, d);
    v
}

/// Assemble the toolchain arguments to append to every header
/// compilation: the sysroot flags for the discovered sysroots, followed by
/// a system-include flag for each surviving candidate directory, with no
/// flag ever emitted twice.
pub fn assemble_toolchain_args(probe: &ToolchainProbe, surviving: &Vec<Vec<u8>>) -> (r: Vec<
    Vec<u8>,
>)
    ensures
        views(r@) == toolchain_args_spec(*probe, views(surviving@)),
        forall|i: int, j: int| 0 <= i < j < r@.len() ==> views(r@)[i] != views(r@)[j],
{
    let mut raw: Vec<Vec<u8>> = Vec::new();
    match &probe.env_sysroot {
        Option::Some(p) => {
            let f = sysroot_flag(p);
            let ghost fv = f@;
            raw.push(f);
            proof {
                assert(views(raw@) =~= seq![fv]);
            }
        },
        Option::None => {},
    }
    let ghost part1 = views(raw@);
    match &probe.gcc_sysroot {
        Option::Some(out) => {
            let t = trim_bytes(out);
            if t.len() > 0 {
                let f = sysroot_flag(&t);
                let ghost fv = f@;
                raw.push(f);
                proof {
                    assert(views(raw@) =~= part1.push(fv));
                }
            }
        },
        Option::None => {},
    }
    proof {
        assert(views(raw@) =~= sysroot_flags_raw_spec(*probe));
    }
    let ghost part2 = views(raw@);
    let mut k: usize = 0;
    while k < surviving.len()
        invariant
            k <= surviving@.len(),
            part2 == sysroot_flags_raw_spec(*probe),
            views(raw@) =~= part2 + Seq::new(
                k as nat,
                |i: int| isystem_flag_spec(views(surviving@)[i]),
            ),
        decreases surviving@.len() - k,
    {
        let f = isystem_flag(&surviving[k]);
        let ghost fv = f@;
        let ghost prevv = views(raw@);
        raw.push(f);
        proof {
            assert(views(raw@) =~= prevv.push(fv));
            assert(prevv.push(fv) =~= part2 + Seq::new(
                (k + 1) as nat,
                |i: int| isystem_flag_spec(views(surviving@)[i]),
            ));
        }
        k = k + 1;
    }
    proof {
        assert(Seq::new(surviving@.len(), |i: int| isystem_flag_spec(views(surviving@)[i])) =~= Seq::new(
            views(surviving@).len(),
            |i: int| isystem_flag_spec(views(surviving@)[i]),
        ));
        assert(views(raw@) =~= sysroot_flags_raw_spec(*probe) + Seq::new(
            views(surviving@).len(),
            |i: int| isystem_flag_spec(views(surviving@)[i]),
        ));
    }
    let mut out: Vec<Vec<u8>> = Vec::new();
    let ghost base = views(out@);
    extend_unique(&mut out, &raw);
    proof {
        assert(base =~= Seq::<Seq<u8>>::empty());
        lemma_dedup_extend_empty(views(raw@));
        assert(views(out@) == dedup_spec(views(raw@)));
        lemma_dedup_distinct(views(raw@));
    }
    out
}

/// Law: however often the probes rediscover the same sysroot, the
/// assembled argument list never carries a duplicate flag; in particular
/// no sysroot flag is ever emitted twice.
pub proof fn lemma_no_duplicate_toolchain_flags(probe: ToolchainProbe, surviving: Seq<Seq<u8>>)
    ensures
        forall|i: int, j: int|
            0 <= i < j < toolchain_args_spec(probe, surviving).len() ==> toolchain_args_spec(
                probe,
                surviving,
            )[i] != toolchain_args_spec(probe, surviving)[j],
{
    lemma_dedup_distinct(
        sysroot_flags_raw_spec(probe) + Seq::new(
            surviving.len(),
            |i: int| isystem_flag_spec(surviving[i]),
        ),
    );
}

} // verus!
