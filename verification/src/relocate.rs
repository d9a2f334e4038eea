//! The artifact relocator's pure half: the conventional renaming rule for
//! relocated library files and the planning of copy operations from what a
//! directory walk found on disk.
//!
//! The walking and copying themselves happen outside this crate; they hand
//! in, for each artifact, whether its source is a file, a directory with
//! the listed relative leaf paths, or missing.

use vstd::prelude::*;

use crate::paths::{path_join_spec, path_join, file_name_spec, file_name, parent_spec, parent};
use crate::text::{lower_seq, to_lower, append_bytes, lower_byte};

verus! {

/// The conventional library-name prefix: `lib`.
pub open spec fn lib_prefix() -> Seq<u8> {
    seq![108u8, 105u8, 98u8]
}

/// Build the conventional library-name prefix.
pub fn lib_prefix_vec() -> (r: Vec<u8>)
    ensures
        r@ == lib_prefix(),
{
    let v: Vec<u8> = vec![108u8, 105u8, 98u8];
    assert(v@ =~= lib_prefix());
    v
}

/// The conventional name of a relocated library file: the prefix is
/// prepended and the whole name is ASCII-lowercased.
pub open spec fn relocated_name_spec(name: Seq<u8>) -> Seq<u8> {
    lower_seq(lib_prefix() + name)
}

/// Rename one relocated library file by the conventional rule.
pub fn relocated_file_name(name: &Vec<u8>) -> (r: Vec<u8>)
    ensures
        r@ == relocated_name_spec(name@),
{
    let mut v = lib_prefix_vec();
    append_bytes(&mut v, name);
    to_lower(&v)
}

/// Law: the renaming rule amounts to prepending the prefix and lowercasing
/// the original name, since the prefix is already lowercase. A source file
/// `foo.a` lands as `libfoo.a`.
pub proof fn lemma_relocation_naming(name: Seq<u8>)
    ensures
        relocated_name_spec(name) == lib_prefix() + lower_seq(name),
{
    assert(relocated_name_spec(name) =~= lib_prefix() + lower_seq(name)) by {
        assert(forall|j: int|
            0 <= j < 3 ==> lower_byte(lib_prefix()[j]) == lib_prefix()[j]);
    }
}

/// A precompiled artifact to carry over: a source path in the vendor tree
/// and a destination path inside the output package.
#[derive(Debug)]
pub struct LibraryArtifact {
    pub source: Vec<u8>,
    pub destination: Vec<u8>,
}

/// What a walk of one artifact's source path found: a plain file, a
/// directory with the relative paths of every leaf file under it, or
/// nothing at all.
#[derive(Debug)]
pub enum ArtifactSource {
    File,
    Dir(Vec<Vec<u8>>),
    Missing,
}

/// One copy to perform: a source file and the destination it lands at,
/// already renamed by the conventional rule.
#[derive(Debug)]
pub struct CopyOp {
    pub source: Vec<u8>,
    pub dest: Vec<u8>,
}

/// The destination of a single relocated file: the conventional name in
/// the destination's parent directory.
pub open spec fn file_dest_spec(dst: Seq<u8>) -> Seq<u8> {
    let renamed = relocated_name_spec(file_name_spec(dst));
    match parent_spec(dst) {
        Some(par) => path_join_spec(par, renamed),
        None => renamed,
    }
}

/// Compute the destination of a single relocated file.
pub fn file_dest(dst: &Vec<u8>) -> (r: Vec<u8>)
    ensures
        r@ == file_dest_spec(dst@),
{
    let name = file_name(dst);
    let renamed = relocated_file_name(&name);
    match parent(dst) {
        Some(par) => path_join(&par, &renamed),
        None => renamed,
    }
}

/// The copies for one artifact, given what the walk found. A file yields
/// one copy; a directory yields one copy per leaf file, mirroring the
/// directory structure with each leaf renamed by the conventional rule.
pub open spec fn artifact_ops_spec(src: Seq<u8>, dst: Seq<u8>, listing: ArtifactSource) -> Seq<
    (Seq<u8>, Seq<u8>),
> {
    match listing {
        ArtifactSource::File => seq![(src, file_dest_spec(dst))],
        ArtifactSource::Dir(leaves) => Seq::new(
            leaves@.len(),
            |i: int|
                (
                    path_join_spec(src, leaves@[i]@),
                    file_dest_spec(path_join_spec(dst, leaves@[i]@)),
                ),
        ),
        ArtifactSource::Missing => Seq::empty(),
    }
}

/// The views of a list of copies.
pub open spec fn op_views(ops: Seq<CopyOp>) -> Seq<(Seq<u8>, Seq<u8>)> {
    Seq::new(ops.len(), |i: int| (ops[i].source@, ops[i].dest@))
}

/// Plan the copies for the artifacts of one binding target, resolving each
/// source against the vendor tree and each destination against the output
/// package directory.
///
/// Fails with the index of the first artifact whose source is missing:
/// a missing artifact is a hard error, never silently skipped.
pub fn plan_artifact_ops(
    sources_dir: &Vec<u8>,
    crate_dir: &Vec<u8>,
    artifacts: &Vec<LibraryArtifact>,
    listings: &Vec<ArtifactSource>,
) -> (r: Result<Vec<CopyOp>, usize>)
    requires
        listings@.len() == artifacts@.len(),
    ensures
        match r {
            Ok(ops) => {
                &&& forall|i: int|
                    0 <= i < listings@.len() ==> !(listings@[i] is Missing)
                &&& op_views(ops@) == plan_ops_spec(sources_dir@, crate_dir@, artifacts@, listings@)
            },
            Err(i) => {
                &&& i < listings@.len()
                &&& listings@[i as int] is Missing
                &&& forall|j: int| 0 <= j < i ==> !(listings@[j] is Missing)
            },
        },
{
    let mut ops: Vec<CopyOp> = Vec::new();
    let mut i: usize = 0;
    while i < artifacts.len()
        invariant
            i <= artifacts@.len(),
            listings@.len() == artifacts@.len(),
            forall|j: int| 0 <= j < i ==> !(listings@[j] is Missing),
            op_views(ops@) =~= plan_ops_spec(
                sources_dir@,
                crate_dir@,
                artifacts@.take(i as int),
                listings@.take(i as int),
            ),
        decreases artifacts@.len() - i,
    {
        let src = path_join(sources_dir, &artifacts[i].source);
        let dst = path_join(crate_dir, &artifacts[i].destination);
        let ghost prev = ops@;
        match &listings[i] {
            ArtifactSource::Missing => {
                return Err(i);
            },
            ArtifactSource::File => {
                let d = file_dest(&dst);
                ops.push(CopyOp { source: src, dest: d });
            },
            ArtifactSource::Dir(leaves) => {
                let mut j: usize = 0;
                while j < leaves.len()
                    invariant
                        j <= leaves@.len(),
                        i < artifacts@.len(),
                        listings@.len() == artifacts@.len(),
                        listings@[i as int] == ArtifactSource::Dir(*leaves),
                        src@ == path_join_spec(sources_dir@, artifacts@[i as int].source@),
                        dst@ == path_join_spec(crate_dir@, artifacts@[i as int].destination@),
                        op_views(ops@) =~= op_views(prev) + artifact_ops_spec(
                            src@,
                            dst@,
                            listings@[i as int],
                        ).take(j as int),
                    decreases leaves@.len() - j,
                {
                    let leaf_src = path_join(&src, &leaves[j]);
                    let leaf_dst_plain = path_join(&dst, &leaves[j]);
                    let leaf_dst = file_dest(&leaf_dst_plain);
                    proof {
                        assert(leaf_src@ == path_join_spec(src@, leaves@[j as int]@));
                        assert(leaf_dst@ == file_dest_spec(path_join_spec(dst@, leaves@[j as int]@)));
                        assert(artifact_ops_spec(src@, dst@, ArtifactSource::Dir(*leaves))[j as int]
                            == (leaf_src@, leaf_dst@));
                    }
                    let ghost newel = (leaf_src@, leaf_dst@);
                    let ghost before = ops@;
                    ops.push(CopyOp { source: leaf_src, dest: leaf_dst });
                    proof {
                        let ao = artifact_ops_spec(src@, dst@, listings@[i as int]);
                        assert(ao == artifact_ops_spec(src@, dst@, ArtifactSource::Dir(*leaves)));
                        assert(ao[j as int] == newel);
                        assert(ops@ == before.push(CopyOp { source: leaf_src, dest: leaf_dst }));
                        assert forall|m: int| 0 <= m < before.len() implies op_views(ops@)[m]
                            == op_views(before)[m] by {
                            assert(ops@[m] == before[m]);
                        }
                        assert(op_views(ops@)[before.len() as int] == newel);
                        assert(op_views(ops@) =~= op_views(before).push(newel));
                        assert(op_views(before).push(newel) =~= (op_views(prev) + ao.take(
                            j as int,
                        )).push(newel));
                        assert((op_views(prev) + ao.take(j as int)).push(newel) =~= op_views(prev)
                            + ao.take(j + 1));
                        assert(op_views(ops@) =~= op_views(prev) + ao.take(j + 1));
                    }
                    j = j + 1;
                }
            },
        }
        proof {
            assert(artifacts@.take(i + 1).drop_last() =~= artifacts@.take(i as int));
            assert(listings@.take(i + 1).drop_last() =~= listings@.take(i as int));
            assert(op_views(ops@) =~= plan_ops_spec(
                sources_dir@,
                crate_dir@,
                artifacts@.take(i + 1),
                listings@.take(i + 1),
            ));
        }
        i = i + 1;
    }
    proof {
        assert(artifacts@.take(artifacts@.len() as int) =~= artifacts@);
        assert(listings@.take(listings@.len() as int) =~= listings@);
    }
    Ok(ops)
}

/// The copies for a list of artifacts, in order.
pub open spec fn plan_ops_spec(
    sources_dir: Seq<u8>,
    crate_dir: Seq<u8>,
    artifacts: Seq<LibraryArtifact>,
    listings: Seq<ArtifactSource>,
) -> Seq<(Seq<u8>, Seq<u8>)>
    decreases artifacts.len(),
{
    if artifacts.len() == 0 || artifacts.len() != listings.len() {
        Seq::empty()
    } else {
        plan_ops_spec(sources_dir, crate_dir, artifacts.drop_last(), listings.drop_last())
            + artifact_ops_spec(
            path_join_spec(sources_dir, artifacts.last().source@),
            path_join_spec(crate_dir, artifacts.last().destination@),
            listings.last(),
        )
    }
}

} // verus!
