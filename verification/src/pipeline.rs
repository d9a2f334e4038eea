//! The generation pipeline's driver state and planning: from the catalog,
//! the probed toolchain arguments, the translated header text and what a
//! directory walk found, to the exact files, copies and index of one
//! output package.
//!
//! Everything here is a pure function of its inputs, so two runs against
//! unchanged inputs plan byte-identical output trees. Performing the
//! plan — deleting and recreating directories, writing files, copying
//! artifacts — happens outside this crate.

use vstd::prelude::*;

use crate::catalog::BindingSpec;
use crate::normalize::{normalize_spec, normalize_bindings};
use crate::aggregate::{mod_index_spec, bindings_mod_source};
use crate::paths::{path_join_spec, path_join, file_name_spec, file_name, parent_spec, parent};
use crate::relocate::{ArtifactSource, CopyOp, op_views, plan_ops_spec, plan_artifact_ops};
use crate::text::{append_bytes, bytes_eq, subvec, views};

verus! {

/// The legacy single-package output directory name: `stm32-bindings`.
pub open spec fn legacy_out_dir_name() -> Seq<u8> {
    seq![115u8, 116u8, 109u8, 51u8, 50u8, 45u8, 98u8, 105u8, 110u8, 100u8, 105u8, 110u8, 103u8, 115u8]
}

/// Build the legacy single-package output directory name.
pub fn legacy_out_dir_name_vec() -> (r: Vec<u8>)
    ensures
        r@ == legacy_out_dir_name(),
{
    let v: Vec<u8> = vec![115u8, 116u8, 109u8, 51u8, 50u8, 45u8, 98u8, 105u8, 110u8, 100u8, 105u8, 110u8, 103u8, 115u8];
    assert(v@ =~= legacy_out_dir_name());
    v
}

/// The bindings output location inside a package: `src/bindings`.
pub open spec fn bindings_subdir() -> Seq<u8> {
    seq![115u8, 114u8, 99u8, 47u8, 98u8, 105u8, 110u8, 100u8, 105u8, 110u8, 103u8, 115u8]
}

/// Build the bindings output location inside a package.
pub fn bindings_subdir_vec() -> (r: Vec<u8>)
    ensures
        r@ == bindings_subdir(),
{
    let v: Vec<u8> = vec![115u8, 114u8, 99u8, 47u8, 98u8, 105u8, 110u8, 100u8, 105u8, 110u8, 103u8, 115u8];
    assert(v@ =~= bindings_subdir());
    v
}

/// The library-artifact output location inside a package: `src/lib`.
pub open spec fn lib_subdir() -> Seq<u8> {
    seq![115u8, 114u8, 99u8, 47u8, 108u8, 105u8, 98u8]
}

/// Build the library-artifact output location inside a package.
pub fn lib_subdir_vec() -> (r: Vec<u8>)
    ensures
        r@ == lib_subdir(),
{
    let v: Vec<u8> = vec![115u8, 114u8, 99u8, 47u8, 108u8, 105u8, 98u8];
    assert(v@ =~= lib_subdir());
    v
}

/// The generated-source file extension: `.rs`.
pub open spec fn rs_extension() -> Seq<u8> {
    seq![46u8, 114u8, 115u8]
}

/// Build the generated-source file extension.
pub fn rs_extension_vec() -> (r: Vec<u8>)
    ensures
        r@ == rs_extension(),
{
    let v: Vec<u8> = vec![46u8, 114u8, 115u8];
    assert(v@ =~= rs_extension());
    v
}

/// The index file name: `mod.rs`.
pub open spec fn index_file_name() -> Seq<u8> {
    seq![109u8, 111u8, 100u8, 46u8, 114u8, 115u8]
}

/// Build the index file name.
pub fn index_file_name_vec() -> (r: Vec<u8>)
    ensures
        r@ == index_file_name(),
{
    let v: Vec<u8> = vec![109u8, 111u8, 100u8, 46u8, 114u8, 115u8];
    assert(v@ =~= index_file_name());
    v
}

/// The directory holding the package templates: `res`.
pub open spec fn template_root_dir() -> Seq<u8> {
    seq![114u8, 101u8, 115u8]
}

/// Build the directory holding the package templates.
pub fn template_root_dir_vec() -> (r: Vec<u8>)
    ensures
        r@ == template_root_dir(),
{
    let v: Vec<u8> = vec![114u8, 101u8, 115u8];
    assert(v@ =~= template_root_dir());
    v
}

/// The options of one generation run; immutable once constructed.
pub struct Options {
    /// The output root directory.
    pub out_dir: Vec<u8>,
    /// The vendor source-tree root.
    pub sources_dir: Vec<u8>,
    /// The target triple.
    pub target_triple: Vec<u8>,
}

/// The driver of one generation run.
pub struct Gen {
    opts: Options,
}

/// The directory under which the output packages land: a legacy output
/// directory name steps up to its parent, any other is used as given.
pub open spec fn base_out_dir_spec(out_dir: Seq<u8>) -> Seq<u8> {
    if file_name_spec(out_dir) == legacy_out_dir_name() {
        match parent_spec(out_dir) {
            Option::Some(p) => p,
            Option::None => out_dir,
        }
    } else {
        out_dir
    }
}

impl Gen {
    /// The options this run was constructed with.
    pub closed spec fn spec_opts(self) -> Options {
        self.opts
    }

    /// Start a generation run over the given options.
    pub fn new(opts: Options) -> (r: Gen)
        ensures
            r.spec_opts() == opts,
    {
        Gen { opts }
    }

    /// Borrow the options of this run.
    pub fn options(&self) -> (r: &Options)
        ensures
            *r == self.spec_opts(),
    {
        &self.opts
    }

    /// The directory under which the output packages land.
    pub fn compute_base_out_dir(&self) -> (r: Vec<u8>)
        ensures
            r@ == base_out_dir_spec(self.spec_opts().out_dir@),
    {
        let name = file_name(&self.opts.out_dir);
        if bytes_eq(&name, &legacy_out_dir_name_vec()) {
            match parent(&self.opts.out_dir) {
                Option::Some(p) => p,
                Option::None => subvec(&self.opts.out_dir, 0, self.opts.out_dir.len()),
            }
        } else {
            subvec(&self.opts.out_dir, 0, self.opts.out_dir.len())
        }
    }
}

/// The generated-source path of one binding module inside its package.
pub open spec fn binding_output_path_spec(crate_dir: Seq<u8>, module: Seq<u8>) -> Seq<u8> {
    path_join_spec(path_join_spec(crate_dir, bindings_subdir()), module + rs_extension())
}

/// Compute the generated-source path of one binding module.
pub fn binding_output_path(crate_dir: &Vec<u8>, module: &Vec<u8>) -> (r: Vec<u8>)
    ensures
        r@ == binding_output_path_spec(crate_dir@, module@),
{
    let mut name = subvec(module, 0, module.len());
    append_bytes(&mut name, &rs_extension_vec());
    path_join(&path_join(crate_dir, &bindings_subdir_vec()), &name)
}

/// The index path of one package.
pub open spec fn index_output_path_spec(crate_dir: Seq<u8>) -> Seq<u8> {
    path_join_spec(path_join_spec(crate_dir, bindings_subdir()), index_file_name())
}

/// Compute the index path of one package.
pub fn index_output_path(crate_dir: &Vec<u8>) -> (r: Vec<u8>)
    ensures
        r@ == index_output_path_spec(crate_dir@),
{
    path_join(&path_join(crate_dir, &bindings_subdir_vec()), &index_file_name_vec())
}

/// The two output locations guaranteed present inside a fresh package.
pub open spec fn package_dirs_spec(crate_dir: Seq<u8>) -> Seq<Seq<u8>> {
    seq![
        path_join_spec(crate_dir, bindings_subdir()),
        path_join_spec(crate_dir, lib_subdir()),
    ]
}

/// Compute the two output locations to create inside a fresh package.
pub fn package_dirs(crate_dir: &Vec<u8>) -> (r: Vec<Vec<u8>>)
    ensures
        views(r@) == package_dirs_spec(crate_dir@),
{
    let mut out: Vec<Vec<u8>> = Vec::new();
    out.push(path_join(crate_dir, &bindings_subdir_vec()));
    out.push(path_join(crate_dir, &lib_subdir_vec()));
    proof {
        assert(views(out@) =~= package_dirs_spec(crate_dir@));
    }
    out
}

/// The planned output of one binding target: where its normalized source
/// goes, that source itself, and the artifact copies it requires.
#[derive(Debug)]
pub struct BindingPlan {
    pub output_path: Vec<u8>,
    pub contents: Vec<u8>,
    pub copies: Vec<CopyOp>,
}

/// Plan one binding target from its translated header text and what the
/// walk of its artifact sources found.
///
/// Fails with the index of the first artifact whose source is missing.
pub fn plan_binding(
    sources_dir: &Vec<u8>,
    crate_dir: &Vec<u8>,
    spec: &BindingSpec,
    raw_text: &Vec<u8>,
    listings: &Vec<ArtifactSource>,
) -> (r: Result<BindingPlan, usize>)
    requires
        listings@.len() == spec.library_artifacts@.len(),
    ensures
        match r {
            Ok(p) => {
                &&& p.output_path@ == binding_output_path_spec(crate_dir@, spec.module@)
                &&& p.contents@ == normalize_spec(raw_text@)
                &&& op_views(p.copies@) == plan_ops_spec(
                    sources_dir@,
                    crate_dir@,
                    spec.library_artifacts@,
                    listings@,
                )
                &&& forall|j: int| 0 <= j < listings@.len() ==> !(listings@[j] is Missing)
            },
            Err(j) => {
                &&& j < listings@.len()
                &&& listings@[j as int] is Missing
                &&& forall|k: int| 0 <= k < j ==> !(listings@[k] is Missing)
            },
        },
{
    let copies = match plan_artifact_ops(sources_dir, crate_dir, &spec.library_artifacts, listings) {
        Ok(ops) => ops,
        Err(j) => {
            return Err(j);
        },
    };
    let output_path = binding_output_path(crate_dir, &spec.module);
    let contents = normalize_bindings(raw_text);
    Ok(BindingPlan { output_path, contents, copies })
}

/// Why a package could not be planned: the position of the first missing
/// artifact source.
#[derive(Debug)]
pub struct PlanError {
    /// Which binding target, by position in the package.
    pub binding: usize,
    /// Which artifact of that target.
    pub artifact: usize,
}

/// The planned output of one package: every binding target's file and
/// copies, and the index declaring the targets in emission order. The
/// index exists only in a successfully planned package: a package with a
/// missing artifact gets no index at all.
#[derive(Debug)]
pub struct PackagePlan {
    pub bindings: Vec<BindingPlan>,
    pub index_path: Vec<u8>,
    pub index_contents: Vec<u8>,
}

/// The module names of the given binding targets, in order.
pub open spec fn module_names_spec(bindings: Seq<BindingSpec>) -> Seq<Seq<u8>> {
    Seq::new(bindings.len(), |i: int| bindings[i].module@)
}

/// Plan one package over its binding targets, their translated header
/// texts and what the walks of their artifact sources found.
///
/// Succeeds exactly when every artifact source is present; the first
/// missing one aborts the package, and no index is planned for it.
pub fn plan_package(
    sources_dir: &Vec<u8>,
    crate_dir: &Vec<u8>,
    bindings: &Vec<BindingSpec>,
    texts: &Vec<Vec<u8>>,
    listings: &Vec<Vec<ArtifactSource>>,
) -> (r: Result<PackagePlan, PlanError>)
    requires
        texts@.len() == bindings@.len(),
        listings@.len() == bindings@.len(),
        forall|i: int|
            0 <= i < bindings@.len() ==> #[trigger] listings@[i]@.len()
                == bindings@[i].library_artifacts@.len(),
    ensures
        match r {
            Ok(p) => {
                &&& p.bindings@.len() == bindings@.len()
                &&& forall|i: int|
                    0 <= i < bindings@.len() ==> #[trigger] p.bindings@[i].output_path@
                        == binding_output_path_spec(crate_dir@, bindings@[i].module@)
                &&& forall|i: int|
                    0 <= i < bindings@.len() ==> #[trigger] p.bindings@[i].contents@
                        == normalize_spec(texts@[i]@)
                &&& forall|i: int|
                    0 <= i < bindings@.len() ==> op_views(#[trigger] p.bindings@[i].copies@)
                        == plan_ops_spec(
                        sources_dir@,
                        crate_dir@,
                        bindings@[i].library_artifacts@,
                        listings@[i]@,
                    )
                &&& p.index_path@ == index_output_path_spec(crate_dir@)
                &&& p.index_contents@ == mod_index_spec(module_names_spec(bindings@))
                &&& forall|i: int, j: int|
                    0 <= i < listings@.len() && 0 <= j < listings@[i]@.len() ==> !(
                    #[trigger] listings@[i]@[j] is Missing)
            },
            Err(e) => {
                &&& e.binding < listings@.len()
                &&& e.artifact < listings@[e.binding as int]@.len()
                &&& listings@[e.binding as int]@[e.artifact as int] is Missing
                &&& forall|k: int, j: int|
                    0 <= k < e.binding && 0 <= j < listings@[k]@.len() ==> !(
                    #[trigger] listings@[k]@[j] is Missing)
                &&& forall|j: int|
                    0 <= j < e.artifact ==> !(listings@[e.binding as int]@[j] is Missing)
            },
        },
{
    let mut plans: Vec<BindingPlan> = Vec::new();
    let mut names: Vec<Vec<u8>> = Vec::new();
    let mut i: usize = 0;
    while i < bindings.len()
        invariant
            i <= bindings@.len(),
            texts@.len() == bindings@.len(),
            listings@.len() == bindings@.len(),
            forall|k: int|
                0 <= k < bindings@.len() ==> #[trigger] listings@[k]@.len()
                    == bindings@[k].library_artifacts@.len(),
            plans@.len() == i,
            names@.len() == i,
            forall|k: int|
                0 <= k < i ==> #[trigger] plans@[k].output_path@ == binding_output_path_spec(
                    crate_dir@,
                    bindings@[k].module@,
                ),
            forall|k: int|
                0 <= k < i ==> #[trigger] plans@[k].contents@ == normalize_spec(texts@[k]@),
            forall|k: int|
                0 <= k < i ==> op_views(#[trigger] plans@[k].copies@) == plan_ops_spec(
                    sources_dir@,
                    crate_dir@,
                    bindings@[k].library_artifacts@,
                    listings@[k]@,
                ),
            forall|k: int, j: int|
                0 <= k < i && 0 <= j < listings@[k]@.len() ==> !(
                #[trigger] listings@[k]@[j] is Missing),
            views(names@) =~= module_names_spec(bindings@).take(i as int),
        decreases bindings@.len() - i,
    {
        match plan_binding(sources_dir, crate_dir, &bindings[i], &texts[i], &listings[i]) {
            Ok(p) => {
                plans.push(p);
            },
            Err(j) => {
                return Err(PlanError { binding: i, artifact: j });
            },
        }
        let name = subvec(&bindings[i].module, 0, bindings[i].module.len());
        proof {
            assert(name@ =~= bindings@[i as int].module@);
        }
        names.push(name);
        proof {
            assert(views(names@) =~= module_names_spec(bindings@).take(i + 1));
        }
        i = i + 1;
    }
    let index_path = index_output_path(crate_dir);
    let index_contents = bindings_mod_source(&names);
    proof {
        assert(views(names@) =~= module_names_spec(bindings@));
    }
    Ok(PackagePlan { bindings: plans, index_path, index_contents })
}

} // verus!
