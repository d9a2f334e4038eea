use stm32_bindings_gen::aggregate::bindings_mod_source;
use stm32_bindings_gen::catalog::{ble_bindings, crate_specs, linklayer_bindings, mac_bindings};
use stm32_bindings_gen::compile::{assemble_builder_plan, is_thumb_target};
use stm32_bindings_gen::pipeline::{
    binding_output_path, index_output_path, package_dirs, plan_package, Gen, Options,
};
use stm32_bindings_gen::relocate::ArtifactSource;

fn v(s: &str) -> Vec<u8> {
    s.as_bytes().to_vec()
}

fn opts() -> Options {
    Options {
        out_dir: v("/out/stm32-bindings"),
        sources_dir: v("/vendor"),
        target_triple: v("thumbv7em-none-eabihf"),
    }
}

#[test]
fn legacy_output_directory_steps_up_to_its_parent() {
    let gen = Gen::new(opts());
    assert_eq!(gen.compute_base_out_dir(), v("/out"));
}

#[test]
fn other_output_directories_are_used_as_given() {
    let mut o = opts();
    o.out_dir = v("/out/packages");
    let gen = Gen::new(o);
    assert_eq!(gen.compute_base_out_dir(), v("/out/packages"));
}

#[test]
fn binding_source_and_index_paths_sit_in_the_bindings_subdirectory() {
    assert_eq!(
        binding_output_path(&v("/pkg"), &v("wba_ble_stack")),
        v("/pkg/src/bindings/wba_ble_stack.rs")
    );
    assert_eq!(index_output_path(&v("/pkg")), v("/pkg/src/bindings/mod.rs"));
    assert_eq!(package_dirs(&v("/pkg")), vec![v("/pkg/src/bindings"), v("/pkg/src/lib")]);
}

#[test]
fn index_declares_modules_in_emission_order() {
    let modules = vec![v("wba_link_layer"), v("wba_ble_stack"), v("wba_wpan_mac")];
    assert_eq!(
        bindings_mod_source(&modules),
        v("pub mod wba_link_layer;\npub mod wba_ble_stack;\npub mod wba_wpan_mac;\n")
    );
    assert_eq!(bindings_mod_source(&Vec::new()), Vec::<u8>::new());
}

#[test]
fn catalog_has_one_package_with_three_unique_modules() {
    let specs = crate_specs();
    assert_eq!(specs.len(), 1);
    assert_eq!(specs[0].name, v("linklayer-bindings"));
    assert_eq!(specs[0].template, v("linklayer"));
    assert_eq!(specs[0].bindings.len(), 3);
    let modules: Vec<&Vec<u8>> =
        specs[0].bindings.iter().flat_map(|g| g.iter().map(|b| &b.module)).collect();
    assert_eq!(
        modules,
        vec![&v("wba_link_layer"), &v("wba_ble_stack"), &v("wba_wpan_mac")]
    );
    for i in 0..modules.len() {
        for j in (i + 1)..modules.len() {
            assert_ne!(modules[i], modules[j]);
        }
    }
}

#[test]
fn catalog_targets_allow_every_symbol() {
    assert!(linklayer_bindings()[0].allowlist.is_empty());
    assert!(ble_bindings()[0].allowlist.is_empty());
    assert!(mac_bindings()[0].allowlist.is_empty());
}

#[test]
fn thumb_targets_are_recognised_after_trimming_and_lowercasing() {
    assert!(is_thumb_target(&v("thumbv7em-none-eabihf")));
    assert!(is_thumb_target(&v("  Thumbv8m.main-none-eabi ")));
    assert!(!is_thumb_target(&v("armv7a-none-eabi")));
    assert!(!is_thumb_target(&v("")));
}

#[test]
fn builder_plan_orders_arguments_with_toolchain_flags_last() {
    let specs = mac_bindings();
    let spec = &specs[0];
    let host = vec![v("-isystem/host/sdk")];
    let toolchain = vec![v("--sysroot=/sr"), v("-isystem/sr/include")];
    let plan = assemble_builder_plan(
        &v("thumbv7em-none-eabihf"),
        &host,
        &v("/gen/inc"),
        &v("/vendor"),
        spec,
        &toolchain,
    );
    assert_eq!(plan.clang_args[0], v("--target=thumbv7em-none-eabihf"));
    assert_eq!(plan.clang_args[1], v("-isystem/host/sdk"));
    assert_eq!(plan.clang_args[2], v("-iquote/gen/inc"));
    assert_eq!(plan.clang_args[3], v("-I/gen/inc"));
    assert_eq!(plan.clang_args[4], v("-mthumb"));
    assert_eq!(plan.clang_args[5], v("-I/vendor/Middlewares/ST/STM32_WPAN"));
    let n = plan.clang_args.len();
    assert_eq!(plan.clang_args[n - 2], v("--sysroot=/sr"));
    assert_eq!(plan.clang_args[n - 1], v("-isystem/sr/include"));
    assert_eq!(
        &plan.clang_args[n - 5..n - 2],
        &[v("-DSUPPORT_MAC=1"), v("-DMAC=1"), v("-DMAC_LAYER=1")][..]
    );
    assert_eq!(plan.opaque_types, vec![v("_reent"), v("__sFILE"), v("__sFILE64")]);
}

#[test]
fn wide_targets_get_no_thumb_flag() {
    let specs = mac_bindings();
    let plan = assemble_builder_plan(
        &v("armv7a-none-eabi"),
        &Vec::new(),
        &v("/gen/inc"),
        &v("/vendor"),
        &specs[0],
        &Vec::new(),
    );
    assert!(!plan.clang_args.contains(&v("-mthumb")));
}

#[test]
fn empty_allowlist_installs_no_filter() {
    let specs = ble_bindings();
    let plan = assemble_builder_plan(
        &v("thumbv7em-none-eabihf"),
        &Vec::new(),
        &v("/gen/inc"),
        &v("/vendor"),
        &specs[0],
        &Vec::new(),
    );
    assert!(plan.allowlist.is_empty());
}

fn tiny_bindings() -> Vec<stm32_bindings_gen::catalog::BindingSpec> {
    let mut out = linklayer_bindings();
    out.extend(mac_bindings());
    out
}

#[test]
fn package_plan_covers_every_binding_and_writes_the_index_last() {
    let bindings = tiny_bindings();
    let texts = vec![v("pub const a: u8 = 1;"), v("fn b(p: ::std::ptr::NonNull<u8>);")];
    let listings = vec![
        vec![ArtifactSource::Dir(vec![v("ll.a")])],
        vec![ArtifactSource::Dir(vec![v("m.a")]), ArtifactSource::File],
    ];
    let plan = plan_package(&v("/vendor"), &v("/out/pkg"), &bindings, &texts, &listings).unwrap();
    assert_eq!(plan.bindings.len(), 2);
    assert_eq!(plan.bindings[0].output_path, v("/out/pkg/src/bindings/wba_link_layer.rs"));
    assert_eq!(plan.bindings[0].contents, v("pub const A: u8 = 1;\n"));
    assert_eq!(plan.bindings[1].output_path, v("/out/pkg/src/bindings/wba_wpan_mac.rs"));
    assert_eq!(plan.bindings[1].contents, v("fn b(p: ::core::ptr::NonNull<u8>);\n"));
    assert_eq!(plan.index_path, v("/out/pkg/src/bindings/mod.rs"));
    assert_eq!(plan.index_contents, v("pub mod wba_link_layer;\npub mod wba_wpan_mac;\n"));
    assert_eq!(plan.bindings[1].copies.len(), 2);
    assert_eq!(plan.bindings[1].copies[1].dest, v("/out/pkg/src/lib/libwba_mac_lib.a"));
}

#[test]
fn package_with_a_missing_artifact_fails_and_plans_no_index() {
    let bindings = tiny_bindings();
    let texts = vec![v(""), v("")];
    let listings = vec![
        vec![ArtifactSource::Dir(vec![v("ll.a")])],
        vec![ArtifactSource::Missing, ArtifactSource::File],
    ];
    let err = plan_package(&v("/vendor"), &v("/out/pkg"), &bindings, &texts, &listings).unwrap_err();
    assert_eq!(err.binding, 1);
    assert_eq!(err.artifact, 0);
}

#[test]
fn planning_twice_against_unchanged_inputs_is_byte_identical() {
    let bindings = tiny_bindings();
    let texts = vec![v("pub const x: u8 = 0;"), v("line\n")];
    let listings = vec![
        vec![ArtifactSource::Dir(vec![v("a.a"), v("b.a")])],
        vec![ArtifactSource::Dir(vec![v("m.a")]), ArtifactSource::File],
    ];
    let p1 = plan_package(&v("/vendor"), &v("/out/pkg"), &bindings, &texts, &listings).unwrap();
    let p2 = plan_package(&v("/vendor"), &v("/out/pkg"), &bindings, &texts, &listings).unwrap();
    assert_eq!(p1.index_path, p2.index_path);
    assert_eq!(p1.index_contents, p2.index_contents);
    assert_eq!(p1.bindings.len(), p2.bindings.len());
    for i in 0..p1.bindings.len() {
        assert_eq!(p1.bindings[i].output_path, p2.bindings[i].output_path);
        assert_eq!(p1.bindings[i].contents, p2.bindings[i].contents);
        assert_eq!(p1.bindings[i].copies.len(), p2.bindings[i].copies.len());
        for j in 0..p1.bindings[i].copies.len() {
            assert_eq!(p1.bindings[i].copies[j].source, p2.bindings[i].copies[j].source);
            assert_eq!(p1.bindings[i].copies[j].dest, p2.bindings[i].copies[j].dest);
        }
    }
}

#[test]
fn non_empty_allowlist_carries_over_pattern_for_pattern() {
    let mut specs = mac_bindings();
    specs[0].allowlist = vec![v("mac_.*"), v("MLME_.*")];
    let plan = assemble_builder_plan(
        &v("thumbv7em-none-eabihf"),
        &Vec::new(),
        &v("/gen/inc"),
        &v("/vendor"),
        &specs[0],
        &Vec::new(),
    );
    assert_eq!(plan.allowlist, vec![v("mac_.*"), v("MLME_.*")]);
}
