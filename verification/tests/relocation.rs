use stm32_bindings_gen::relocate::{
    plan_artifact_ops, relocated_file_name, ArtifactSource, LibraryArtifact,
};

fn v(s: &str) -> Vec<u8> {
    s.as_bytes().to_vec()
}

#[test]
fn relocated_file_gets_prefix_then_lowercase() {
    assert_eq!(relocated_file_name(&v("foo.a")), v("libfoo.a"));
    assert_eq!(relocated_file_name(&v("WBA_MAC_LIB.A")), v("libwba_mac_lib.a"));
    assert_eq!(relocated_file_name(&v("libAlready.a")), v("liblibalready.a"));
}

#[test]
fn file_artifact_lands_renamed_in_the_destination_parent() {
    let artifacts = vec![LibraryArtifact {
        source: v("Middlewares/mac/lib/wba_mac_lib.a"),
        destination: v("src/lib/wba_mac_lib.a"),
    }];
    let listings = vec![ArtifactSource::File];
    let ops = plan_artifact_ops(&v("/vendor"), &v("/out/pkg"), &artifacts, &listings).unwrap();
    assert_eq!(ops.len(), 1);
    assert_eq!(ops[0].source, v("/vendor/Middlewares/mac/lib/wba_mac_lib.a"));
    assert_eq!(ops[0].dest, v("/out/pkg/src/lib/libwba_mac_lib.a"));
}

#[test]
fn directory_artifact_mirrors_structure_and_renames_leaves() {
    let artifacts = vec![LibraryArtifact {
        source: v("Middlewares/ll/lib"),
        destination: v("src/lib/link_layer"),
    }];
    let listings = vec![ArtifactSource::Dir(vec![v("A.a"), v("sub/B.A")])];
    let ops = plan_artifact_ops(&v("/vendor"), &v("/out/pkg"), &artifacts, &listings).unwrap();
    assert_eq!(ops.len(), 2);
    assert_eq!(ops[0].source, v("/vendor/Middlewares/ll/lib/A.a"));
    assert_eq!(ops[0].dest, v("/out/pkg/src/lib/link_layer/liba.a"));
    assert_eq!(ops[1].source, v("/vendor/Middlewares/ll/lib/sub/B.A"));
    assert_eq!(ops[1].dest, v("/out/pkg/src/lib/link_layer/sub/libb.a"));
}

#[test]
fn missing_artifact_source_is_a_hard_error() {
    let artifacts = vec![
        LibraryArtifact { source: v("a"), destination: v("src/lib/a") },
        LibraryArtifact { source: v("gone"), destination: v("src/lib/gone") },
    ];
    let listings = vec![ArtifactSource::File, ArtifactSource::Missing];
    let err = plan_artifact_ops(&v("/vendor"), &v("/out/pkg"), &artifacts, &listings).unwrap_err();
    assert_eq!(err, 1);
}
