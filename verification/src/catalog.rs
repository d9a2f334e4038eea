//! The binding specification catalog: the static, declarative table of
//! binding targets, each naming its header, include search paths,
//! preprocessor flags, allow-list patterns and precompiled artifacts, and
//! the output packages that group them.
//!
//! Binding module names are unique within a package; the module
//! aggregator relies on that when it emits the index.

use vstd::prelude::*;

use crate::relocate::LibraryArtifact;
use crate::text::bytes_of;

verus! {

/// The name of the link-layer binding module: `wba_link_layer`.
pub open spec fn module_link_layer() -> Seq<u8> {
    seq![119u8, 98u8, 97u8, 95u8, 108u8, 105u8, 110u8, 107u8, 95u8, 108u8, 97u8, 121u8, 101u8, 114u8]
}

/// Build the name of the link-layer binding module.
pub fn module_link_layer_vec() -> (r: Vec<u8>)
    ensures
        r@ == module_link_layer(),
{
    let v: Vec<u8> = vec![119u8, 98u8, 97u8, 95u8, 108u8, 105u8, 110u8, 107u8, 95u8, 108u8, 97u8, 121u8, 101u8, 114u8];
    assert(v@ =~= module_link_layer());
    v
}

/// The name of the BLE stack binding module: `wba_ble_stack`.
pub open spec fn module_ble_stack() -> Seq<u8> {
    seq![119u8, 98u8, 97u8, 95u8, 98u8, 108u8, 101u8, 95u8, 115u8, 116u8, 97u8, 99u8, 107u8]
}

/// Build the name of the BLE stack binding module.
pub fn module_ble_stack_vec() -> (r: Vec<u8>)
    ensures
        r@ == module_ble_stack(),
{
    let v: Vec<u8> = vec![119u8, 98u8, 97u8, 95u8, 98u8, 108u8, 101u8, 95u8, 115u8, 116u8, 97u8, 99u8, 107u8];
    assert(v@ =~= module_ble_stack());
    v
}

/// The name of the IEEE 802.15.4 MAC binding module: `wba_wpan_mac`.
pub open spec fn module_wpan_mac() -> Seq<u8> {
    seq![119u8, 98u8, 97u8, 95u8, 119u8, 112u8, 97u8, 110u8, 95u8, 109u8, 97u8, 99u8]
}

/// Build the name of the IEEE 802.15.4 MAC binding module.
pub fn module_wpan_mac_vec() -> (r: Vec<u8>)
    ensures
        r@ == module_wpan_mac(),
{
    let v: Vec<u8> = vec![119u8, 98u8, 97u8, 95u8, 119u8, 112u8, 97u8, 110u8, 95u8, 109u8, 97u8, 99u8];
    assert(v@ =~= module_wpan_mac());
    v
}

/// One header-to-source generation unit: a binding target.
pub struct BindingSpec {
    /// The module name, unique within its package.
    pub module: Vec<u8>,
    /// The header to translate.
    pub header: Vec<u8>,
    /// The include search paths, relative to the vendor source root
    /// unless absolute, in order.
    pub include_dirs: Vec<Vec<u8>>,
    /// The preprocessor flags, in order.
    pub clang_args: Vec<Vec<u8>>,
    /// The allow-list patterns; empty allows every symbol.
    pub allowlist: Vec<Vec<u8>>,
    /// The precompiled artifacts this target carries.
    pub library_artifacts: Vec<LibraryArtifact>,
}

/// One generated output package: its name, its directory template, and
/// its binding targets grouped in order.
pub struct CrateSpec {
    pub name: Vec<u8>,
    pub template: Vec<u8>,
    pub bindings: Vec<Vec<BindingSpec>>,
}

/// One artifact entry built from its two path literals.
fn artifact(source: &str, destination: &str) -> (r: LibraryArtifact) {
    LibraryArtifact { source: bytes_of(source), destination: bytes_of(destination) }
}

/// The binding group of the shared link layer.
pub fn linklayer_bindings() -> (r: Vec<BindingSpec>)
    ensures
        r@.len() == 1,
        r@[0].module@ == module_link_layer(),
        r@[0].allowlist@.len() == 0,
        r@[0].include_dirs@.len() == 10,
        r@[0].clang_args@.len() == 11,
        r@[0].library_artifacts@.len() == 1,
{
    let mut include_dirs: Vec<Vec<u8>> = Vec::new();
    include_dirs.push(bytes_of("Middlewares/ST/STM32_WPAN"));
    include_dirs.push(bytes_of("Middlewares/ST/STM32_WPAN/mac_802_15_4/core/inc"));
    include_dirs.push(bytes_of("Middlewares/ST/STM32_WPAN/mac_802_15_4/mac_utilities/inc"));
    include_dirs.push(bytes_of("Middlewares/ST/STM32_WPAN/link_layer/ll_sys/inc"));
    include_dirs.push(bytes_of("Middlewares/ST/STM32_WPAN/link_layer/ll_cmd_lib/inc"));
    include_dirs.push(bytes_of("Middlewares/ST/STM32_WPAN/link_layer/ll_cmd_lib/inc/_40nm_reg_files"));
    include_dirs.push(bytes_of("Middlewares/ST/STM32_WPAN/link_layer/ll_cmd_lib/inc/ot_inc"));
    include_dirs.push(bytes_of("Middlewares/ST/STM32_WPAN/link_layer/ll_cmd_lib/config"));
    include_dirs.push(bytes_of("Middlewares/ST/STM32_WPAN/link_layer/ll_cmd_lib/config/ieee_15_4_basic"));
    include_dirs.push(bytes_of("Drivers/CMSIS/Core/Include"));
    let mut clang_args: Vec<Vec<u8>> = Vec::new();
    clang_args.push(bytes_of("-DSUPPORT_MAC=1"));
    clang_args.push(bytes_of("-DSUPPORT_BLE=1"));
    clang_args.push(bytes_of("-DMAC=1"));
    clang_args.push(bytes_of("-DBLE=1"));
    clang_args.push(bytes_of("-DBLE_LL=1"));
    clang_args.push(bytes_of("-DMAC_LAYER=1"));
    clang_args.push(bytes_of("-DSUPPORT_MAC=1"));
    clang_args.push(bytes_of("-DSUPPORT_CONFIG_LIB=1"));
    clang_args.push(bytes_of("-DSUPPORT_OPENTHREAD_1_2=1"));
    clang_args.push(bytes_of("-DSUPPORT_ANT_DIV=1"));
    clang_args.push(bytes_of("-DEXT_ADDRESS_LENGTH=8"));
    let mut library_artifacts: Vec<LibraryArtifact> = Vec::new();
    library_artifacts.push(
        artifact("Middlewares/ST/STM32_WPAN/link_layer/ll_cmd_lib/lib", "src/lib/link_layer"),
    );
    let spec = BindingSpec {
        module: module_link_layer_vec(),
        header: bytes_of("stm32-bindings-gen/inc/link_layer.h"),
        include_dirs,
        clang_args,
        allowlist: Vec::new(),
        library_artifacts,
    };
    let mut out: Vec<BindingSpec> = Vec::new();
    out.push(spec);
    out
}

/// The binding group of the BLE stack.
pub fn ble_bindings() -> (r: Vec<BindingSpec>)
    ensures
        r@.len() == 1,
        r@[0].module@ == module_ble_stack(),
        r@[0].allowlist@.len() == 0,
        r@[0].include_dirs@.len() == 13,
        r@[0].clang_args@.len() == 10,
        r@[0].library_artifacts@.len() == 4,
{
    let mut include_dirs: Vec<Vec<u8>> = Vec::new();
    include_dirs.push(bytes_of("Middlewares/ST/STM32_WPAN"));
    include_dirs.push(bytes_of("Middlewares/ST/STM32_WPAN/ble/stack/include"));
    include_dirs.push(bytes_of("Middlewares/ST/STM32_WPAN/ble/stack/include/auto"));
    include_dirs.push(bytes_of("Middlewares/ST/STM32_WPAN/link_layer/ll_sys/inc"));
    include_dirs.push(bytes_of("Middlewares/ST/STM32_WPAN/link_layer/ll_cmd_lib/inc"));
    include_dirs.push(bytes_of("Middlewares/ST/STM32_WPAN/link_layer/ll_cmd_lib/inc/_40nm_reg_files"));
    include_dirs.push(bytes_of("Middlewares/ST/STM32_WPAN/link_layer/ll_cmd_lib/inc/ot_inc"));
    include_dirs.push(bytes_of("Middlewares/ST/STM32_WPAN/link_layer/ll_cmd_lib/config"));
    include_dirs.push(bytes_of("Middlewares/ST/STM32_WPAN/link_layer/ll_cmd_lib/config/ble_basic_plus"));
    include_dirs.push(bytes_of("Middlewares/ST/STM32_WPAN/ble/audio/Inc"));
    include_dirs.push(bytes_of("Middlewares/ST/STM32_WPAN/ble/codec/codec_manager/Inc"));
    include_dirs.push(bytes_of("Middlewares/ST/STM32_WPAN/ble/codec/lc3/Inc"));
    include_dirs.push(bytes_of("Drivers/CMSIS/Core/Include"));
    let mut clang_args: Vec<Vec<u8>> = Vec::new();
    clang_args.push(bytes_of("-DBLE=1"));
    clang_args.push(bytes_of("-DBLE_LL=1"));
    clang_args.push(bytes_of("-DSUPPORT_BLE=1"));
    clang_args.push(bytes_of("-DMAC=1"));
    clang_args.push(bytes_of("-DMAC_LAYER=1"));
    clang_args.push(bytes_of("-DSUPPORT_MAC=1"));
    clang_args.push(bytes_of("-DSUPPORT_CONFIG_LIB=1"));
    clang_args.push(bytes_of("-DSUPPORT_OPENTHREAD_1_2=1"));
    clang_args.push(bytes_of("-DSUPPORT_ANT_DIV=1"));
    clang_args.push(bytes_of("-DEXT_ADDRESS_LENGTH=8"));
    let mut library_artifacts: Vec<LibraryArtifact> = Vec::new();
    library_artifacts.push(
        artifact("Middlewares/ST/STM32_WPAN/ble/stack/lib", "src/lib/ble/stack"),
    );
    library_artifacts.push(
        artifact("Middlewares/ST/STM32_WPAN/ble/audio/lib", "src/lib/ble/audio"),
    );
    library_artifacts.push(
        artifact(
            "Middlewares/ST/STM32_WPAN/ble/codec/codec_manager/Lib",
            "src/lib/ble/codec_manager",
        ),
    );
    library_artifacts.push(
        artifact("Middlewares/ST/STM32_WPAN/ble/codec/lc3/Lib", "src/lib/ble/lc3"),
    );
    let spec = BindingSpec {
        module: module_ble_stack_vec(),
        header: bytes_of("stm32-bindings-gen/inc/wba_ble.h"),
        include_dirs,
        clang_args,
        allowlist: Vec::new(),
        library_artifacts,
    };
    let mut out: Vec<BindingSpec> = Vec::new();
    out.push(spec);
    out
}

/// The binding group of the IEEE 802.15.4 MAC.
pub fn mac_bindings() -> (r: Vec<BindingSpec>)
    ensures
        r@.len() == 1,
        r@[0].module@ == module_wpan_mac(),
        r@[0].allowlist@.len() == 0,
        r@[0].include_dirs@.len() == 10,
        r@[0].clang_args@.len() == 3,
        r@[0].library_artifacts@.len() == 2,
{
    let mut include_dirs: Vec<Vec<u8>> = Vec::new();
    include_dirs.push(bytes_of("Middlewares/ST/STM32_WPAN"));
    include_dirs.push(bytes_of("Middlewares/ST/STM32_WPAN/mac_802_15_4/core/inc"));
    include_dirs.push(bytes_of("Middlewares/ST/STM32_WPAN/mac_802_15_4/mac_utilities/inc"));
    include_dirs.push(bytes_of("Middlewares/ST/STM32_WPAN/link_layer/ll_sys/inc"));
    include_dirs.push(bytes_of("Middlewares/ST/STM32_WPAN/link_layer/ll_cmd_lib/inc"));
    include_dirs.push(bytes_of("Middlewares/ST/STM32_WPAN/link_layer/ll_cmd_lib/inc/_40nm_reg_files"));
    include_dirs.push(bytes_of("Middlewares/ST/STM32_WPAN/link_layer/ll_cmd_lib/inc/ot_inc"));
    include_dirs.push(bytes_of("Middlewares/ST/STM32_WPAN/link_layer/ll_cmd_lib/config"));
    include_dirs.push(bytes_of("Middlewares/ST/STM32_WPAN/link_layer/ll_cmd_lib/config/ieee_15_4_basic"));
    include_dirs.push(bytes_of("Drivers/CMSIS/Core/Include"));
    let mut clang_args: Vec<Vec<u8>> = Vec::new();
    clang_args.push(bytes_of("-DSUPPORT_MAC=1"));
    clang_args.push(bytes_of("-DMAC=1"));
    clang_args.push(bytes_of("-DMAC_LAYER=1"));
    let mut library_artifacts: Vec<LibraryArtifact> = Vec::new();
    library_artifacts.push(
        artifact("Middlewares/ST/STM32_WPAN/mac_802_15_4/lib", "src/lib/mac"),
    );
    library_artifacts.push(
        artifact("Middlewares/ST/STM32_WPAN/mac_802_15_4/lib/wba_mac_lib.a", "src/lib/wba_mac_lib.a"),
    );
    let spec = BindingSpec {
        module: module_wpan_mac_vec(),
        header: bytes_of("stm32-bindings-gen/inc/wba_wpan_mac.h"),
        include_dirs,
        clang_args,
        allowlist: Vec::new(),
        library_artifacts,
    };
    let mut out: Vec<BindingSpec> = Vec::new();
    out.push(spec);
    out
}

/// The full catalog: one output package carrying the link-layer, BLE and
/// MAC binding groups, in that order.
pub fn crate_specs() -> (r: Vec<CrateSpec>)
    ensures
        r@.len() == 1,
        r@[0].bindings@.len() == 3,
        r@[0].bindings@[0]@.len() == 1,
        r@[0].bindings@[1]@.len() == 1,
        r@[0].bindings@[2]@.len() == 1,
        r@[0].bindings@[0]@[0].module@ == module_link_layer(),
        r@[0].bindings@[1]@[0].module@ == module_ble_stack(),
        r@[0].bindings@[2]@[0].module@ == module_wpan_mac(),
{
    let mut bindings: Vec<Vec<BindingSpec>> = Vec::new();
    bindings.push(linklayer_bindings());
    bindings.push(ble_bindings());
    bindings.push(mac_bindings());
    let spec = CrateSpec {
        name: bytes_of("linklayer-bindings"),
        template: bytes_of("linklayer"),
        bindings,
    };
    let mut out: Vec<CrateSpec> = Vec::new();
    out.push(spec);
    out
}

/// Invariant of the catalog: the binding module names within the package
/// are pairwise distinct, as the module aggregator assumes.
pub proof fn lemma_catalog_modules_unique()
    ensures
        module_link_layer() != module_ble_stack(),
        module_link_layer() != module_wpan_mac(),
        module_ble_stack() != module_wpan_mac(),
{
    assert(module_link_layer()[4] != module_ble_stack()[4]);
    assert(module_link_layer()[4] != module_wpan_mac()[4]);
    assert(module_ble_stack()[4] != module_wpan_mac()[4]);
}

} // verus!
