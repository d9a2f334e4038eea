use stm32_bindings_gen::toolchain::{
    assemble_toolchain_args, include_candidates, parse_include_trace, ToolchainProbe,
};

fn v(s: &str) -> Vec<u8> {
    s.as_bytes().to_vec()
}

fn empty_probe() -> ToolchainProbe {
    ToolchainProbe {
        env_sysroot: None,
        gcc_sysroot: None,
        gcc_include_dir: None,
        gcc_libgcc_path: None,
        include_trace: None,
        extra_include_dirs: Vec::new(),
    }
}

#[test]
fn probing_the_same_sysroot_twice_emits_one_sysroot_flag() {
    let mut probe = empty_probe();
    probe.env_sysroot = Some(v("/opt/sysroot"));
    probe.gcc_sysroot = Some(v("/opt/sysroot\n"));
    let args = assemble_toolchain_args(&probe, &Vec::new());
    assert_eq!(args, vec![v("--sysroot=/opt/sysroot")]);
}

#[test]
fn distinct_sysroots_each_get_a_flag() {
    let mut probe = empty_probe();
    probe.env_sysroot = Some(v("/a"));
    probe.gcc_sysroot = Some(v("/b\n"));
    let args = assemble_toolchain_args(&probe, &Vec::new());
    assert_eq!(args, vec![v("--sysroot=/a"), v("--sysroot=/b")]);
}

#[test]
fn toolchain_args_never_repeat_a_flag() {
    let mut probe = empty_probe();
    probe.env_sysroot = Some(v("/sr"));
    probe.gcc_sysroot = Some(v("/sr"));
    let surviving = vec![v("/sr/include"), v("/sr/include"), v("/other")];
    let args = assemble_toolchain_args(&probe, &surviving);
    assert_eq!(
        args,
        vec![v("--sysroot=/sr"), v("-isystem/sr/include"), v("-isystem/other")]
    );
    for i in 0..args.len() {
        for j in (i + 1)..args.len() {
            assert_ne!(args[i], args[j]);
        }
    }
}

#[test]
fn sysroot_candidates_cover_the_standard_subdirectories() {
    let mut probe = empty_probe();
    probe.env_sysroot = Some(v("/sr"));
    let dirs = include_candidates(&probe);
    assert_eq!(
        dirs,
        vec![
            v("/sr/include"),
            v("/sr/include-fixed"),
            v("/sr/usr/include"),
            v("/sr/usr/include/newlib"),
            v("/sr/arm-none-eabi/include"),
        ]
    );
}

#[test]
fn candidate_directories_are_deduplicated_and_order_stable() {
    let mut probe = empty_probe();
    probe.env_sysroot = Some(v("/sr"));
    probe.gcc_sysroot = Some(v("  /sr \n"));
    probe.extra_include_dirs = vec![v("/extra"), v("/sr/include")];
    let dirs = include_candidates(&probe);
    assert_eq!(
        dirs,
        vec![
            v("/sr/include"),
            v("/sr/include-fixed"),
            v("/sr/usr/include"),
            v("/sr/usr/include/newlib"),
            v("/sr/arm-none-eabi/include"),
            v("/extra"),
        ]
    );
}

#[test]
fn bare_include_answer_contributes_nothing() {
    let mut probe = empty_probe();
    probe.gcc_include_dir = Some(v("include\n"));
    assert_eq!(include_candidates(&probe), Vec::<Vec<u8>>::new());
    probe.gcc_include_dir = Some(v("/gcc/include\n"));
    assert_eq!(include_candidates(&probe), vec![v("/gcc/include")]);
}

#[test]
fn libgcc_path_yields_version_qualified_directories() {
    let mut probe = empty_probe();
    probe.gcc_libgcc_path = Some(v("/tc/lib/gcc/13.2.1/libgcc.a\n"));
    let dirs = include_candidates(&probe);
    assert_eq!(
        dirs,
        vec![
            v("/tc/lib/gcc/13.2.1/include"),
            v("/tc/lib/gcc/13.2.1/include-fixed"),
            v("/tc/lib/gcc/include/c++/13.2.1"),
            v("/tc/lib/gcc/include/c++/13.2.1/arm-none-eabi"),
        ]
    );
}

#[test]
fn trace_parsing_keeps_absolute_directories_between_markers() {
    let trace = "\
ignoring nonexistent directory \"/bad\"\n\
#include <...> search starts here:\n\
 /usr/lib/gcc/include\n\
 relative/path\n\
\n\
 /usr/include (framework directory)\n\
End of search list.\n\
 /after/the/end\n";
    let dirs = parse_include_trace(&v(trace));
    assert_eq!(dirs, vec![v("/usr/lib/gcc/include"), v("/usr/include")]);
}

#[test]
fn trace_without_markers_yields_nothing() {
    let dirs = parse_include_trace(&v("no markers here\n/just/lines\n"));
    assert_eq!(dirs, Vec::<Vec<u8>>::new());
}

#[test]
fn probing_twice_with_the_same_inputs_is_deterministic() {
    let mut probe = empty_probe();
    probe.env_sysroot = Some(v("/sr"));
    probe.gcc_libgcc_path = Some(v("/tc/lib/gcc/13.2.1/libgcc.a"));
    let first = include_candidates(&probe);
    let second = include_candidates(&probe);
    assert_eq!(first, second);
    let surviving = first.clone();
    let a1 = assemble_toolchain_args(&probe, &surviving);
    let a2 = assemble_toolchain_args(&probe, &surviving);
    assert_eq!(a1, a2);
}

#[test]
fn repeated_framework_annotations_are_all_stripped() {
    let trace = "\
#include <...> search starts here:\n\
 (framework directory) (framework directory) /fw/a\n\
 /fw/b (framework directory) (framework directory)\n\
End of search list.\n";
    let dirs = parse_include_trace(&v(trace));
    assert_eq!(dirs, vec![v("/fw/a"), v("/fw/b")]);
}
