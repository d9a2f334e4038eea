use stm32_bindings_gen::normalize::{normalize_bindings, rewrite_prefixes, uppercase_const_line};

fn norm(s: &str) -> Vec<u8> {
    normalize_bindings(&s.as_bytes().to_vec())
}

#[test]
fn normalize_rewrites_each_unspaced_prefix() {
    assert_eq!(norm("::std::mem::size_of"), b"::core::mem::size_of\n".to_vec());
    assert_eq!(norm("::std::os::raw::c_char"), b"::core::ffi::c_char\n".to_vec());
    assert_eq!(norm("::std::option::Option"), b"::core::option::Option\n".to_vec());
    assert_eq!(norm("::std::ptr::null"), b"::core::ptr::null\n".to_vec());
}

#[test]
fn normalize_rewrites_each_spaced_prefix() {
    assert_eq!(norm(":: std :: mem :: size_of"), b":: core :: mem :: size_of\n".to_vec());
    assert_eq!(norm(":: std :: os :: raw :: c_int"), b":: core :: ffi :: c_int\n".to_vec());
    assert_eq!(norm(":: std :: option :: Option"), b":: core :: option :: Option\n".to_vec());
    assert_eq!(norm(":: std :: ptr :: null"), b":: core :: ptr :: null\n".to_vec());
}

#[test]
fn normalize_rewrites_every_occurrence_and_keeps_other_text() {
    let input = "fn f(a: ::std::ptr::NonNull<u8>, b: ::std::ptr::NonNull<u8>) {}";
    let expected = b"fn f(a: ::core::ptr::NonNull<u8>, b: ::core::ptr::NonNull<u8>) {}\n".to_vec();
    assert_eq!(norm(input), expected);
}

#[test]
fn rewrite_leaves_unrelated_text_untouched() {
    let input = b"::std::vec::Vec and std::mem:: and ::std::mem:".to_vec();
    assert_eq!(rewrite_prefixes(&input), input);
}

#[test]
fn normalize_uppercases_public_constant_names() {
    let input = "pub const wba_version: u32 = 5;";
    let expected = b"pub const WBA_VERSION: u32 = 5;\n".to_vec();
    assert_eq!(norm(input), expected);
}

#[test]
fn normalize_trims_constant_names_before_uppercasing() {
    let line = b"pub const  spaced_name : u8 = 1;".to_vec();
    let out = uppercase_const_line(&line);
    assert_eq!(out, b"pub const SPACED_NAME: u8 = 1;".to_vec());
}

#[test]
fn normalize_keeps_non_constant_lines_byte_identical() {
    let line = b"pub fn lower_case() {}".to_vec();
    assert_eq!(uppercase_const_line(&line), line);
    let no_colon = b"pub const FOO = 1".to_vec();
    assert_eq!(uppercase_const_line(&no_colon), no_colon);
}

#[test]
fn normalize_guarantees_exactly_one_trailing_newline() {
    assert_eq!(norm("x"), b"x\n".to_vec());
    assert_eq!(norm("x\n"), b"x\n".to_vec());
    assert_eq!(norm("x\n\n"), b"x\n".to_vec());
    assert_eq!(norm(""), b"\n".to_vec());
}

#[test]
fn normalize_keeps_interior_blank_lines() {
    assert_eq!(norm("a\n\nb"), b"a\n\nb\n".to_vec());
}

#[test]
fn normalize_is_idempotent_on_generated_text() {
    let input = "pub const wba_max: u16 = 512;\nextern \"C\" { pub fn f(p: ::std::ptr::NonNull<u8>); }\npub type c = :: std :: os :: raw :: c_uint;\n\n";
    let once = norm(input);
    let twice = normalize_bindings(&once);
    assert_eq!(once, twice);
}

#[test]
fn normalize_is_idempotent_on_already_clean_text() {
    let input = "pub const A: u8 = 0;\n";
    let once = norm(input);
    assert_eq!(once, input.as_bytes().to_vec());
    assert_eq!(normalize_bindings(&once), once);
}
