use abi_converter::naming::{
    clean_name, export_name, export_name_from_upper, module_source, output_file_name,
    replace_str,
};

#[test]
fn strips_dot_abi_suffix() {
    assert_eq!(clean_name("clob.abi"), "clob");
}

#[test]
fn strips_dash_abi_suffix() {
    assert_eq!(clean_name("clob-abi"), "clob");
}

#[test]
fn strips_underscore_abi_suffix() {
    assert_eq!(clean_name("clob_abi"), "clob");
}

#[test]
fn keeps_stem_without_suffix() {
    assert_eq!(clean_name("clob"), "clob");
}

#[test]
fn strips_suffixes_in_fixed_order() {
    // ".abi" goes first and uncovers "-abi", which goes next.
    assert_eq!(clean_name("foo.abi-abi"), "foo");
    assert_eq!(clean_name("a_abi.abi"), "a");
    assert_eq!(clean_name("x.ABI"), "x.ABI");
}

#[test]
fn identifier_from_dashes_and_dots() {
    assert_eq!(export_name("my-contract.v2"), "MY_CONTRACT_V2_ABI");
}

#[test]
fn identifier_of_trading() {
    assert_eq!(export_name(&clean_name("trading.abi")), "TRADING_ABI");
}

#[test]
fn identifier_upper_cases_non_ascii() {
    assert_eq!(export_name("straße"), "STRASSE_ABI");
}

#[test]
fn identifier_from_upper_only_replaces() {
    assert_eq!(export_name_from_upper("ab-c.d"), "ab_c_d_ABI");
    assert_eq!(export_name_from_upper(""), "_ABI");
}

#[test]
fn naming_is_deterministic() {
    for f in ["clob.abi", "my-contract.v2", "x_abi.y", ""] {
        assert_eq!(export_name(&clean_name(f)), export_name(&clean_name(f)));
        assert_eq!(output_file_name(&clean_name(f)), output_file_name(&clean_name(f)));
    }
}

#[test]
fn file_name_replaces_dots() {
    assert_eq!(output_file_name("clob"), "clob.ts");
    assert_eq!(output_file_name("my-contract.v2"), "my-contract-v2.ts");
    assert_eq!(output_file_name("a.b.c"), "a-b-c.ts");
}

#[test]
fn replace_scans_left_to_right() {
    assert_eq!(replace_str("aaa", "aa", "b"), "ba");
    assert_eq!(replace_str("abc", "x", "y"), "abc");
    assert_eq!(replace_str("", "x", "y"), "");
    assert_eq!(replace_str("a.b.", ".", "--"), "a--b--");
    assert_eq!(replace_str("éé", "é", "e"), "ee");
}

#[test]
fn module_source_shape() {
    assert_eq!(module_source("X_ABI", "[]"), "export const X_ABI = [] as const;\n");
}
