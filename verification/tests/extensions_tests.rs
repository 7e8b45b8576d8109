use script_host::extensions::custom_op_my_op2;
use script_host::extensions::document_dir_op_name;
use script_host::extensions::host_extensions;

#[test]
fn fixed_op_returns_its_tag() {
    assert_eq!(custom_op_my_op2(), "my_op2");
}

#[test]
fn registry_holds_both_extensions_in_order() {
    let v = host_extensions();
    assert_eq!(v.len(), 2);
    assert_eq!(v[0].name, "runtime_extension");
    assert_eq!(v[0].ops, vec!["custom_op_document_dir"]);
    assert_eq!(v[0].bootstrap_module, "ext:runtime_extension/mod.js");
    assert_eq!(v[1].name, "my_ext2");
    assert_eq!(v[1].ops, vec!["custom_op_my_op2"]);
    assert_eq!(v[1].bootstrap_module, "ext:my_ext2/my_ext.js");
}

#[test]
fn registry_names_are_distinct_and_scoped() {
    let v = host_extensions();
    assert_ne!(v[0].name, v[1].name);
    for e in &v {
        assert!(!e.name.is_empty());
        let scope = format!("ext:{}/", e.name);
        assert!(e.bootstrap_module.starts_with(&scope));
    }
    assert_eq!(document_dir_op_name(), "custom_op_document_dir");
}
