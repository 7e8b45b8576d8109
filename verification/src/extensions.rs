//! The native-extension registry: the small, fixed set of host functions the
//! engine exposes to script code as callable built-ins. Each registration
//! pairs a unique extension name with an ordered list of operations and one
//! bootstrap module that is evaluated before the main script and surfaces
//! the operations under script-visible names. The mechanism is purely
//! additive: the host works identically with an empty registry.

use vstd::prelude::*;

verus! {

/// One registered extension: its unique name, its operations in order, and
/// the bootstrap module evaluated before the main script.
pub struct ExtensionSpec {
    pub name: String,
    pub ops: Vec<String>,
    pub bootstrap_module: String,
}

/// Well-formedness of one registration: the name is non-empty and the
/// bootstrap module lives under the extension's own `ext:<name>/` scope.
pub open spec fn extension_wf(e: ExtensionSpec) -> bool {
    &&& e.name@.len() > 0
    &&& e.bootstrap_module@.len() > e.name@.len() + 5
    &&& e.bootstrap_module@.take(e.name@.len() as int + 5) == "ext:"@ + e.name@ + "/"@
}

/// Well-formedness of a registry: every entry well-formed, names pairwise
/// distinct.
pub open spec fn registry_wf(s: Seq<ExtensionSpec>) -> bool {
    &&& forall|i: int| 0 <= i < s.len() ==> extension_wf(#[trigger] s[i])
    &&& forall|i: int, j: int| 0 <= i < j < s.len() ==> #[trigger] s[i].name@ != #[trigger] s[j].name@
}

/// The operation the first extension exposes: the operator's document
/// directory, or an explicit absence when the system has none. Only the
/// driver can ask the system, so it lives there; this is its name.
pub fn document_dir_op_name() -> (s: String)
    ensures
        s@ == "custom_op_document_dir"@,
{
    String::from_str("custom_op_document_dir")
}

/// The operation the second extension exposes to script code: a fixed tag.
pub fn custom_op_my_op2() -> (r: String)
    ensures
        r@ == "my_op2"@,
{
    String::from_str("my_op2")
}

/// The registry this host installs: two extensions, in registration order.
/// The returned registry is well-formed and carries exactly the documented
/// names, operations and bootstrap modules.
pub fn host_extensions() -> (v: Vec<ExtensionSpec>)
    ensures
        registry_wf(v@),
        v@.len() == 2,
        v@[0].name@ == "runtime_extension"@,
        v@[0].ops@.len() == 1,
        v@[0].ops@[0]@ == "custom_op_document_dir"@,
        v@[0].bootstrap_module@ == "ext:runtime_extension/mod.js"@,
        v@[1].name@ == "my_ext2"@,
        v@[1].ops@.len() == 1,
        v@[1].ops@[0]@ == "custom_op_my_op2"@,
        v@[1].bootstrap_module@ == "ext:my_ext2/my_ext.js"@,
{
    proof {
        reveal_strlit("runtime_extension");
        reveal_strlit("ext:runtime_extension/mod.js");
        reveal_strlit("my_ext2");
        reveal_strlit("ext:my_ext2/my_ext.js");
        reveal_strlit("ext:");
        reveal_strlit("/");
    }
    let mut ops0: Vec<String> = Vec::new();
    ops0.push(document_dir_op_name());
    let first = ExtensionSpec {
        name: String::from_str("runtime_extension"),
        ops: ops0,
        bootstrap_module: String::from_str("ext:runtime_extension/mod.js"),
    };
    let mut ops1: Vec<String> = Vec::new();
    ops1.push(String::from_str("custom_op_my_op2"));
    let second = ExtensionSpec {
        name: String::from_str("my_ext2"),
        ops: ops1,
        bootstrap_module: String::from_str("ext:my_ext2/my_ext.js"),
    };
    let mut v: Vec<ExtensionSpec> = Vec::new();
    v.push(first);
    v.push(second);
    proof {
        assert(v@[0].bootstrap_module@.take(v@[0].name@.len() as int + 5) =~= "ext:"@ + v@[0].name@
            + "/"@);
        assert(v@[1].bootstrap_module@.take(v@[1].name@.len() as int + 5) =~= "ext:"@ + v@[1].name@
            + "/"@);
        assert(v@[0].name@ != v@[1].name@);
    }
    v
}

} // verus!
