use decl_labels::node::{Child, ConstDef, FnDef, GenericParam, MacroCall, RetType, TypeAliasDef,
    TypeParamList, WhereClause};
use decl_labels::render::{const_label, function_declaration, generic_parameters, macro_label,
    type_label, where_predicates};

fn empty_fn_def() -> FnDef {
    FnDef {
        visibility: None,
        is_async: false,
        is_const: false,
        is_unsafe: false,
        abi: None,
        name: None,
        type_param_list: None,
        param_list: None,
        ret_type: None,
        where_clause: None,
    }
}

#[test]
fn signature_with_every_modifier() {
    let node = FnDef {
        visibility: Some("pub".to_string()),
        is_async: true,
        is_const: true,
        is_unsafe: true,
        abi: Some("extern \"C\"".to_string()),
        name: Some("foo".to_string()),
        type_param_list: Some(TypeParamList {
            text: "<T>".to_string(),
            params: vec![GenericParam::TypeParam("T".to_string())],
        }),
        param_list: Some("(t: T)".to_string()),
        ret_type: Some(RetType { text: "-> T".to_string(), has_type: true }),
        where_clause: Some(WhereClause {
            text: "where T: Copy".to_string(),
            predicates: vec!["T: Copy".to_string()],
        }),
    };
    assert_eq!(
        function_declaration(&node),
        "pub async const unsafe extern \"C\" fn foo<T>(t: T) -> T\nwhere T: Copy"
    );
}

#[test]
fn signature_plain() {
    let mut node = empty_fn_def();
    node.name = Some("new".to_string());
    node.param_list = Some("()".to_string());
    node.ret_type = Some(RetType { text: "-> Thing".to_string(), has_type: true });
    assert_eq!(function_declaration(&node), "fn new() -> Thing");
}

#[test]
fn signature_missing_name_still_renders() {
    let mut node = empty_fn_def();
    node.visibility = Some("pub(crate)".to_string());
    node.is_unsafe = true;
    node.param_list = Some("(x: i32)".to_string());
    assert_eq!(function_declaration(&node), "pub(crate) unsafe (x: i32)");
}

#[test]
fn signature_of_wholly_empty_node_is_empty() {
    assert_eq!(function_declaration(&empty_fn_def()), "");
}

#[test]
fn signature_suppresses_empty_return_type() {
    let mut node = empty_fn_def();
    node.name = Some("broken".to_string());
    node.param_list = Some("()".to_string());
    node.ret_type = Some(RetType { text: "->".to_string(), has_type: false });
    assert_eq!(function_declaration(&node), "fn broken()");
}

#[test]
fn signature_rendering_is_idempotent() {
    let mut node = empty_fn_def();
    node.visibility = Some("pub".to_string());
    node.name = Some("twice".to_string());
    node.param_list = Some("()".to_string());
    let first = function_declaration(&node);
    let second = function_declaration(&node);
    assert_eq!(first, second);
}

#[test]
fn const_label_excludes_comment_and_attribute() {
    let node = ConstDef {
        children: vec![
            Child::Comment("/* c */".to_string()),
            Child::Significant(" ".to_string()),
            Child::Attribute("#[attr]".to_string()),
            Child::Significant(" ".to_string()),
            Child::Significant("const X: i32 = 1;".to_string()),
        ],
    };
    assert_eq!(const_label(&node), "const X: i32 = 1;");
}

#[test]
fn const_label_keeps_attribute_nested_in_initializer() {
    // The filter is shallow: an attribute inside the initializer text is
    // not a direct child and survives.
    let node = ConstDef {
        children: vec![
            Child::Attribute("#[attr]".to_string()),
            Child::Significant(" ".to_string()),
            Child::Significant("const X: [i32; 1] = [#[allow(dead_code)] 1];".to_string()),
        ],
    };
    assert_eq!(const_label(&node), "const X: [i32; 1] = [#[allow(dead_code)] 1];");
}

#[test]
fn const_label_of_trivia_only_node_is_empty() {
    let node = ConstDef {
        children: vec![
            Child::Comment("// nothing".to_string()),
            Child::Significant(" \n ".to_string()),
        ],
    };
    assert_eq!(const_label(&node), "");
}

#[test]
fn const_label_trims_unicode_whitespace() {
    let node = ConstDef {
        children: vec![
            Child::Significant("\u{3000}\u{00A0}const A: u8 = 0;\u{2028} ".to_string()),
        ],
    };
    assert_eq!(const_label(&node), "const A: u8 = 0;");
}

#[test]
fn const_label_is_idempotent() {
    let node = ConstDef {
        children: vec![
            Child::Comment("/* c */".to_string()),
            Child::Significant(" const N: u8 = 7; ".to_string()),
        ],
    };
    assert_eq!(const_label(&node), const_label(&node));
}

#[test]
fn type_label_excludes_comment_and_attribute() {
    let node = TypeAliasDef {
        children: vec![
            Child::Comment("// alias".to_string()),
            Child::Significant("\n".to_string()),
            Child::Attribute("#[cfg(test)]".to_string()),
            Child::Significant("\n".to_string()),
            Child::Significant("type Result<T> = core::result::Result<T, Error>;".to_string()),
        ],
    };
    assert_eq!(type_label(&node), "type Result<T> = core::result::Result<T, Error>;");
}

#[test]
fn generic_parameters_orders_lifetimes_before_types() {
    let node = FnDef {
        type_param_list: Some(TypeParamList {
            text: "<'a, T, 'b, U>".to_string(),
            params: vec![
                GenericParam::Lifetime("'a".to_string()),
                GenericParam::TypeParam("T".to_string()),
                GenericParam::Lifetime("'b".to_string()),
                GenericParam::TypeParam("U".to_string()),
            ],
        }),
        ..empty_fn_def()
    };
    assert_eq!(generic_parameters(&node), vec!["'a", "'b", "T", "U"]);
}

#[test]
fn generic_parameters_keep_bounds_and_defaults() {
    let node = FnDef {
        type_param_list: Some(TypeParamList {
            text: "<'a: 'static, T: Clone = ()>".to_string(),
            params: vec![
                GenericParam::Lifetime("'a: 'static".to_string()),
                GenericParam::TypeParam("T: Clone = ()".to_string()),
            ],
        }),
        ..empty_fn_def()
    };
    assert_eq!(generic_parameters(&node), vec!["'a: 'static", "T: Clone = ()"]);
}

#[test]
fn generic_parameters_of_absent_list_is_empty() {
    let node = empty_fn_def();
    assert_eq!(generic_parameters(&node), Vec::<String>::new());
}

#[test]
fn where_predicates_in_source_order() {
    let node = FnDef {
        where_clause: Some(WhereClause {
            text: "where T: Clone, U: Copy".to_string(),
            predicates: vec!["T: Clone".to_string(), "U: Copy".to_string()],
        }),
        ..empty_fn_def()
    };
    assert_eq!(where_predicates(&node), vec!["T: Clone", "U: Copy"]);
}

#[test]
fn where_predicates_of_absent_clause_is_empty() {
    let node = empty_fn_def();
    assert_eq!(where_predicates(&node), Vec::<String>::new());
}

#[test]
fn macro_label_with_export_attribute() {
    let node = MacroCall {
        name: Some("foo".to_string()),
        atom_attrs: vec!["macro_export".to_string()],
    };
    assert_eq!(macro_label(&node), "#[macro_export]\nmacro_rules! foo");
}

#[test]
fn macro_label_without_export_attribute() {
    let node = MacroCall { name: Some("foo".to_string()), atom_attrs: vec![] };
    assert_eq!(macro_label(&node), "macro_rules! foo");
}

#[test]
fn macro_label_ignores_other_attributes() {
    let node = MacroCall {
        name: Some("bar".to_string()),
        atom_attrs: vec!["doc".to_string(), "macro_export".to_string(), "used".to_string()],
    };
    assert_eq!(macro_label(&node), "#[macro_export]\nmacro_rules! bar");
}

#[test]
fn macro_label_with_missing_name() {
    let node = MacroCall { name: None, atom_attrs: vec!["macro_export".to_string()] };
    assert_eq!(macro_label(&node), "#[macro_export]\nmacro_rules! ");
}

#[test]
fn macro_label_is_idempotent() {
    let node = MacroCall {
        name: Some("again".to_string()),
        atom_attrs: vec!["macro_export".to_string()],
    };
    assert_eq!(macro_label(&node), macro_label(&node));
}
