use rustdoc_render::loader::parse_json_text;
use rustdoc_render::parse::{parse, parse_item, parse_type};
use rustdoc_render::schema::TypeExpr;

#[test]
fn parse_minimal_document() {
    let text = r#"{"root":"/src/lib.rs","crate_version":"1.0.0","includes_private":false,"index":{}}"#;
    let doc = parse(text).unwrap();
    assert_eq!(doc.root, "/src/lib.rs");
    assert_eq!(doc.crate_version, "1.0.0");
    assert!(!doc.includes_private);
    assert_eq!(doc.index.len(), 0);
}

#[test]
fn parse_rejects_malformed_text() {
    assert!(parse("{not json").is_err());
}

#[test]
fn parse_rejects_missing_required_field() {
    let text = r#"{"root":"/r","includes_private":false,"index":{}}"#;
    assert!(parse(text).is_err());
}

#[test]
fn parse_rejects_mismatched_field_type() {
    let text = r#"{"root":42,"crate_version":"1","includes_private":false,"index":{}}"#;
    assert!(parse(text).is_err());
}

#[test]
fn parse_type_primitive() {
    let j = parse_json_text(r#"{"primitive":"i32"}"#).unwrap();
    let t = parse_type(&j).unwrap();
    assert_eq!(t.render(), "i32");
}

#[test]
fn parse_type_rejects_zero_tags() {
    let j = parse_json_text(r#"{}"#).unwrap();
    assert!(parse_type(&j).is_err());
}

#[test]
fn parse_type_rejects_two_tags() {
    let j = parse_json_text(r#"{"primitive":"u8","generic":"T"}"#).unwrap();
    assert!(parse_type(&j).is_err());
}

#[test]
fn parse_type_nested_reference() {
    let j = parse_json_text(
        r#"{"borrowed_ref":{"lifetime":"'a","mutable":true,"type":{"primitive":"i32"}}}"#,
    )
    .unwrap();
    let t = parse_type(&j).unwrap();
    assert_eq!(t.render(), "&'a mut i32");
}

#[test]
fn parse_type_rejects_reference_without_mutability() {
    let j = parse_json_text(r#"{"borrowed_ref":{"type":{"primitive":"i32"}}}"#).unwrap();
    assert!(parse_type(&j).is_err());
}

#[test]
fn parse_type_tuple_and_array() {
    let j = parse_json_text(
        r#"{"tuple":[{"primitive":"u8"},{"array":{"len":"3","type":{"primitive":"u16"}}}]}"#,
    )
    .unwrap();
    let t = parse_type(&j).unwrap();
    assert_eq!(t.render(), "(u8, [u16; 3])");
}

#[test]
fn parse_type_resolved_path_with_args() {
    let j = parse_json_text(
        r#"{"resolved_path":{"name":"Vec","id":"0:7","args":{"angle_bracketed":{"args":[{"type":{"primitive":"u8"}}]}}}}"#,
    )
    .unwrap();
    let t = parse_type(&j).unwrap();
    assert_eq!(t.render(), "Vec<u8>");
    match &t {
        TypeExpr::ResolvedPath(p) => assert_eq!(p.id.as_deref(), Some("0:7")),
        _ => panic!("expected a resolved path"),
    }
}

#[test]
fn parse_type_dyn_trait() {
    let j = parse_json_text(
        r#"{"dyn_trait":{"lifetime":null,"traits":[
            {"generic_params":[],"trait":{"name":"Iterator"}},
            {"generic_params":[],"trait":{"name":"Send"}}]}}"#,
    )
    .unwrap();
    let t = parse_type(&j).unwrap();
    assert_eq!(t.render(), "dyn Iterator + Send");
}

#[test]
fn parse_type_impl_trait() {
    let j = parse_json_text(
        r#"{"impl_trait":[{"trait_bound":{"generic_params":[{}],"modifier":"maybe","trait":{"name":"Sized"}}}]}"#,
    )
    .unwrap();
    let t = parse_type(&j).unwrap();
    assert_eq!(t.render(), "impl Sized");
}

#[test]
fn parse_type_qualified_path() {
    let j = parse_json_text(
        r#"{"qualified_path":{"name":"Output","self_type":{"generic":"T"},"trait":{"name":"Add"}}}"#,
    )
    .unwrap();
    let t = parse_type(&j).unwrap();
    assert_eq!(t.render(), "Output");
}

#[test]
fn parse_type_generic_arg_binding() {
    let j = parse_json_text(
        r#"{"resolved_path":{"name":"Iterator","args":{"angle_bracketed":{"args":[],
            "bindings":[{"name":"Item","binding":{"equality":{"type":{"primitive":"u8"}}}}]}}}}"#,
    )
    .unwrap();
    let t = parse_type(&j).unwrap();
    assert_eq!(t.render(), "Iterator");
}

#[test]
fn parse_item_both_inner_keys_fail() {
    let j = parse_json_text(
        r#"{"name":"x","docs":"d","inner":{
            "function":{"decl":{"inputs":[],"c_variadic":false}},
            "enum":{"variants":[],"variants_stripped":false}}}"#,
    )
    .unwrap();
    assert!(parse_item(&j).is_err());
}

#[test]
fn parse_item_unrecognized_inner_kind_is_kept_empty() {
    let j = parse_json_text(r#"{"name":"S","docs":"a struct","inner":{"struct":{"kind":"unit"}}}"#)
        .unwrap();
    let item = parse_item(&j).unwrap();
    assert!(item.inner.is_none());
    assert_eq!(item.name.as_deref(), Some("S"));
}

#[test]
fn parse_item_null_docs_means_absent() {
    let j = parse_json_text(r#"{"name":"x","docs":null}"#).unwrap();
    let item = parse_item(&j).unwrap();
    assert!(item.docs.is_none());
}

#[test]
fn parse_item_number_payload_elsewhere_is_tolerated() {
    let j = parse_json_text(r#"{"name":"x","docs":"d","span":17}"#).unwrap();
    let item = parse_item(&j).unwrap();
    assert_eq!(item.docs.as_deref(), Some("d"));
}

#[test]
fn test_parse_individual() {
    // Each item of an index parses on its own.
    let text = r#"{"root":"/r","crate_version":"1","includes_private":false,"index":{
        "0:1":{"name":"add","docs":"Adds.","inner":{"function":{"decl":{
            "inputs":[["a",{"primitive":"i32"}],["b",{"primitive":"i32"}]],
            "output":{"primitive":"i32"},"c_variadic":false}}}},
        "0:2":{"name":"Color","docs":"A color.","inner":{"enum":{
            "variants":["0:3"],"variants_stripped":false}}},
        "0:3":{"name":"Red","docs":"The warm one."},
        "1:4":{"name":"External","docs":"From elsewhere."}}}"#;
    let j = parse_json_text(text).unwrap();
    let doc = parse(text).unwrap();
    assert_eq!(doc.index.len(), 4);
    match &j {
        rustdoc_render::json::JsonValue::Obj(entries) => {
            let index = entries
                .iter()
                .find(|(k, _)| k == "index")
                .map(|(_, v)| v)
                .expect("Expected 'index' to be present");
            match index {
                rustdoc_render::json::JsonValue::Obj(items) => {
                    let mut num_parsed = 0;
                    for (id, item_value) in items {
                        match parse_item(item_value) {
                            Ok(_) => num_parsed += 1,
                            Err(e) => panic!(
                                "Failed to parse item {id}: {} ({num_parsed} parsed)",
                                e.path
                            ),
                        }
                    }
                    assert_eq!(num_parsed, 4);
                },
                _ => panic!("Expected 'index' to be an object"),
            }
        },
        _ => panic!("Expected the document to be an object"),
    }
}

#[test]
fn test_parse_all() {
    let text = r#"{"root":"/r","crate_version":"1","includes_private":false,"index":{
        "0:1":{"name":"add","docs":"Adds.","inner":{"function":{"decl":{
            "inputs":[["a",{"primitive":"i32"}]],"output":null,"c_variadic":false}}}}}}"#;
    let doc = parse(text).unwrap();
    let out = doc.render();
    assert!(out.contains("pub fn add(a: i32);"));
}
