use rustdoc_render::parse::parse;

const ADD_DOC: &str = r#"{"root":"/r","crate_version":"0.1.0","includes_private":false,"index":{
    "0:1":{"name":"add","docs":"Adds two numbers.","inner":{"function":{"decl":{
        "inputs":[["a",{"primitive":"i32"}],["b",{"primitive":"i32"}]],
        "output":{"primitive":"i32"},"c_variadic":false}}}},
    "0:9":{"name":"undocumented"}}}"#;

#[test]
fn render_item_function_block_and_comment() {
    let doc = parse(ADD_DOC).unwrap();
    let out = doc.render_item("0:1").unwrap();
    assert_eq!(
        out,
        "---\n\n`add`:\n\n```rust\npub fn add(a: i32, b: i32) -> i32;\n```\n\nAdds two numbers.\n\n"
    );
}

#[test]
fn render_item_without_comment_is_none() {
    let doc = parse(ADD_DOC).unwrap();
    assert!(doc.render_item("0:9").is_none());
}

#[test]
fn render_item_unknown_id_is_none() {
    let doc = parse(ADD_DOC).unwrap();
    assert!(doc.render_item("0:404").is_none());
}

#[test]
fn resolve_finds_items_by_id() {
    let doc = parse(ADD_DOC).unwrap();
    let item = doc.resolve("0:1").unwrap();
    assert_eq!(item.name.as_deref(), Some("add"));
    assert!(doc.resolve("9:9").is_none());
}

#[test]
fn enum_body_skips_unresolved_variant() {
    let text = r#"{"root":"/r","crate_version":"1","includes_private":false,"index":{
        "0:1":{"name":"Color","docs":"A color.","inner":{"enum":{
            "variants":["0:2","0:99"],"variants_stripped":false}}},
        "0:2":{"name":"Red","docs":"The warm one."}}}"#;
    let doc = parse(text).unwrap();
    let out = doc.render_item("0:1").unwrap();
    assert_eq!(
        out,
        "---\n\n`Color`:\n\n```rust\npub enum Color {\n    /// The warm one.\n    Red,\n}\n```\n\nA color.\n\n"
    );
}

#[test]
fn enum_variant_without_docs_gets_name_line_only() {
    let text = r#"{"root":"/r","crate_version":"1","includes_private":false,"index":{
        "0:1":{"name":"Color","docs":"c","inner":{"enum":{
            "variants":["0:2"],"variants_stripped":true}}},
        "0:2":{"name":"Blue"}}}"#;
    let doc = parse(text).unwrap();
    let out = doc.render_item("0:1").unwrap();
    assert_eq!(out, "---\n\n`Color`:\n\n```rust\npub enum Color {\n    Blue,\n}\n```\n\nc\n\n");
}

#[test]
fn document_render_keeps_owner_items_only() {
    let text = r#"{"root":"/lib.rs","crate_version":"2.0","includes_private":true,"index":{
        "0:1":{"name":"go","docs":"Runs.","inner":{"function":{"decl":{
            "inputs":[],"c_variadic":false}}}},
        "1:5":{"name":"outside","docs":"Re-exported."}}}"#;
    let doc = parse(text).unwrap();
    let out = doc.render();
    assert_eq!(
        out,
        "Crate Documentation\n==================\n\nRoot: /lib.rs\nVersion: 2.0\nIncludes private items: true\n\nItems\n-----\n\n---\n\n`go`:\n\n```rust\npub fn go();\n```\n\nRuns.\n\n"
    );
}

#[test]
fn document_render_item_order_is_deterministic() {
    // The loader hands object entries over ordered by key, and the index
    // keeps the loader's order, so output order is deterministic.
    let text = r#"{"root":"/r","crate_version":"1","includes_private":false,"index":{
        "0:2":{"name":"b","docs":"later by identifier."},
        "0:1":{"name":"a","docs":"earlier by identifier."}}}"#;
    let doc = parse(text).unwrap();
    let out = doc.render();
    let a_at = out.find("`a`:").unwrap();
    let b_at = out.find("`b`:").unwrap();
    assert!(a_at < b_at);
    assert_eq!(out, doc.render());
}
