use rustdoc_render::schema::{
    AngleBracketed, ArrayType, BorrowedRef, DynTrait, FunctionDecl, GenericArg, GenericArgs,
    Parenthesized, QualifiedPath, RawPointer, ResolvedPath, SliceContent, TraitBound, TypeContent,
    TypeExpr,
};
use rustdoc_render::render::format_angle_bracketed_args;

fn prim(name: &str) -> TypeExpr {
    TypeExpr::Primitive(name.to_string())
}

fn path(name: &str, args: Option<GenericArgs>) -> ResolvedPath {
    ResolvedPath { name: name.to_string(), id: None, args }
}

fn bound(name: &str) -> TraitBound {
    TraitBound { generic_params: vec![], modifier: None, trait_: path(name, None) }
}

fn type_arg(primitive: &str) -> GenericArg {
    GenericArg::Type(TypeContent { primitive: Some(primitive.to_string()), slice: None })
}

#[test]
fn render_primitive_verbatim() {
    assert_eq!(prim("i32").render(), "i32");
    assert_eq!(prim("bool").render(), "bool");
    assert_eq!(prim("str").render(), "str");
}

#[test]
fn render_generic_verbatim() {
    assert_eq!(TypeExpr::Generic("T".to_string()).render(), "T");
}

#[test]
fn render_same_input_same_output() {
    let t = TypeExpr::Slice(Box::new(prim("u8")));
    assert_eq!(t.render(), t.render());
}

#[test]
fn render_slice_brackets_inner() {
    let t = TypeExpr::Slice(Box::new(prim("u8")));
    assert_eq!(t.render(), "[u8]");
    let nested = TypeExpr::Slice(Box::new(TypeExpr::Slice(Box::new(prim("u16")))));
    assert_eq!(nested.render(), "[[u16]]");
}

#[test]
fn render_array_with_length_expression() {
    let t = TypeExpr::Array(Box::new(ArrayType { inner: prim("u8"), len: "4".to_string() }));
    assert_eq!(t.render(), "[u8; 4]");
    let t2 = TypeExpr::Array(Box::new(ArrayType { inner: prim("i64"), len: "N * 2".to_string() }));
    assert_eq!(t2.render(), "[i64; N * 2]");
}

#[test]
fn render_tuple_empty_is_unit() {
    assert_eq!(TypeExpr::Tuple(vec![]).render(), "()");
}

#[test]
fn render_tuple_pair_comma_joined() {
    let t = TypeExpr::Tuple(vec![prim("i32"), prim("bool")]);
    assert_eq!(t.render(), "(i32, bool)");
    let t3 = TypeExpr::Tuple(vec![prim("u8"), prim("u16"), prim("u32")]);
    assert_eq!(t3.render(), "(u8, u16, u32)");
}

#[test]
fn render_borrowed_ref_lifetime_and_mut() {
    let t = TypeExpr::BorrowedRef(Box::new(BorrowedRef {
        lifetime: Some("'a".to_string()),
        mutable: true,
        inner: prim("i32"),
    }));
    assert_eq!(t.render(), "&'a mut i32");
}

#[test]
fn render_borrowed_ref_bare() {
    let t = TypeExpr::BorrowedRef(Box::new(BorrowedRef {
        lifetime: None,
        mutable: false,
        inner: prim("u8"),
    }));
    assert_eq!(t.render(), "&u8");
    let t2 = TypeExpr::BorrowedRef(Box::new(BorrowedRef {
        lifetime: Some("'s".to_string()),
        mutable: false,
        inner: prim("str"),
    }));
    assert_eq!(t2.render(), "&'s str");
}

#[test]
fn render_raw_pointer_const_and_mut() {
    let t = TypeExpr::RawPointer(Box::new(RawPointer { mutable: false, inner: prim("u8") }));
    assert_eq!(t.render(), "*const u8");
    let t2 = TypeExpr::RawPointer(Box::new(RawPointer { mutable: true, inner: prim("u8") }));
    assert_eq!(t2.render(), "*mut u8");
}

#[test]
fn render_resolved_path_with_and_without_args() {
    let args = GenericArgs::AngleBracketed(AngleBracketed {
        args: vec![type_arg("u8")],
        bindings: vec![],
    });
    let with_args = TypeExpr::ResolvedPath(Box::new(path("Vec", Some(args))));
    assert_eq!(with_args.render(), "Vec<u8>");
    let without = TypeExpr::ResolvedPath(Box::new(path("Vec", None)));
    assert_eq!(without.render(), "Vec");
}

#[test]
fn render_resolved_path_empty_args_is_not_angle_pair() {
    let args = GenericArgs::AngleBracketed(AngleBracketed { args: vec![], bindings: vec![] });
    let t = TypeExpr::ResolvedPath(Box::new(path("Vec", Some(args))));
    assert_eq!(t.render(), "Vec");
}

#[test]
fn render_resolved_path_parenthesized_args_dropped() {
    let args = GenericArgs::Parenthesized(Parenthesized { inputs: vec![prim("u8")], output: None });
    let t = TypeExpr::ResolvedPath(Box::new(path("Fn", Some(args))));
    assert_eq!(t.render(), "Fn");
}

#[test]
fn render_dyn_trait_plus_joined() {
    let t = TypeExpr::DynTrait(Box::new(DynTrait {
        lifetime: None,
        traits: vec![bound("Iterator"), bound("Send")],
    }));
    assert_eq!(t.render(), "dyn Iterator + Send");
}

#[test]
fn render_dyn_trait_bound_args_kept() {
    let args = GenericArgs::AngleBracketed(AngleBracketed {
        args: vec![type_arg("u8")],
        bindings: vec![],
    });
    let tb = TraitBound { generic_params: vec![], modifier: None, trait_: path("Iterator", Some(args)) };
    let t = TypeExpr::DynTrait(Box::new(DynTrait { lifetime: None, traits: vec![tb] }));
    assert_eq!(t.render(), "dyn Iterator<u8>");
}

#[test]
fn render_impl_trait_names_only() {
    let args = GenericArgs::AngleBracketed(AngleBracketed {
        args: vec![type_arg("u8")],
        bindings: vec![],
    });
    let with_args = TraitBound { generic_params: vec![], modifier: None, trait_: path("Iterator", Some(args)) };
    let t = TypeExpr::ImplTrait(vec![with_args, bound("Send")]);
    assert_eq!(t.render(), "impl Iterator + Send");
}

#[test]
fn render_qualified_path_name_and_args() {
    let t = TypeExpr::QualifiedPath(Box::new(QualifiedPath {
        name: "Item".to_string(),
        args: None,
        self_type: prim("u8"),
        trait_: None,
    }));
    assert_eq!(t.render(), "Item");
}

#[test]
fn format_generic_arg_lifetime_and_slice() {
    assert_eq!(GenericArg::Lifetime("'a".to_string()).format(), "'a");
    let sl = GenericArg::Type(TypeContent {
        primitive: None,
        slice: Some(SliceContent { primitive: "u8".to_string() }),
    });
    assert_eq!(sl.format(), "[u8]");
}

#[test]
fn format_generic_arg_unknown_shape_placeholder() {
    let unknown = GenericArg::Type(TypeContent { primitive: None, slice: None });
    assert_eq!(unknown.format(), "/* unknown type */");
}

#[test]
fn format_angle_bracketed_args_joins_mixed_args() {
    let args = GenericArgs::AngleBracketed(AngleBracketed {
        args: vec![GenericArg::Lifetime("'a".to_string()), type_arg("u8")],
        bindings: vec![],
    });
    assert_eq!(format_angle_bracketed_args(&Some(args)), "<'a, u8>");
    assert_eq!(format_angle_bracketed_args(&None), "");
}

#[test]
fn render_function_decl_block() {
    let d = FunctionDecl {
        inputs: vec![("a".to_string(), prim("i32")), ("b".to_string(), prim("i32"))],
        output: Some(prim("i32")),
        c_variadic: false,
    };
    assert_eq!(d.render("add"), "```rust\npub fn add(a: i32, b: i32) -> i32;\n```\n");
}

#[test]
fn render_function_decl_without_return() {
    let d = FunctionDecl { inputs: vec![], output: None, c_variadic: false };
    assert_eq!(d.render("go"), "```rust\npub fn go();\n```\n");
}

#[test]
fn render_function_decl_variadic_not_reflected() {
    // The variadic flag is carried by the model but, as a documented
    // limitation, never shows in the output.
    let d = FunctionDecl {
        inputs: vec![("fmt".to_string(), prim("str"))],
        output: None,
        c_variadic: true,
    };
    assert_eq!(d.render("printf"), "```rust\npub fn printf(fmt: str);\n```\n");
}
