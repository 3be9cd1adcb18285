use vstd::prelude::*;
use crate::json::{JsonValue, obj_get, obj_has, obj_lookup, lemma_obj_get_decreases};
use crate::schema::{
    RustDoc, RustDocV, RustDocItem, RustDocItemV, ItemInner, ItemInnerV, FunctionDecl,
    FunctionDeclV, EnumDetails, EnumDetailsV,
    SchemaError, GenericArg, GenericArgV, TypeContent, TypeContentV, SliceContent, TypeExpr,
    TypeExprV, BorrowedRef, BorrowedRefV, RawPointer, RawPointerV, ArrayType, ArrayTypeV,
    ResolvedPath, ResolvedPathV, QualifiedPath, QualifiedPathV, DynTrait, DynTraitV, TraitBound,
    TraitBoundV, GenericParam, GenericArgs, GenericArgsV, AngleBracketed, AngleBracketedV,
    Parenthesized, ParenthesizedV, TypeBinding, TypeBindingV, BindingKind, BindingKindV,
};

verus! {

broadcast use lemma_obj_get_decreases, crate::json::lemma_vec_view_decreases;

// --- Field helpers --- //
//
// A JSON object field is read under one of three disciplines, mirroring how
// the schema treats it: required string, optional string (absent and null
// both mean none), required bool.  The outer `Option` is the success of the
// read; `None` means a structural mismatch.

/// A required string field.
pub open spec fn req_str(es: Seq<(String, JsonValue)>, key: Seq<char>) -> Option<Seq<char>> {
    match obj_get(es, key) {
        Some(JsonValue::Str(s)) => Some(s@),
        _ => None,
    }
}

/// An optional string field: absent or null is none, a string is itself,
/// anything else is a mismatch.
pub open spec fn opt_str(es: Seq<(String, JsonValue)>, key: Seq<char>) -> Option<
    Option<Seq<char>>,
> {
    match obj_get(es, key) {
        None => Some(None),
        Some(JsonValue::Null) => Some(None),
        Some(JsonValue::Str(s)) => Some(Some(s@)),
        Some(_) => None,
    }
}

/// A required bool field.
pub open spec fn req_bool(es: Seq<(String, JsonValue)>, key: Seq<char>) -> Option<bool> {
    match obj_get(es, key) {
        Some(JsonValue::Bool(b)) => Some(b),
        _ => None,
    }
}

/// Read a required string field.
fn get_req_str(entries: &Vec<(String, JsonValue)>, key: &str) -> (r: Result<String, SchemaError>)
    ensures
        match r {
            Ok(s) => req_str(entries@, key@) == Some(s@),
            Err(_) => req_str(entries@, key@) is None,
        },
{
    match obj_lookup(entries, key) {
        Some(JsonValue::Str(s)) => Ok(s.clone()),
        _ => Err(SchemaError::at(key)),
    }
}

/// Read an optional string field.
fn get_opt_str(entries: &Vec<(String, JsonValue)>, key: &str) -> (r: Result<
    Option<String>,
    SchemaError,
>)
    ensures
        match r {
            Ok(s) => opt_str(entries@, key@) == Some(crate::schema::opt_str_view(s)),
            Err(_) => opt_str(entries@, key@) is None,
        },
{
    match obj_lookup(entries, key) {
        None => Ok(None),
        Some(JsonValue::Null) => Ok(None),
        Some(JsonValue::Str(s)) => Ok(Some(s.clone())),
        Some(_) => Err(SchemaError::at(key)),
    }
}

/// Read a required bool field.
fn get_req_bool(entries: &Vec<(String, JsonValue)>, key: &str) -> (r: Result<bool, SchemaError>)
    ensures
        match r {
            Ok(b) => req_bool(entries@, key@) == Some(b),
            Err(_) => req_bool(entries@, key@) is None,
        },
{
    match obj_lookup(entries, key) {
        Some(JsonValue::Bool(b)) => Ok(*b),
        _ => Err(SchemaError::at(key)),
    }
}

/// One for a present key, zero for an absent one.
pub open spec fn b2i(b: bool) -> int {
    if b {
        1
    } else {
        0
    }
}

// --- Generic arguments (the flat, non-recursive leaves) --- //

/// How many of the two keys that tag a generic argument are present.
pub open spec fn garg_tag_count(es: Seq<(String, JsonValue)>) -> int {
    b2i(obj_has(es, "type"@)) + b2i(obj_has(es, "lifetime"@))
}

/// The restricted type-argument shape: optional `primitive` string and
/// optional `slice` object carrying a required `primitive` string.
pub open spec fn parse_type_content_spec(j: JsonValue) -> Option<TypeContentV> {
    match j {
        JsonValue::Obj(entries) => {
            let es = entries@;
            match (opt_str(es, "primitive"@), obj_get(es, "slice"@)) {
                (Some(p), None) => Some(TypeContentV { primitive: p, slice: None }),
                (Some(p), Some(JsonValue::Null)) => Some(TypeContentV { primitive: p, slice: None }),
                (Some(p), Some(JsonValue::Obj(se))) => match req_str(se@, "primitive"@) {
                    Some(sp) => Some(TypeContentV { primitive: p, slice: Some(sp) }),
                    None => None,
                },
                _ => None,
            }
        },
        _ => None,
    }
}

/// One generic argument: exactly one of `type` and `lifetime` must tag it.
pub open spec fn parse_generic_arg_spec(j: JsonValue) -> Option<GenericArgV> {
    match j {
        JsonValue::Obj(entries) => {
            let es = entries@;
            if garg_tag_count(es) != 1 {
                None
            } else if obj_has(es, "type"@) {
                match parse_type_content_spec(obj_get(es, "type"@)->Some_0) {
                    Some(tc) => Some(GenericArgV::Type(tc)),
                    None => None,
                }
            } else {
                match obj_get(es, "lifetime"@) {
                    Some(JsonValue::Str(s)) => Some(GenericArgV::Lifetime(s@)),
                    _ => None,
                }
            }
        },
        _ => None,
    }
}

/// A list of generic arguments, element-wise, in order.
pub open spec fn parse_arg_list_spec(items: Seq<JsonValue>) -> Option<Seq<GenericArgV>>
    decreases items,
{
    if items.len() == 0 {
        Some(Seq::empty())
    } else {
        match (
            parse_arg_list_spec(items.subrange(0, items.len() - 1)),
            parse_generic_arg_spec(items[items.len() - 1]),
        ) {
            (Some(pre), Some(a)) => Some(pre.push(a)),
            _ => None,
        }
    }
}

/// One step of `parse_arg_list_spec` over a growing prefix.
proof fn lemma_parse_arg_list_step(items: Seq<JsonValue>, i: int)
    requires
        0 <= i < items.len(),
    ensures
        parse_arg_list_spec(items.subrange(0, i + 1)) == match (
            parse_arg_list_spec(items.subrange(0, i)),
            parse_generic_arg_spec(items[i]),
        ) {
            (Some(pre), Some(a)) => Some(pre.push(a)),
            _ => None,
        },
{
    let pre = items.subrange(0, i + 1);
    assert(pre.subrange(0, i) =~= items.subrange(0, i));
    assert(pre[pre.len() - 1] == items[i]);
    assert(parse_arg_list_spec(pre) == match (
        parse_arg_list_spec(pre.subrange(0, i)),
        parse_generic_arg_spec(items[i]),
    ) {
        (Some(p), Some(a)) => Some(p.push(a)),
        _ => None,
    });
}

/// A failed prefix fails the whole list.
proof fn lemma_parse_arg_list_extends_none(items: Seq<JsonValue>, k: int)
    requires
        0 <= k <= items.len(),
        parse_arg_list_spec(items.subrange(0, k)) is None,
    ensures
        parse_arg_list_spec(items) is None,
    decreases items.len() - k,
{
    if k == items.len() {
        assert(items.subrange(0, k) =~= items);
    } else {
        lemma_parse_arg_list_step(items, k);
        lemma_parse_arg_list_extends_none(items, k + 1);
    }
}

/// Parse the restricted type-argument shape.
fn parse_type_content(j: &JsonValue) -> (r: Result<TypeContent, SchemaError>)
    ensures
        match parse_type_content_spec(*j) {
            Some(tc) => r matches Ok(v) && v@ == tc,
            None => r is Err,
        },
{
    let entries = match j {
        JsonValue::Obj(entries) => entries,
        _ => {
            return Err(SchemaError::at("type"));
        },
    };
    let primitive = match get_opt_str(entries, "primitive") {
        Ok(p) => p,
        Err(e) => {
            return Err(e);
        },
    };
    let slice = match obj_lookup(entries, "slice") {
        None => None,
        Some(JsonValue::Null) => None,
        Some(JsonValue::Obj(se)) => {
            match get_req_str(se, "primitive") {
                Ok(sp) => Some(SliceContent { primitive: sp }),
                Err(e) => {
                    return Err(e.within("slice"));
                },
            }
        },
        Some(_) => {
            return Err(SchemaError::at("slice"));
        },
    };
    Ok(TypeContent { primitive, slice })
}

/// Parse one generic argument.
fn parse_generic_arg(j: &JsonValue) -> (r: Result<GenericArg, SchemaError>)
    ensures
        match parse_generic_arg_spec(*j) {
            Some(a) => r matches Ok(v) && v@ == a,
            None => r is Err,
        },
{
    let entries = match j {
        JsonValue::Obj(entries) => entries,
        _ => {
            return Err(SchemaError::at("generic argument"));
        },
    };
    let has_type = obj_lookup(entries, "type").is_some();
    let has_lifetime = obj_lookup(entries, "lifetime").is_some();
    let c: usize = (if has_type {
        1
    } else {
        0
    }) + (if has_lifetime {
        1
    } else {
        0
    });
    if c != 1 {
        return Err(SchemaError::at("generic argument tag"));
    }
    if let Some(v) = obj_lookup(entries, "type") {
        match parse_type_content(v) {
            Ok(tc) => Ok(GenericArg::Type(tc)),
            Err(e) => Err(e.within("type")),
        }
    } else {
        match obj_lookup(entries, "lifetime") {
            Some(JsonValue::Str(s)) => Ok(GenericArg::Lifetime(s.clone())),
            _ => Err(SchemaError::at("lifetime")),
        }
    }
}

/// Parse a list of generic arguments.
#[verifier::loop_isolation(false)]
fn parse_arg_list(items: &Vec<JsonValue>) -> (r: Result<Vec<GenericArg>, SchemaError>)
    ensures
        match parse_arg_list_spec(items@) {
            Some(args) => r matches Ok(v) && crate::schema::view_arg_seq(v@) == args,
            None => r is Err,
        },
{
    let mut out: Vec<GenericArg> = Vec::new();
    let mut i: usize = 0;
    proof {
        assert(items@.subrange(0, 0) =~= Seq::<JsonValue>::empty());
    }
    while i < items.len()
        invariant
            0 <= i <= items@.len(),
            parse_arg_list_spec(items@.subrange(0, i as int)) == Some(
                crate::schema::view_arg_seq(out@),
            ),
        decreases items@.len() - i,
    {
        proof {
            lemma_parse_arg_list_step(items@, i as int);
        }
        match parse_generic_arg(&items[i]) {
            Ok(a) => {
                proof {
                    crate::schema::lemma_view_arg_seq_push(out@, a);
                }
                out.push(a);
            },
            Err(e) => {
                proof {
                    lemma_parse_arg_list_extends_none(items@, i + 1);
                }
                return Err(e);
            },
        }
        i = i + 1;
    }
    proof {
        assert(items@.subrange(0, items@.len() as int) =~= items@);
    }
    Ok(out)
}

// --- Type expressions (the recursive core) --- //

/// How many of the eleven keys that tag a type expression are present.
pub open spec fn type_tag_count(es: Seq<(String, JsonValue)>) -> int {
    b2i(obj_has(es, "primitive"@)) + b2i(obj_has(es, "generic"@)) + b2i(
        obj_has(es, "borrowed_ref"@),
    ) + b2i(obj_has(es, "raw_pointer"@)) + b2i(obj_has(es, "slice"@)) + b2i(obj_has(es, "array"@))
        + b2i(obj_has(es, "tuple"@)) + b2i(obj_has(es, "resolved_path"@)) + b2i(
        obj_has(es, "qualified_path"@),
    ) + b2i(obj_has(es, "impl_trait"@)) + b2i(obj_has(es, "dyn_trait"@))
}

/// How many of the two keys that tag a generic-argument list are present.
pub open spec fn args_tag_count(es: Seq<(String, JsonValue)>) -> int {
    b2i(obj_has(es, "angle_bracketed"@)) + b2i(obj_has(es, "parenthesized"@))
}

/// A type expression: an object tagged by exactly one recognized key, whose
/// payload matches that variant's shape.
pub open spec fn parse_type_spec(j: JsonValue) -> Option<TypeExprV>
    decreases j,
{
    match j {
        JsonValue::Obj(entries) => {
            let es = entries@;
            if type_tag_count(es) != 1 {
                None
            } else if obj_has(es, "primitive"@) {
                match obj_get(es, "primitive"@) {
                    Some(JsonValue::Str(s)) => Some(TypeExprV::Primitive(s@)),
                    _ => None,
                }
            } else if obj_has(es, "generic"@) {
                match obj_get(es, "generic"@) {
                    Some(JsonValue::Str(s)) => Some(TypeExprV::Generic(s@)),
                    _ => None,
                }
            } else if obj_has(es, "borrowed_ref"@) {
                match parse_borrowed_ref_spec(obj_get(es, "borrowed_ref"@)->Some_0) {
                    Some(b) => Some(TypeExprV::BorrowedRef(Box::new(b))),
                    None => None,
                }
            } else if obj_has(es, "raw_pointer"@) {
                match parse_raw_pointer_spec(obj_get(es, "raw_pointer"@)->Some_0) {
                    Some(p) => Some(TypeExprV::RawPointer(Box::new(p))),
                    None => None,
                }
            } else if obj_has(es, "slice"@) {
                match parse_type_spec(obj_get(es, "slice"@)->Some_0) {
                    Some(t) => Some(TypeExprV::Slice(Box::new(t))),
                    None => None,
                }
            } else if obj_has(es, "array"@) {
                match parse_array_spec(obj_get(es, "array"@)->Some_0) {
                    Some(a) => Some(TypeExprV::Array(Box::new(a))),
                    None => None,
                }
            } else if obj_has(es, "tuple"@) {
                match obj_get(es, "tuple"@) {
                    Some(JsonValue::Arr(items)) => match parse_type_list_spec(items@) {
                        Some(ts) => Some(TypeExprV::Tuple(ts)),
                        None => None,
                    },
                    _ => None,
                }
            } else if obj_has(es, "resolved_path"@) {
                match parse_resolved_path_spec(obj_get(es, "resolved_path"@)->Some_0) {
                    Some(p) => Some(TypeExprV::ResolvedPath(Box::new(p))),
                    None => None,
                }
            } else if obj_has(es, "qualified_path"@) {
                match parse_qualified_path_spec(obj_get(es, "qualified_path"@)->Some_0) {
                    Some(q) => Some(TypeExprV::QualifiedPath(Box::new(q))),
                    None => None,
                }
            } else if obj_has(es, "impl_trait"@) {
                match obj_get(es, "impl_trait"@) {
                    Some(JsonValue::Arr(items)) => match parse_impl_list_spec(items@) {
                        Some(bs) => Some(TypeExprV::ImplTrait(bs)),
                        None => None,
                    },
                    _ => None,
                }
            } else {
                match parse_dyn_trait_spec(obj_get(es, "dyn_trait"@)->Some_0) {
                    Some(d) => Some(TypeExprV::DynTrait(Box::new(d))),
                    None => None,
                }
            }
        },
        _ => None,
    }
}

/// A list of type expressions, element-wise, in order.
pub open spec fn parse_type_list_spec(items: Seq<JsonValue>) -> Option<Seq<TypeExprV>>
    decreases items,
{
    if items.len() == 0 {
        Some(Seq::empty())
    } else {
        match (
            parse_type_list_spec(items.subrange(0, items.len() - 1)),
            parse_type_spec(items[items.len() - 1]),
        ) {
            (Some(pre), Some(t)) => Some(pre.push(t)),
            _ => None,
        }
    }
}

/// A reference type: optional lifetime, required mutability, required
/// referent.
pub open spec fn parse_borrowed_ref_spec(j: JsonValue) -> Option<BorrowedRefV>
    decreases j,
{
    match j {
        JsonValue::Obj(entries) => {
            let es = entries@;
            match (opt_str(es, "lifetime"@), req_bool(es, "mutable"@), obj_get(es, "type"@)) {
                (Some(lt), Some(m), Some(ty)) => match parse_type_spec(ty) {
                    Some(inner) => Some(BorrowedRefV { lifetime: lt, mutable: m, inner }),
                    None => None,
                },
                _ => None,
            }
        },
        _ => None,
    }
}

/// A raw pointer type: required mutability and referent.
pub open spec fn parse_raw_pointer_spec(j: JsonValue) -> Option<RawPointerV>
    decreases j,
{
    match j {
        JsonValue::Obj(entries) => {
            let es = entries@;
            match (req_bool(es, "mutable"@), obj_get(es, "type"@)) {
                (Some(m), Some(ty)) => match parse_type_spec(ty) {
                    Some(inner) => Some(RawPointerV { mutable: m, inner }),
                    None => None,
                },
                _ => None,
            }
        },
        _ => None,
    }
}

/// An array type: required length expression and element type.
pub open spec fn parse_array_spec(j: JsonValue) -> Option<ArrayTypeV>
    decreases j,
{
    match j {
        JsonValue::Obj(entries) => {
            let es = entries@;
            match (req_str(es, "len"@), obj_get(es, "type"@)) {
                (Some(len), Some(ty)) => match parse_type_spec(ty) {
                    Some(inner) => Some(ArrayTypeV { inner, len }),
                    None => None,
                },
                _ => None,
            }
        },
        _ => None,
    }
}

/// A named type: required name, optional identifier link, optional generic
/// arguments.
pub open spec fn parse_resolved_path_spec(j: JsonValue) -> Option<ResolvedPathV>
    decreases j,
{
    match j {
        JsonValue::Obj(entries) => {
            let es = entries@;
            match (req_str(es, "name"@), opt_str(es, "id"@)) {
                (Some(name), Some(id)) => match obj_get(es, "args"@) {
                    None => Some(ResolvedPathV { name, id, args: None }),
                    Some(JsonValue::Null) => Some(ResolvedPathV { name, id, args: None }),
                    Some(a) => match parse_generic_args_spec(a) {
                        Some(ga) => Some(ResolvedPathV { name, id, args: Some(ga) }),
                        None => None,
                    },
                },
                _ => None,
            }
        },
        _ => None,
    }
}

/// An associated-type projection: required name and self type, optional
/// generic arguments and trait.
pub open spec fn parse_qualified_path_spec(j: JsonValue) -> Option<QualifiedPathV>
    decreases j,
{
    match j {
        JsonValue::Obj(entries) => {
            let es = entries@;
            match (req_str(es, "name"@), obj_get(es, "self_type"@)) {
                (Some(name), Some(st)) => match parse_type_spec(st) {
                    Some(self_type) => {
                        let args = match obj_get(es, "args"@) {
                            None => Some(None),
                            Some(JsonValue::Null) => Some(None),
                            Some(a) => match parse_generic_args_spec(a) {
                                Some(ga) => Some(Some(ga)),
                                None => None,
                            },
                        };
                        let tr = match obj_get(es, "trait"@) {
                            None => Some(None),
                            Some(JsonValue::Null) => Some(None),
                            Some(t) => match parse_resolved_path_spec(t) {
                                Some(rp) => Some(Some(rp)),
                                None => None,
                            },
                        };
                        match (args, tr) {
                            (Some(args), Some(trait_)) => Some(
                                QualifiedPathV { name, args, self_type, trait_ },
                            ),
                            _ => None,
                        }
                    },
                    None => None,
                },
                _ => None,
            }
        },
        _ => None,
    }
}

/// A generic-argument list: an object tagged by exactly one of
/// `angle_bracketed` and `parenthesized`.
pub open spec fn parse_generic_args_spec(j: JsonValue) -> Option<GenericArgsV>
    decreases j,
{
    match j {
        JsonValue::Obj(entries) => {
            let es = entries@;
            if args_tag_count(es) != 1 {
                None
            } else if obj_has(es, "angle_bracketed"@) {
                match parse_angle_bracketed_spec(obj_get(es, "angle_bracketed"@)->Some_0) {
                    Some(ab) => Some(GenericArgsV::AngleBracketed(ab)),
                    None => None,
                }
            } else {
                match parse_parenthesized_spec(obj_get(es, "parenthesized"@)->Some_0) {
                    Some(p) => Some(GenericArgsV::Parenthesized(p)),
                    None => None,
                }
            }
        },
        _ => None,
    }
}

/// Angle-bracketed arguments: required argument array, optional binding
/// array defaulting to empty.
pub open spec fn parse_angle_bracketed_spec(j: JsonValue) -> Option<AngleBracketedV>
    decreases j,
{
    match j {
        JsonValue::Obj(entries) => {
            let es = entries@;
            match obj_get(es, "args"@) {
                Some(JsonValue::Arr(items)) => match parse_arg_list_spec(items@) {
                    Some(args) => match obj_get(es, "bindings"@) {
                        None => Some(AngleBracketedV { args, bindings: Seq::empty() }),
                        Some(JsonValue::Arr(bitems)) => match parse_binding_list_spec(bitems@) {
                            Some(bindings) => Some(AngleBracketedV { args, bindings }),
                            None => None,
                        },
                        Some(_) => None,
                    },
                    None => None,
                },
                _ => None,
            }
        },
        _ => None,
    }
}

/// Parenthesized function-trait sugar: required inputs, optional output.
pub open spec fn parse_parenthesized_spec(j: JsonValue) -> Option<ParenthesizedV>
    decreases j,
{
    match j {
        JsonValue::Obj(entries) => {
            let es = entries@;
            match obj_get(es, "inputs"@) {
                Some(JsonValue::Arr(items)) => match parse_type_list_spec(items@) {
                    Some(inputs) => match obj_get(es, "output"@) {
                        None => Some(ParenthesizedV { inputs, output: None }),
                        Some(JsonValue::Null) => Some(ParenthesizedV { inputs, output: None }),
                        Some(o) => match parse_type_spec(o) {
                            Some(t) => Some(
                                ParenthesizedV { inputs, output: Some(Box::new(t)) },
                            ),
                            None => None,
                        },
                    },
                    None => None,
                },
                _ => None,
            }
        },
        _ => None,
    }
}

/// An associated-type binding: required name and kind, optional nested
/// generic arguments.
pub open spec fn parse_binding_spec(j: JsonValue) -> Option<TypeBindingV>
    decreases j,
{
    match j {
        JsonValue::Obj(entries) => {
            let es = entries@;
            match (req_str(es, "name"@), obj_get(es, "binding"@)) {
                (Some(name), Some(b)) => match parse_binding_kind_spec(b) {
                    Some(binding) => match obj_get(es, "args"@) {
                        None => Some(TypeBindingV { name, args: None, binding }),
                        Some(JsonValue::Null) => Some(TypeBindingV { name, args: None, binding }),
                        Some(a) => match parse_generic_args_spec(a) {
                            Some(ga) => Some(TypeBindingV { name, args: Some(ga), binding }),
                            None => None,
                        },
                    },
                    None => None,
                },
                _ => None,
            }
        },
        _ => None,
    }
}

/// The kind of a binding: an object carrying `equality`, whose payload
/// holds the required right-hand `type`.
pub open spec fn parse_binding_kind_spec(j: JsonValue) -> Option<BindingKindV>
    decreases j,
{
    match j {
        JsonValue::Obj(entries) => {
            let es = entries@;
            match obj_get(es, "equality"@) {
                Some(JsonValue::Obj(ee)) => match obj_get(ee@, "type"@) {
                    Some(ty) => match parse_type_spec(ty) {
                        Some(t) => Some(BindingKindV::Equality(Box::new(t))),
                        None => None,
                    },
                    None => None,
                },
                _ => None,
            }
        },
        _ => None,
    }
}

/// A list of associated-type bindings, element-wise, in order.
pub open spec fn parse_binding_list_spec(items: Seq<JsonValue>) -> Option<Seq<TypeBindingV>>
    decreases items,
{
    if items.len() == 0 {
        Some(Seq::empty())
    } else {
        match (
            parse_binding_list_spec(items.subrange(0, items.len() - 1)),
            parse_binding_spec(items[items.len() - 1]),
        ) {
            (Some(pre), Some(b)) => Some(pre.push(b)),
            _ => None,
        }
    }
}

/// Every element is an object (the opaque higher-ranked parameters).
pub open spec fn all_objs_spec(items: Seq<JsonValue>) -> bool
    decreases items,
{
    if items.len() == 0 {
        true
    } else {
        items[items.len() - 1] is Obj && all_objs_spec(items.subrange(0, items.len() - 1))
    }
}

/// A trait bound: required opaque generic parameters and trait reference,
/// optional modifier.
pub open spec fn parse_bound_spec(j: JsonValue) -> Option<TraitBoundV>
    decreases j,
{
    match j {
        JsonValue::Obj(entries) => {
            let es = entries@;
            match (obj_get(es, "generic_params"@), opt_str(es, "modifier"@), obj_get(es, "trait"@)) {
                (Some(JsonValue::Arr(gp)), Some(m), Some(t)) => if all_objs_spec(gp@) {
                    match parse_resolved_path_spec(t) {
                        Some(rp) => Some(
                            TraitBoundV { generic_params_len: gp@.len(), modifier: m, trait_: rp },
                        ),
                        None => None,
                    }
                } else {
                    None
                },
                _ => None,
            }
        },
        _ => None,
    }
}

/// A list of trait bounds, element-wise, in order.
pub open spec fn parse_bound_list_spec(items: Seq<JsonValue>) -> Option<Seq<TraitBoundV>>
    decreases items,
{
    if items.len() == 0 {
        Some(Seq::empty())
    } else {
        match (
            parse_bound_list_spec(items.subrange(0, items.len() - 1)),
            parse_bound_spec(items[items.len() - 1]),
        ) {
            (Some(pre), Some(b)) => Some(pre.push(b)),
            _ => None,
        }
    }
}

/// One opaque-impl element: an object whose `trait_bound` is required.
pub open spec fn parse_impl_elem_spec(j: JsonValue) -> Option<TraitBoundV>
    decreases j,
{
    match j {
        JsonValue::Obj(entries) => match obj_get(entries@, "trait_bound"@) {
            Some(b) => parse_bound_spec(b),
            None => None,
        },
        _ => None,
    }
}

/// The opaque-impl bound list, element-wise, in order.
pub open spec fn parse_impl_list_spec(items: Seq<JsonValue>) -> Option<Seq<TraitBoundV>>
    decreases items,
{
    if items.len() == 0 {
        Some(Seq::empty())
    } else {
        match (
            parse_impl_list_spec(items.subrange(0, items.len() - 1)),
            parse_impl_elem_spec(items[items.len() - 1]),
        ) {
            (Some(pre), Some(b)) => Some(pre.push(b)),
            _ => None,
        }
    }
}

/// A trait-object type: optional lifetime, required trait-bound array.
pub open spec fn parse_dyn_trait_spec(j: JsonValue) -> Option<DynTraitV>
    decreases j,
{
    match j {
        JsonValue::Obj(entries) => {
            let es = entries@;
            match (opt_str(es, "lifetime"@), obj_get(es, "traits"@)) {
                (Some(lt), Some(JsonValue::Arr(items))) => match parse_bound_list_spec(items@) {
                    Some(traits) => Some(DynTraitV { lifetime: lt, traits }),
                    None => None,
                },
                _ => None,
            }
        },
        _ => None,
    }
}

/// One step of `parse_type_list_spec` over a growing prefix.
proof fn lemma_parse_type_list_step(items: Seq<JsonValue>, i: int)
    requires
        0 <= i < items.len(),
    ensures
        parse_type_list_spec(items.subrange(0, i + 1)) == match (
            parse_type_list_spec(items.subrange(0, i)),
            parse_type_spec(items[i]),
        ) {
            (Some(pre), Some(a)) => Some(pre.push(a)),
            _ => None,
        },
{
    let pre = items.subrange(0, i + 1);
    assert(pre.subrange(0, i) =~= items.subrange(0, i));
    assert(pre[pre.len() - 1] == items[i]);
    assert(parse_type_list_spec(pre) == match (
        parse_type_list_spec(pre.subrange(0, i)),
        parse_type_spec(items[i]),
    ) {
        (Some(p), Some(a)) => Some(p.push(a)),
        _ => None,
    });
}

/// A failed prefix fails the whole list.
proof fn lemma_parse_type_list_extends_none(items: Seq<JsonValue>, k: int)
    requires
        0 <= k <= items.len(),
        parse_type_list_spec(items.subrange(0, k)) is None,
    ensures
        parse_type_list_spec(items) is None,
    decreases items.len() - k,
{
    if k == items.len() {
        assert(items.subrange(0, k) =~= items);
    } else {
        lemma_parse_type_list_step(items, k);
        lemma_parse_type_list_extends_none(items, k + 1);
    }
}

/// One step of `parse_binding_list_spec` over a growing prefix.
proof fn lemma_parse_binding_list_step(items: Seq<JsonValue>, i: int)
    requires
        0 <= i < items.len(),
    ensures
        parse_binding_list_spec(items.subrange(0, i + 1)) == match (
            parse_binding_list_spec(items.subrange(0, i)),
            parse_binding_spec(items[i]),
        ) {
            (Some(pre), Some(a)) => Some(pre.push(a)),
            _ => None,
        },
{
    let pre = items.subrange(0, i + 1);
    assert(pre.subrange(0, i) =~= items.subrange(0, i));
    assert(pre[pre.len() - 1] == items[i]);
    assert(parse_binding_list_spec(pre) == match (
        parse_binding_list_spec(pre.subrange(0, i)),
        parse_binding_spec(items[i]),
    ) {
        (Some(p), Some(a)) => Some(p.push(a)),
        _ => None,
    });
}

/// A failed prefix fails the whole list.
proof fn lemma_parse_binding_list_extends_none(items: Seq<JsonValue>, k: int)
    requires
        0 <= k <= items.len(),
        parse_binding_list_spec(items.subrange(0, k)) is None,
    ensures
        parse_binding_list_spec(items) is None,
    decreases items.len() - k,
{
    if k == items.len() {
        assert(items.subrange(0, k) =~= items);
    } else {
        lemma_parse_binding_list_step(items, k);
        lemma_parse_binding_list_extends_none(items, k + 1);
    }
}

/// One step of `parse_bound_list_spec` over a growing prefix.
proof fn lemma_parse_bound_list_step(items: Seq<JsonValue>, i: int)
    requires
        0 <= i < items.len(),
    ensures
        parse_bound_list_spec(items.subrange(0, i + 1)) == match (
            parse_bound_list_spec(items.subrange(0, i)),
            parse_bound_spec(items[i]),
        ) {
            (Some(pre), Some(a)) => Some(pre.push(a)),
            _ => None,
        },
{
    let pre = items.subrange(0, i + 1);
    assert(pre.subrange(0, i) =~= items.subrange(0, i));
    assert(pre[pre.len() - 1] == items[i]);
    assert(parse_bound_list_spec(pre) == match (
        parse_bound_list_spec(pre.subrange(0, i)),
        parse_bound_spec(items[i]),
    ) {
        (Some(p), Some(a)) => Some(p.push(a)),
        _ => None,
    });
}

/// A failed prefix fails the whole list.
proof fn lemma_parse_bound_list_extends_none(items: Seq<JsonValue>, k: int)
    requires
        0 <= k <= items.len(),
        parse_bound_list_spec(items.subrange(0, k)) is None,
    ensures
        parse_bound_list_spec(items) is None,
    decreases items.len() - k,
{
    if k == items.len() {
        assert(items.subrange(0, k) =~= items);
    } else {
        lemma_parse_bound_list_step(items, k);
        lemma_parse_bound_list_extends_none(items, k + 1);
    }
}

/// One step of `parse_impl_list_spec` over a growing prefix.
proof fn lemma_parse_impl_list_step(items: Seq<JsonValue>, i: int)
    requires
        0 <= i < items.len(),
    ensures
        parse_impl_list_spec(items.subrange(0, i + 1)) == match (
            parse_impl_list_spec(items.subrange(0, i)),
            parse_impl_elem_spec(items[i]),
        ) {
            (Some(pre), Some(a)) => Some(pre.push(a)),
            _ => None,
        },
{
    let pre = items.subrange(0, i + 1);
    assert(pre.subrange(0, i) =~= items.subrange(0, i));
    assert(pre[pre.len() - 1] == items[i]);
    assert(parse_impl_list_spec(pre) == match (
        parse_impl_list_spec(pre.subrange(0, i)),
        parse_impl_elem_spec(items[i]),
    ) {
        (Some(p), Some(a)) => Some(p.push(a)),
        _ => None,
    });
}

/// A failed prefix fails the whole list.
proof fn lemma_parse_impl_list_extends_none(items: Seq<JsonValue>, k: int)
    requires
        0 <= k <= items.len(),
        parse_impl_list_spec(items.subrange(0, k)) is None,
    ensures
        parse_impl_list_spec(items) is None,
    decreases items.len() - k,
{
    if k == items.len() {
        assert(items.subrange(0, k) =~= items);
    } else {
        lemma_parse_impl_list_step(items, k);
        lemma_parse_impl_list_extends_none(items, k + 1);
    }
}

/// `all_objs_spec` holds exactly when every element is an object.
proof fn lemma_all_objs_index(items: Seq<JsonValue>)
    ensures
        all_objs_spec(items) <==> (forall|k: int| 0 <= k < items.len() ==> items[k] is Obj),
    decreases items.len(),
{
    if items.len() > 0 {
        let pre = items.subrange(0, items.len() - 1);
        lemma_all_objs_index(pre);
        assert(all_objs_spec(items) == (items[items.len() - 1] is Obj && all_objs_spec(pre)));
        assert forall|k: int| 0 <= k < items.len() - 1 implies items[k] == pre[k] by {}
    }
}

// --- The type-expression parser --- //

/// Count the recognized type-expression tag keys.
fn type_tag_count_exec(entries: &Vec<(String, JsonValue)>) -> (r: usize)
    ensures
        r as int == type_tag_count(entries@),
{
    let mut c: usize = 0;
    if obj_lookup(entries, "primitive").is_some() {
        c = c + 1;
    }
    if obj_lookup(entries, "generic").is_some() {
        c = c + 1;
    }
    if obj_lookup(entries, "borrowed_ref").is_some() {
        c = c + 1;
    }
    if obj_lookup(entries, "raw_pointer").is_some() {
        c = c + 1;
    }
    if obj_lookup(entries, "slice").is_some() {
        c = c + 1;
    }
    if obj_lookup(entries, "array").is_some() {
        c = c + 1;
    }
    if obj_lookup(entries, "tuple").is_some() {
        c = c + 1;
    }
    if obj_lookup(entries, "resolved_path").is_some() {
        c = c + 1;
    }
    if obj_lookup(entries, "qualified_path").is_some() {
        c = c + 1;
    }
    if obj_lookup(entries, "impl_trait").is_some() {
        c = c + 1;
    }
    if obj_lookup(entries, "dyn_trait").is_some() {
        c = c + 1;
    }
    c
}

/// Parse a type expression from its tagged object.
pub fn parse_type(j: &JsonValue) -> (r: Result<TypeExpr, SchemaError>)
    ensures
        match parse_type_spec(*j) {
            Some(t) => r matches Ok(v) && v@ == t,
            None => r is Err,
        },
    decreases *j,
{
    let entries = match j {
        JsonValue::Obj(entries) => entries,
        _ => {
            return Err(SchemaError::at("type expression"));
        },
    };
    let c = type_tag_count_exec(entries);
    if c != 1 {
        return Err(SchemaError::at("type expression tag"));
    }
    if let Some(v) = obj_lookup(entries, "primitive") {
        match v {
            JsonValue::Str(s) => Ok(TypeExpr::Primitive(s.clone())),
            _ => Err(SchemaError::at("primitive")),
        }
    } else if let Some(v) = obj_lookup(entries, "generic") {
        match v {
            JsonValue::Str(s) => Ok(TypeExpr::Generic(s.clone())),
            _ => Err(SchemaError::at("generic")),
        }
    } else if let Some(v) = obj_lookup(entries, "borrowed_ref") {
        match parse_borrowed_ref(v) {
            Ok(b) => {
                let res = TypeExpr::BorrowedRef(Box::new(b));
                proof {
                    assert(res@ == parse_type_spec(*j)->Some_0);
                }
                Ok(res)
            },
            Err(e) => Err(e.within("borrowed_ref")),
        }
    } else if let Some(v) = obj_lookup(entries, "raw_pointer") {
        match parse_raw_pointer(v) {
            Ok(p) => {
                let res = TypeExpr::RawPointer(Box::new(p));
                proof {
                    assert(res@ == parse_type_spec(*j)->Some_0);
                }
                Ok(res)
            },
            Err(e) => Err(e.within("raw_pointer")),
        }
    } else if let Some(v) = obj_lookup(entries, "slice") {
        match parse_type(v) {
            Ok(t) => {
                let res = TypeExpr::Slice(Box::new(t));
                proof {
                    assert(res@ == parse_type_spec(*j)->Some_0);
                }
                Ok(res)
            },
            Err(e) => Err(e.within("slice")),
        }
    } else if let Some(v) = obj_lookup(entries, "array") {
        match parse_array(v) {
            Ok(a) => {
                let res = TypeExpr::Array(Box::new(a));
                proof {
                    assert(res@ == parse_type_spec(*j)->Some_0);
                }
                Ok(res)
            },
            Err(e) => Err(e.within("array")),
        }
    } else if let Some(v) = obj_lookup(entries, "tuple") {
        match v {
            JsonValue::Arr(items) => {
                proof {
                    assert(decreases_to!(*v => *items));
                }
                match parse_type_list(items) {
                    Ok(ts) => {
                        let res = TypeExpr::Tuple(ts);
                        proof {
                            assert(res@ == parse_type_spec(*j)->Some_0);
                        }
                        Ok(res)
                    },
                    Err(e) => Err(e.within("tuple")),
                }
            },
            _ => Err(SchemaError::at("tuple")),
        }
    } else if let Some(v) = obj_lookup(entries, "resolved_path") {
        match parse_resolved_path(v) {
            Ok(p) => {
                let res = TypeExpr::ResolvedPath(Box::new(p));
                proof {
                    assert(res@ == parse_type_spec(*j)->Some_0);
                }
                Ok(res)
            },
            Err(e) => Err(e.within("resolved_path")),
        }
    } else if let Some(v) = obj_lookup(entries, "qualified_path") {
        match parse_qualified_path(v) {
            Ok(q) => {
                let res = TypeExpr::QualifiedPath(Box::new(q));
                proof {
                    assert(res@ == parse_type_spec(*j)->Some_0);
                }
                Ok(res)
            },
            Err(e) => Err(e.within("qualified_path")),
        }
    } else if let Some(v) = obj_lookup(entries, "impl_trait") {
        match v {
            JsonValue::Arr(items) => {
                proof {
                    assert(decreases_to!(*v => *items));
                }
                match parse_impl_list(items) {
                    Ok(bs) => {
                        let res = TypeExpr::ImplTrait(bs);
                        proof {
                            assert(res@ == parse_type_spec(*j)->Some_0);
                        }
                        Ok(res)
                    },
                    Err(e) => Err(e.within("impl_trait")),
                }
            },
            _ => Err(SchemaError::at("impl_trait")),
        }
    } else if let Some(v) = obj_lookup(entries, "dyn_trait") {
        match parse_dyn_trait(v) {
            Ok(d) => {
                let res = TypeExpr::DynTrait(Box::new(d));
                proof {
                    assert(res@ == parse_type_spec(*j)->Some_0);
                }
                Ok(res)
            },
            Err(e) => Err(e.within("dyn_trait")),
        }
    } else {
        proof {
            assert(false);
        }
        Err(SchemaError::at("type expression tag"))
    }
}

/// Parse a list of type expressions.
#[verifier::loop_isolation(false)]
fn parse_type_list(items: &Vec<JsonValue>) -> (r: Result<Vec<TypeExpr>, SchemaError>)
    ensures
        match parse_type_list_spec(items@) {
            Some(ts) => r matches Ok(v) && crate::schema::view_type_seq(v@) == ts,
            None => r is Err,
        },
    decreases items@,
{
    let mut out: Vec<TypeExpr> = Vec::new();
    let mut i: usize = 0;
    proof {
        assert(items@.subrange(0, 0) =~= Seq::<JsonValue>::empty());
    }
    while i < items.len()
        invariant
            0 <= i <= items@.len(),
            parse_type_list_spec(items@.subrange(0, i as int)) == Some(
                crate::schema::view_type_seq(out@),
            ),
        decreases items@.len() - i,
    {
        proof {
            lemma_parse_type_list_step(items@, i as int);
            assert(decreases_to!(items@ => items@[i as int]));
        }
        match parse_type(&items[i]) {
            Ok(t) => {
                proof {
                    crate::schema::lemma_view_type_seq_push(out@, t);
                }
                out.push(t);
            },
            Err(e) => {
                proof {
                    lemma_parse_type_list_extends_none(items@, i + 1);
                }
                return Err(e);
            },
        }
        i = i + 1;
    }
    proof {
        assert(items@.subrange(0, items@.len() as int) =~= items@);
    }
    Ok(out)
}

/// Parse a reference type.
fn parse_borrowed_ref(j: &JsonValue) -> (r: Result<BorrowedRef, SchemaError>)
    ensures
        match parse_borrowed_ref_spec(*j) {
            Some(b) => r matches Ok(v) && v@ == b,
            None => r is Err,
        },
    decreases *j,
{
    let entries = match j {
        JsonValue::Obj(entries) => entries,
        _ => {
            return Err(SchemaError::at("borrowed_ref"));
        },
    };
    let lifetime = match get_opt_str(entries, "lifetime") {
        Ok(x) => x,
        Err(e) => {
            return Err(e);
        },
    };
    let mutable = match get_req_bool(entries, "mutable") {
        Ok(x) => x,
        Err(e) => {
            return Err(e);
        },
    };
    let tyv = match obj_lookup(entries, "type") {
        Some(v) => v,
        None => {
            return Err(SchemaError::at("type"));
        },
    };
    let inner = match parse_type(tyv) {
        Ok(t) => t,
        Err(e) => {
            return Err(e.within("type"));
        },
    };
    Ok(BorrowedRef { lifetime, mutable, inner })
}

/// Parse a raw pointer type.
fn parse_raw_pointer(j: &JsonValue) -> (r: Result<RawPointer, SchemaError>)
    ensures
        match parse_raw_pointer_spec(*j) {
            Some(p) => r matches Ok(v) && v@ == p,
            None => r is Err,
        },
    decreases *j,
{
    let entries = match j {
        JsonValue::Obj(entries) => entries,
        _ => {
            return Err(SchemaError::at("raw_pointer"));
        },
    };
    let mutable = match get_req_bool(entries, "mutable") {
        Ok(x) => x,
        Err(e) => {
            return Err(e);
        },
    };
    let tyv = match obj_lookup(entries, "type") {
        Some(v) => v,
        None => {
            return Err(SchemaError::at("type"));
        },
    };
    let inner = match parse_type(tyv) {
        Ok(t) => t,
        Err(e) => {
            return Err(e.within("type"));
        },
    };
    Ok(RawPointer { mutable, inner })
}

/// Parse an array type.
fn parse_array(j: &JsonValue) -> (r: Result<ArrayType, SchemaError>)
    ensures
        match parse_array_spec(*j) {
            Some(a) => r matches Ok(v) && v@ == a,
            None => r is Err,
        },
    decreases *j,
{
    let entries = match j {
        JsonValue::Obj(entries) => entries,
        _ => {
            return Err(SchemaError::at("array"));
        },
    };
    let len = match get_req_str(entries, "len") {
        Ok(x) => x,
        Err(e) => {
            return Err(e);
        },
    };
    let tyv = match obj_lookup(entries, "type") {
        Some(v) => v,
        None => {
            return Err(SchemaError::at("type"));
        },
    };
    let inner = match parse_type(tyv) {
        Ok(t) => t,
        Err(e) => {
            return Err(e.within("type"));
        },
    };
    Ok(ArrayType { inner, len })
}

/// Parse a named type reference.
fn parse_resolved_path(j: &JsonValue) -> (r: Result<ResolvedPath, SchemaError>)
    ensures
        match parse_resolved_path_spec(*j) {
            Some(p) => r matches Ok(v) && v@ == p,
            None => r is Err,
        },
    decreases *j,
{
    let entries = match j {
        JsonValue::Obj(entries) => entries,
        _ => {
            return Err(SchemaError::at("resolved_path"));
        },
    };
    let name = match get_req_str(entries, "name") {
        Ok(x) => x,
        Err(e) => {
            return Err(e);
        },
    };
    let id = match get_opt_str(entries, "id") {
        Ok(x) => x,
        Err(e) => {
            return Err(e);
        },
    };
    let args = match obj_lookup(entries, "args") {
        None => None,
        Some(JsonValue::Null) => None,
        Some(a) => {
            match parse_generic_args(a) {
                Ok(ga) => Some(ga),
                Err(e) => {
                    return Err(e.within("args"));
                },
            }
        },
    };
    Ok(ResolvedPath { name, id, args })
}

/// Parse an associated-type projection.
fn parse_qualified_path(j: &JsonValue) -> (r: Result<QualifiedPath, SchemaError>)
    ensures
        match parse_qualified_path_spec(*j) {
            Some(q) => r matches Ok(v) && v@ == q,
            None => r is Err,
        },
    decreases *j,
{
    let entries = match j {
        JsonValue::Obj(entries) => entries,
        _ => {
            return Err(SchemaError::at("qualified_path"));
        },
    };
    let name = match get_req_str(entries, "name") {
        Ok(x) => x,
        Err(e) => {
            return Err(e);
        },
    };
    let stv = match obj_lookup(entries, "self_type") {
        Some(v) => v,
        None => {
            return Err(SchemaError::at("self_type"));
        },
    };
    let self_type = match parse_type(stv) {
        Ok(t) => t,
        Err(e) => {
            return Err(e.within("self_type"));
        },
    };
    let args = match obj_lookup(entries, "args") {
        None => None,
        Some(JsonValue::Null) => None,
        Some(a) => {
            match parse_generic_args(a) {
                Ok(ga) => Some(ga),
                Err(e) => {
                    return Err(e.within("args"));
                },
            }
        },
    };
    let trait_ = match obj_lookup(entries, "trait") {
        None => None,
        Some(JsonValue::Null) => None,
        Some(t) => {
            match parse_resolved_path(t) {
                Ok(rp) => Some(rp),
                Err(e) => {
                    return Err(e.within("trait"));
                },
            }
        },
    };
    Ok(QualifiedPath { name, args, self_type, trait_ })
}

/// Parse a generic-argument list.
fn parse_generic_args(j: &JsonValue) -> (r: Result<GenericArgs, SchemaError>)
    ensures
        match parse_generic_args_spec(*j) {
            Some(g) => r matches Ok(v) && v@ == g,
            None => r is Err,
        },
    decreases *j,
{
    let entries = match j {
        JsonValue::Obj(entries) => entries,
        _ => {
            return Err(SchemaError::at("generic arguments"));
        },
    };
    let has_ab = obj_lookup(entries, "angle_bracketed").is_some();
    let has_p = obj_lookup(entries, "parenthesized").is_some();
    let c: usize = (if has_ab {
        1
    } else {
        0
    }) + (if has_p {
        1
    } else {
        0
    });
    if c != 1 {
        return Err(SchemaError::at("generic arguments tag"));
    }
    if let Some(v) = obj_lookup(entries, "angle_bracketed") {
        match parse_angle_bracketed(v) {
            Ok(ab) => Ok(GenericArgs::AngleBracketed(ab)),
            Err(e) => Err(e.within("angle_bracketed")),
        }
    } else {
        let v = match obj_lookup(entries, "parenthesized") {
            Some(v) => v,
            None => {
                proof {
                    assert(false);
                }
                return Err(SchemaError::at("parenthesized"));
            },
        };
        match parse_parenthesized(v) {
            Ok(p) => Ok(GenericArgs::Parenthesized(p)),
            Err(e) => Err(e.within("parenthesized")),
        }
    }
}

/// Parse angle-bracketed arguments.
fn parse_angle_bracketed(j: &JsonValue) -> (r: Result<AngleBracketed, SchemaError>)
    ensures
        match parse_angle_bracketed_spec(*j) {
            Some(ab) => r matches Ok(v) && v@ == ab,
            None => r is Err,
        },
    decreases *j,
{
    let entries = match j {
        JsonValue::Obj(entries) => entries,
        _ => {
            return Err(SchemaError::at("angle_bracketed"));
        },
    };
    let args = match obj_lookup(entries, "args") {
        Some(JsonValue::Arr(items)) => {
            match parse_arg_list(items) {
                Ok(a) => a,
                Err(e) => {
                    return Err(e.within("args"));
                },
            }
        },
        _ => {
            return Err(SchemaError::at("args"));
        },
    };
    let bindings = match obj_lookup(entries, "bindings") {
        None => Vec::new(),
        Some(JsonValue::Arr(bitems)) => {
            proof {
                assert(decreases_to!(*j => *bitems));
            }
            match parse_binding_list(bitems) {
                Ok(b) => b,
                Err(e) => {
                    return Err(e.within("bindings"));
                },
            }
        },
        Some(_) => {
            return Err(SchemaError::at("bindings"));
        },
    };
    let res = AngleBracketed { args, bindings };
    proof {
        assert(res@ == parse_angle_bracketed_spec(*j)->Some_0);
    }
    Ok(res)
}

/// Parse parenthesized function-trait sugar.
fn parse_parenthesized(j: &JsonValue) -> (r: Result<Parenthesized, SchemaError>)
    ensures
        match parse_parenthesized_spec(*j) {
            Some(p) => r matches Ok(v) && v@ == p,
            None => r is Err,
        },
    decreases *j,
{
    let entries = match j {
        JsonValue::Obj(entries) => entries,
        _ => {
            return Err(SchemaError::at("parenthesized"));
        },
    };
    let inputs = match obj_lookup(entries, "inputs") {
        Some(JsonValue::Arr(items)) => {
            match parse_type_list(items) {
                Ok(ts) => ts,
                Err(e) => {
                    return Err(e.within("inputs"));
                },
            }
        },
        _ => {
            return Err(SchemaError::at("inputs"));
        },
    };
    let output = match obj_lookup(entries, "output") {
        None => None,
        Some(JsonValue::Null) => None,
        Some(o) => {
            match parse_type(o) {
                Ok(t) => Some(Box::new(t)),
                Err(e) => {
                    return Err(e.within("output"));
                },
            }
        },
    };
    let res = Parenthesized { inputs, output };
    proof {
        assert(res@ == parse_parenthesized_spec(*j)->Some_0);
    }
    Ok(res)
}

/// Parse an associated-type binding.
fn parse_binding(j: &JsonValue) -> (r: Result<TypeBinding, SchemaError>)
    ensures
        match parse_binding_spec(*j) {
            Some(b) => r matches Ok(v) && v@ == b,
            None => r is Err,
        },
    decreases *j,
{
    let entries = match j {
        JsonValue::Obj(entries) => entries,
        _ => {
            return Err(SchemaError::at("binding"));
        },
    };
    let name = match get_req_str(entries, "name") {
        Ok(x) => x,
        Err(e) => {
            return Err(e);
        },
    };
    let bv = match obj_lookup(entries, "binding") {
        Some(v) => v,
        None => {
            return Err(SchemaError::at("binding"));
        },
    };
    let binding = match parse_binding_kind(bv) {
        Ok(b) => b,
        Err(e) => {
            return Err(e.within("binding"));
        },
    };
    let args = match obj_lookup(entries, "args") {
        None => None,
        Some(JsonValue::Null) => None,
        Some(a) => {
            match parse_generic_args(a) {
                Ok(ga) => Some(ga),
                Err(e) => {
                    return Err(e.within("args"));
                },
            }
        },
    };
    Ok(TypeBinding { name, args, binding })
}

/// Parse a binding kind.
fn parse_binding_kind(j: &JsonValue) -> (r: Result<BindingKind, SchemaError>)
    ensures
        match parse_binding_kind_spec(*j) {
            Some(b) => r matches Ok(v) && v@ == b,
            None => r is Err,
        },
    decreases *j,
{
    let entries = match j {
        JsonValue::Obj(entries) => entries,
        _ => {
            return Err(SchemaError::at("binding kind"));
        },
    };
    let ee = match obj_lookup(entries, "equality") {
        Some(JsonValue::Obj(ee)) => ee,
        _ => {
            return Err(SchemaError::at("equality"));
        },
    };
    let tyv = match obj_lookup(ee, "type") {
        Some(v) => v,
        None => {
            return Err(SchemaError::at("type"));
        },
    };
    match parse_type(tyv) {
        Ok(t) => {
            let res = BindingKind::Equality(Box::new(t));
            proof {
                assert(res@ == parse_binding_kind_spec(*j)->Some_0);
            }
            Ok(res)
        },
        Err(e) => Err(e.within("equality")),
    }
}

/// Parse a list of associated-type bindings.
#[verifier::loop_isolation(false)]
fn parse_binding_list(items: &Vec<JsonValue>) -> (r: Result<Vec<TypeBinding>, SchemaError>)
    ensures
        match parse_binding_list_spec(items@) {
            Some(bs) => r matches Ok(v) && crate::schema::view_binding_seq(v@) == bs,
            None => r is Err,
        },
    decreases items@,
{
    let mut out: Vec<TypeBinding> = Vec::new();
    let mut i: usize = 0;
    proof {
        assert(items@.subrange(0, 0) =~= Seq::<JsonValue>::empty());
    }
    while i < items.len()
        invariant
            0 <= i <= items@.len(),
            parse_binding_list_spec(items@.subrange(0, i as int)) == Some(
                crate::schema::view_binding_seq(out@),
            ),
        decreases items@.len() - i,
    {
        proof {
            lemma_parse_binding_list_step(items@, i as int);
            assert(decreases_to!(items@ => items@[i as int]));
        }
        match parse_binding(&items[i]) {
            Ok(b) => {
                proof {
                    crate::schema::lemma_view_binding_seq_push(out@, b);
                }
                out.push(b);
            },
            Err(e) => {
                proof {
                    lemma_parse_binding_list_extends_none(items@, i + 1);
                }
                return Err(e);
            },
        }
        i = i + 1;
    }
    proof {
        assert(items@.subrange(0, items@.len() as int) =~= items@);
    }
    Ok(out)
}

/// Parse a trait bound.
fn parse_bound(j: &JsonValue) -> (r: Result<TraitBound, SchemaError>)
    ensures
        match parse_bound_spec(*j) {
            Some(b) => r matches Ok(v) && v@ == b,
            None => r is Err,
        },
    decreases *j,
{
    let entries = match j {
        JsonValue::Obj(entries) => entries,
        _ => {
            return Err(SchemaError::at("trait bound"));
        },
    };
    let generic_params = match obj_lookup(entries, "generic_params") {
        Some(JsonValue::Arr(gp)) => {
            match parse_generic_params(gp) {
                Ok(v) => v,
                Err(e) => {
                    return Err(e.within("generic_params"));
                },
            }
        },
        _ => {
            return Err(SchemaError::at("generic_params"));
        },
    };
    let modifier = match get_opt_str(entries, "modifier") {
        Ok(x) => x,
        Err(e) => {
            return Err(e);
        },
    };
    let tv = match obj_lookup(entries, "trait") {
        Some(v) => v,
        None => {
            return Err(SchemaError::at("trait"));
        },
    };
    let trait_ = match parse_resolved_path(tv) {
        Ok(rp) => rp,
        Err(e) => {
            return Err(e.within("trait"));
        },
    };
    let res = TraitBound { generic_params, modifier, trait_ };
    proof {
        assert(res@ == parse_bound_spec(*j)->Some_0);
    }
    Ok(res)
}

/// Parse the opaque higher-ranked parameters: each must be an object.
#[verifier::loop_isolation(false)]
fn parse_generic_params(items: &Vec<JsonValue>) -> (r: Result<Vec<GenericParam>, SchemaError>)
    ensures
        match r {
            Ok(v) => all_objs_spec(items@) && v@.len() == items@.len(),
            Err(_) => !all_objs_spec(items@),
        },
{
    proof {
        lemma_all_objs_index(items@);
    }
    let mut out: Vec<GenericParam> = Vec::new();
    let mut i: usize = 0;
    while i < items.len()
        invariant
            0 <= i <= items@.len(),
            out@.len() == i,
            forall|k: int| 0 <= k < i ==> items@[k] is Obj,
        decreases items@.len() - i,
    {
        match &items[i] {
            JsonValue::Obj(_) => {
                out.push(GenericParam {  });
            },
            _ => {
                return Err(SchemaError::at("generic_params"));
            },
        }
        i = i + 1;
    }
    Ok(out)
}

/// Parse a list of trait bounds.
#[verifier::loop_isolation(false)]
fn parse_bound_list(items: &Vec<JsonValue>) -> (r: Result<Vec<TraitBound>, SchemaError>)
    ensures
        match parse_bound_list_spec(items@) {
            Some(bs) => r matches Ok(v) && crate::schema::view_bound_seq(v@) == bs,
            None => r is Err,
        },
    decreases items@,
{
    let mut out: Vec<TraitBound> = Vec::new();
    let mut i: usize = 0;
    proof {
        assert(items@.subrange(0, 0) =~= Seq::<JsonValue>::empty());
    }
    while i < items.len()
        invariant
            0 <= i <= items@.len(),
            parse_bound_list_spec(items@.subrange(0, i as int)) == Some(
                crate::schema::view_bound_seq(out@),
            ),
        decreases items@.len() - i,
    {
        proof {
            lemma_parse_bound_list_step(items@, i as int);
            assert(decreases_to!(items@ => items@[i as int]));
        }
        match parse_bound(&items[i]) {
            Ok(b) => {
                proof {
                    crate::schema::lemma_view_bound_seq_push(out@, b);
                }
                out.push(b);
            },
            Err(e) => {
                proof {
                    lemma_parse_bound_list_extends_none(items@, i + 1);
                }
                return Err(e);
            },
        }
        i = i + 1;
    }
    proof {
        assert(items@.subrange(0, items@.len() as int) =~= items@);
    }
    Ok(out)
}

/// Parse the opaque-impl bound list.
#[verifier::loop_isolation(false)]
fn parse_impl_list(items: &Vec<JsonValue>) -> (r: Result<Vec<TraitBound>, SchemaError>)
    ensures
        match parse_impl_list_spec(items@) {
            Some(bs) => r matches Ok(v) && crate::schema::view_bound_seq(v@) == bs,
            None => r is Err,
        },
    decreases items@,
{
    let mut out: Vec<TraitBound> = Vec::new();
    let mut i: usize = 0;
    proof {
        assert(items@.subrange(0, 0) =~= Seq::<JsonValue>::empty());
    }
    while i < items.len()
        invariant
            0 <= i <= items@.len(),
            parse_impl_list_spec(items@.subrange(0, i as int)) == Some(
                crate::schema::view_bound_seq(out@),
            ),
        decreases items@.len() - i,
    {
        proof {
            lemma_parse_impl_list_step(items@, i as int);
            assert(decreases_to!(items@ => items@[i as int]));
        }
        let b = match &items[i] {
            JsonValue::Obj(eentries) => {
                match obj_lookup(eentries, "trait_bound") {
                    Some(bv) => {
                        match parse_bound(bv) {
                            Ok(b) => b,
                            Err(e) => {
                                proof {
                                    lemma_parse_impl_list_extends_none(items@, i + 1);
                                }
                                return Err(e.within("trait_bound"));
                            },
                        }
                    },
                    None => {
                        proof {
                            lemma_parse_impl_list_extends_none(items@, i + 1);
                        }
                        return Err(SchemaError::at("trait_bound"));
                    },
                }
            },
            _ => {
                proof {
                    lemma_parse_impl_list_extends_none(items@, i + 1);
                }
                return Err(SchemaError::at("impl_trait"));
            },
        };
        proof {
            crate::schema::lemma_view_bound_seq_push(out@, b);
        }
        out.push(b);
        i = i + 1;
    }
    proof {
        assert(items@.subrange(0, items@.len() as int) =~= items@);
    }
    Ok(out)
}

/// Parse a trait-object type.
fn parse_dyn_trait(j: &JsonValue) -> (r: Result<DynTrait, SchemaError>)
    ensures
        match parse_dyn_trait_spec(*j) {
            Some(d) => r matches Ok(v) && v@ == d,
            None => r is Err,
        },
    decreases *j,
{
    let entries = match j {
        JsonValue::Obj(entries) => entries,
        _ => {
            return Err(SchemaError::at("dyn_trait"));
        },
    };
    let lifetime = match get_opt_str(entries, "lifetime") {
        Ok(x) => x,
        Err(e) => {
            return Err(e);
        },
    };
    let traits = match obj_lookup(entries, "traits") {
        Some(JsonValue::Arr(items)) => {
            proof {
                assert(decreases_to!(*j => *items));
            }
            match parse_bound_list(items) {
                Ok(bs) => bs,
                Err(e) => {
                    return Err(e.within("traits"));
                },
            }
        },
        _ => {
            return Err(SchemaError::at("traits"));
        },
    };
    let res = DynTrait { lifetime, traits };
    proof {
        assert(res@ == parse_dyn_trait_spec(*j)->Some_0);
    }
    Ok(res)
}

// --- Documents, items, declarations --- //

/// One named parameter: a two-element array holding the name and the type.
pub open spec fn parse_param_spec(j: JsonValue) -> Option<(Seq<char>, TypeExprV)> {
    match j {
        JsonValue::Arr(pair) => if pair@.len() == 2 {
            match pair@[0] {
                JsonValue::Str(n) => match parse_type_spec(pair@[1]) {
                    Some(t) => Some((n@, t)),
                    None => None,
                },
                _ => None,
            }
        } else {
            None
        },
        _ => None,
    }
}

/// A list of named parameters, element-wise, in order.
pub open spec fn parse_param_list_spec(items: Seq<JsonValue>) -> Option<
    Seq<(Seq<char>, TypeExprV)>,
>
    decreases items,
{
    if items.len() == 0 {
        Some(Seq::empty())
    } else {
        match (
            parse_param_list_spec(items.subrange(0, items.len() - 1)),
            parse_param_spec(items[items.len() - 1]),
        ) {
            (Some(pre), Some(p)) => Some(pre.push(p)),
            _ => None,
        }
    }
}

/// One step of `parse_param_list_spec` over a growing prefix.
proof fn lemma_parse_param_list_step(items: Seq<JsonValue>, i: int)
    requires
        0 <= i < items.len(),
    ensures
        parse_param_list_spec(items.subrange(0, i + 1)) == match (
            parse_param_list_spec(items.subrange(0, i)),
            parse_param_spec(items[i]),
        ) {
            (Some(pre), Some(a)) => Some(pre.push(a)),
            _ => None,
        },
{
    let pre = items.subrange(0, i + 1);
    assert(pre.subrange(0, i) =~= items.subrange(0, i));
    assert(pre[pre.len() - 1] == items[i]);
    assert(parse_param_list_spec(pre) == match (
        parse_param_list_spec(pre.subrange(0, i)),
        parse_param_spec(items[i]),
    ) {
        (Some(p), Some(a)) => Some(p.push(a)),
        _ => None,
    });
}

/// A failed prefix fails the whole list.
proof fn lemma_parse_param_list_extends_none(items: Seq<JsonValue>, k: int)
    requires
        0 <= k <= items.len(),
        parse_param_list_spec(items.subrange(0, k)) is None,
    ensures
        parse_param_list_spec(items) is None,
    decreases items.len() - k,
{
    if k == items.len() {
        assert(items.subrange(0, k) =~= items);
    } else {
        lemma_parse_param_list_step(items, k);
        lemma_parse_param_list_extends_none(items, k + 1);
    }
}

/// A function declaration: required inputs and variadic flag, optional
/// return type.
pub open spec fn parse_decl_spec(j: JsonValue) -> Option<FunctionDeclV> {
    match j {
        JsonValue::Obj(entries) => {
            let es = entries@;
            match (obj_get(es, "inputs"@), req_bool(es, "c_variadic"@)) {
                (Some(JsonValue::Arr(items)), Some(cv)) => match parse_param_list_spec(items@) {
                    Some(inputs) => {
                        let output = match obj_get(es, "output"@) {
                            None => Some(None),
                            Some(JsonValue::Null) => Some(None),
                            Some(o) => match parse_type_spec(o) {
                                Some(t) => Some(Some(t)),
                                None => None,
                            },
                        };
                        match output {
                            Some(output) => Some(
                                FunctionDeclV { inputs, output, c_variadic: cv },
                            ),
                            None => None,
                        }
                    },
                    None => None,
                },
                _ => None,
            }
        },
        _ => None,
    }
}

/// A list of strings, element-wise, in order.
pub open spec fn parse_str_list_spec(items: Seq<JsonValue>) -> Option<Seq<Seq<char>>>
    decreases items,
{
    if items.len() == 0 {
        Some(Seq::empty())
    } else {
        match (parse_str_list_spec(items.subrange(0, items.len() - 1)), items[items.len() - 1]) {
            (Some(pre), JsonValue::Str(s)) => Some(pre.push(s@)),
            _ => None,
        }
    }
}

/// One step of `parse_str_list_spec` over a growing prefix.
proof fn lemma_parse_str_list_step(items: Seq<JsonValue>, i: int)
    requires
        0 <= i < items.len(),
    ensures
        parse_str_list_spec(items.subrange(0, i + 1)) == match (
            parse_str_list_spec(items.subrange(0, i)),
            items[i],
        ) {
            (Some(pre), JsonValue::Str(s)) => Some(pre.push(s@)),
            _ => None,
        },
{
    let pre = items.subrange(0, i + 1);
    assert(pre.subrange(0, i) =~= items.subrange(0, i));
    assert(pre[pre.len() - 1] == items[i]);
    assert(parse_str_list_spec(pre) == match (
        parse_str_list_spec(pre.subrange(0, i)),
        items[i],
    ) {
        (Some(p), JsonValue::Str(s)) => Some(p.push(s@)),
        _ => None,
    });
}

/// A failed prefix fails the whole list.
proof fn lemma_parse_str_list_extends_none(items: Seq<JsonValue>, k: int)
    requires
        0 <= k <= items.len(),
        parse_str_list_spec(items.subrange(0, k)) is None,
    ensures
        parse_str_list_spec(items) is None,
    decreases items.len() - k,
{
    if k == items.len() {
        assert(items.subrange(0, k) =~= items);
    } else {
        lemma_parse_str_list_step(items, k);
        lemma_parse_str_list_extends_none(items, k + 1);
    }
}

/// An enum body: required variant identifiers and truncation flag.
pub open spec fn parse_enum_details_spec(j: JsonValue) -> Option<EnumDetailsV> {
    match j {
        JsonValue::Obj(entries) => {
            let es = entries@;
            match (obj_get(es, "variants"@), req_bool(es, "variants_stripped"@)) {
                (Some(JsonValue::Arr(items)), Some(vs)) => match parse_str_list_spec(items@) {
                    Some(variants) => Some(EnumDetailsV { variants, variants_stripped: vs }),
                    None => None,
                },
                _ => None,
            }
        },
        _ => None,
    }
}

/// How many of the two keys that tag an item's declaration payload are
/// present.
pub open spec fn inner_tag_count(es: Seq<(String, JsonValue)>) -> int {
    b2i(obj_has(es, "function"@)) + b2i(obj_has(es, "enum"@))
}

/// The declaration payload of an item.  A payload carrying neither
/// recognized key belongs to an item kind outside this library's scope and
/// is kept as absent; one carrying both is malformed.
pub open spec fn parse_inner_spec(j: JsonValue) -> Option<Option<ItemInnerV>> {
    match j {
        JsonValue::Obj(entries) => {
            let es = entries@;
            if inner_tag_count(es) == 0 {
                Some(None)
            } else if inner_tag_count(es) != 1 {
                None
            } else if obj_has(es, "function"@) {
                match obj_get(es, "function"@) {
                    Some(JsonValue::Obj(fe)) => match obj_get(fe@, "decl"@) {
                        Some(d) => match parse_decl_spec(d) {
                            Some(decl) => Some(Some(ItemInnerV::Function(decl))),
                            None => None,
                        },
                        None => None,
                    },
                    _ => None,
                }
            } else {
                match parse_enum_details_spec(obj_get(es, "enum"@)->Some_0) {
                    Some(e) => Some(Some(ItemInnerV::Enum(e))),
                    None => None,
                }
            }
        },
        _ => None,
    }
}

/// One documented item: optional name, comment, visibility, and
/// declaration payload.
pub open spec fn parse_item_spec(j: JsonValue) -> Option<RustDocItemV> {
    match j {
        JsonValue::Obj(entries) => {
            let es = entries@;
            match (opt_str(es, "name"@), opt_str(es, "docs"@), opt_str(es, "visibility"@)) {
                (Some(name), Some(docs), Some(visibility)) => {
                    let inner = match obj_get(es, "inner"@) {
                        None => Some(None),
                        Some(JsonValue::Null) => Some(None),
                        Some(iv) => parse_inner_spec(iv),
                    };
                    match inner {
                        Some(inner) => Some(RustDocItemV { name, docs, visibility, inner }),
                        None => None,
                    }
                },
                _ => None,
            }
        },
        _ => None,
    }
}

/// The identifier-to-item index, entry-wise, in order.
pub open spec fn parse_index_spec(entries: Seq<(String, JsonValue)>) -> Option<
    Seq<(Seq<char>, RustDocItemV)>,
>
    decreases entries,
{
    if entries.len() == 0 {
        Some(Seq::empty())
    } else {
        match (
            parse_index_spec(entries.subrange(0, entries.len() - 1)),
            parse_item_spec(entries[entries.len() - 1].1),
        ) {
            (Some(pre), Some(item)) => Some(pre.push((entries[entries.len() - 1].0@, item))),
            _ => None,
        }
    }
}

/// One step of `parse_index_spec` over a growing prefix.
proof fn lemma_parse_index_step(entries: Seq<(String, JsonValue)>, i: int)
    requires
        0 <= i < entries.len(),
    ensures
        parse_index_spec(entries.subrange(0, i + 1)) == match (
            parse_index_spec(entries.subrange(0, i)),
            parse_item_spec(entries[i].1),
        ) {
            (Some(pre), Some(item)) => Some(pre.push((entries[i].0@, item))),
            _ => None,
        },
{
    let pre = entries.subrange(0, i + 1);
    assert(pre.subrange(0, i) =~= entries.subrange(0, i));
    assert(pre[pre.len() - 1] == entries[i]);
    assert(parse_index_spec(pre) == match (
        parse_index_spec(pre.subrange(0, i)),
        parse_item_spec(entries[i].1),
    ) {
        (Some(p), Some(item)) => Some(p.push((entries[i].0@, item))),
        _ => None,
    });
}

/// A failed prefix fails the whole index.
proof fn lemma_parse_index_extends_none(entries: Seq<(String, JsonValue)>, k: int)
    requires
        0 <= k <= entries.len(),
        parse_index_spec(entries.subrange(0, k)) is None,
    ensures
        parse_index_spec(entries) is None,
    decreases entries.len() - k,
{
    if k == entries.len() {
        assert(entries.subrange(0, k) =~= entries);
    } else {
        lemma_parse_index_step(entries, k);
        lemma_parse_index_extends_none(entries, k + 1);
    }
}

/// The whole document: required source root, version, privacy flag, and
/// index.
pub open spec fn parse_doc_spec(j: JsonValue) -> Option<RustDocV> {
    match j {
        JsonValue::Obj(entries) => {
            let es = entries@;
            match (
                req_str(es, "root"@),
                req_str(es, "crate_version"@),
                req_bool(es, "includes_private"@),
                obj_get(es, "index"@),
            ) {
                (Some(root), Some(ver), Some(ip), Some(JsonValue::Obj(ix))) => match
                    parse_index_spec(ix@) {
                    Some(index) => Some(
                        RustDocV { root, crate_version: ver, includes_private: ip, index },
                    ),
                    None => None,
                },
                _ => None,
            }
        },
        _ => None,
    }
}

/// Parse one named parameter.
fn parse_param(j: &JsonValue) -> (r: Result<(String, TypeExpr), SchemaError>)
    ensures
        match parse_param_spec(*j) {
            Some(p) => r matches Ok(v) && (v.0@, v.1@) == p,
            None => r is Err,
        },
{
    let pair = match j {
        JsonValue::Arr(pair) => pair,
        _ => {
            return Err(SchemaError::at("parameter"));
        },
    };
    if pair.len() != 2 {
        return Err(SchemaError::at("parameter"));
    }
    let name = match &pair[0] {
        JsonValue::Str(n) => n.clone(),
        _ => {
            return Err(SchemaError::at("parameter name"));
        },
    };
    match parse_type(&pair[1]) {
        Ok(t) => Ok((name, t)),
        Err(e) => Err(e.within("parameter")),
    }
}

/// Parse the parameter list of a declaration.
#[verifier::loop_isolation(false)]
fn parse_param_list(items: &Vec<JsonValue>) -> (r: Result<
    Vec<(String, TypeExpr)>,
    SchemaError,
>)
    ensures
        match parse_param_list_spec(items@) {
            Some(ps) => r matches Ok(v) && crate::schema::view_param_seq(v@) == ps,
            None => r is Err,
        },
{
    let mut out: Vec<(String, TypeExpr)> = Vec::new();
    let mut i: usize = 0;
    proof {
        assert(items@.subrange(0, 0) =~= Seq::<JsonValue>::empty());
    }
    while i < items.len()
        invariant
            0 <= i <= items@.len(),
            parse_param_list_spec(items@.subrange(0, i as int)) == Some(
                crate::schema::view_param_seq(out@),
            ),
        decreases items@.len() - i,
    {
        proof {
            lemma_parse_param_list_step(items@, i as int);
        }
        match parse_param(&items[i]) {
            Ok(p) => {
                proof {
                    crate::schema::lemma_view_param_seq_push(out@, p);
                }
                out.push(p);
            },
            Err(e) => {
                proof {
                    lemma_parse_param_list_extends_none(items@, i + 1);
                }
                return Err(e);
            },
        }
        i = i + 1;
    }
    proof {
        assert(items@.subrange(0, items@.len() as int) =~= items@);
    }
    Ok(out)
}

/// Parse a function declaration.
fn parse_decl(j: &JsonValue) -> (r: Result<FunctionDecl, SchemaError>)
    ensures
        match parse_decl_spec(*j) {
            Some(d) => r matches Ok(v) && v@ == d,
            None => r is Err,
        },
{
    let entries = match j {
        JsonValue::Obj(entries) => entries,
        _ => {
            return Err(SchemaError::at("decl"));
        },
    };
    let inputs = match obj_lookup(entries, "inputs") {
        Some(JsonValue::Arr(items)) => {
            match parse_param_list(items) {
                Ok(ps) => ps,
                Err(e) => {
                    return Err(e.within("inputs"));
                },
            }
        },
        _ => {
            return Err(SchemaError::at("inputs"));
        },
    };
    let c_variadic = match get_req_bool(entries, "c_variadic") {
        Ok(x) => x,
        Err(e) => {
            return Err(e);
        },
    };
    let output = match obj_lookup(entries, "output") {
        None => None,
        Some(JsonValue::Null) => None,
        Some(o) => {
            match parse_type(o) {
                Ok(t) => Some(t),
                Err(e) => {
                    return Err(e.within("output"));
                },
            }
        },
    };
    let res = FunctionDecl { inputs, output, c_variadic };
    proof {
        assert(res@ == parse_decl_spec(*j)->Some_0);
    }
    Ok(res)
}

/// Parse an enum body.
#[verifier::loop_isolation(false)]
fn parse_enum_details(j: &JsonValue) -> (r: Result<EnumDetails, SchemaError>)
    ensures
        match parse_enum_details_spec(*j) {
            Some(e) => r matches Ok(v) && v@ == e,
            None => r is Err,
        },
{
    let entries = match j {
        JsonValue::Obj(entries) => entries,
        _ => {
            return Err(SchemaError::at("enum"));
        },
    };
    let items = match obj_lookup(entries, "variants") {
        Some(JsonValue::Arr(items)) => items,
        _ => {
            return Err(SchemaError::at("variants"));
        },
    };
    let mut variants: Vec<String> = Vec::new();
    let mut i: usize = 0;
    proof {
        assert(items@.subrange(0, 0) =~= Seq::<JsonValue>::empty());
    }
    while i < items.len()
        invariant
            0 <= i <= items@.len(),
            parse_str_list_spec(items@.subrange(0, i as int)) == Some(
                crate::schema::view_str_seq(variants@),
            ),
        decreases items@.len() - i,
    {
        proof {
            lemma_parse_str_list_step(items@, i as int);
        }
        match &items[i] {
            JsonValue::Str(s) => {
                proof {
                    crate::schema::lemma_view_str_seq_push(variants@, *s);
                }
                variants.push(s.clone());
            },
            _ => {
                proof {
                    lemma_parse_str_list_extends_none(items@, i + 1);
                }
                return Err(SchemaError::at("variants"));
            },
        }
        i = i + 1;
    }
    proof {
        assert(items@.subrange(0, items@.len() as int) =~= items@);
    }
    let variants_stripped = match get_req_bool(entries, "variants_stripped") {
        Ok(x) => x,
        Err(e) => {
            return Err(e);
        },
    };
    let res = EnumDetails { variants, variants_stripped };
    proof {
        assert(res@ == parse_enum_details_spec(*j)->Some_0);
    }
    Ok(res)
}

/// Parse an item's declaration payload.  Both recognized keys present at
/// once violate the mutual-exclusivity invariant and fail; neither present
/// marks an item kind outside this library's scope.
fn parse_inner(j: &JsonValue) -> (r: Result<Option<ItemInner>, SchemaError>)
    ensures
        match parse_inner_spec(*j) {
            Some(inner) => r matches Ok(v) && crate::schema::opt_inner_view(v) == inner,
            None => r is Err,
        },
{
    let entries = match j {
        JsonValue::Obj(entries) => entries,
        _ => {
            return Err(SchemaError::at("inner"));
        },
    };
    let has_f = obj_lookup(entries, "function").is_some();
    let has_e = obj_lookup(entries, "enum").is_some();
    if !has_f && !has_e {
        return Ok(None);
    }
    if has_f && has_e {
        return Err(SchemaError::at("inner tag"));
    }
    if let Some(fv) = obj_lookup(entries, "function") {
        let fe = match fv {
            JsonValue::Obj(fe) => fe,
            _ => {
                return Err(SchemaError::at("function"));
            },
        };
        let dv = match obj_lookup(fe, "decl") {
            Some(d) => d,
            None => {
                return Err(SchemaError::at("decl"));
            },
        };
        match parse_decl(dv) {
            Ok(decl) => Ok(Some(ItemInner::Function(decl))),
            Err(e) => Err(e.within("function.decl")),
        }
    } else {
        let ev = match obj_lookup(entries, "enum") {
            Some(v) => v,
            None => {
                proof {
                    assert(false);
                }
                return Err(SchemaError::at("enum"));
            },
        };
        match parse_enum_details(ev) {
            Ok(e) => Ok(Some(ItemInner::Enum(e))),
            Err(e) => Err(e.within("enum")),
        }
    }
}

/// Parse one documented item.
pub fn parse_item(j: &JsonValue) -> (r: Result<RustDocItem, SchemaError>)
    ensures
        match parse_item_spec(*j) {
            Some(item) => r matches Ok(v) && v@ == item,
            None => r is Err,
        },
{
    let entries = match j {
        JsonValue::Obj(entries) => entries,
        _ => {
            return Err(SchemaError::at("item"));
        },
    };
    let name = match get_opt_str(entries, "name") {
        Ok(x) => x,
        Err(e) => {
            return Err(e);
        },
    };
    let docs = match get_opt_str(entries, "docs") {
        Ok(x) => x,
        Err(e) => {
            return Err(e);
        },
    };
    let visibility = match get_opt_str(entries, "visibility") {
        Ok(x) => x,
        Err(e) => {
            return Err(e);
        },
    };
    let inner = match obj_lookup(entries, "inner") {
        None => None,
        Some(JsonValue::Null) => None,
        Some(iv) => {
            match parse_inner(iv) {
                Ok(inner) => inner,
                Err(e) => {
                    return Err(e.within("inner"));
                },
            }
        },
    };
    let res = RustDocItem { name, docs, visibility, inner };
    proof {
        assert(res@ == parse_item_spec(*j)->Some_0);
    }
    Ok(res)
}

/// Parse the whole document from its untyped JSON tree.
#[verifier::loop_isolation(false)]
pub fn parse_document(j: &JsonValue) -> (r: Result<RustDoc, SchemaError>)
    ensures
        match parse_doc_spec(*j) {
            Some(d) => r matches Ok(v) && v@ == d,
            None => r is Err,
        },
{
    let entries = match j {
        JsonValue::Obj(entries) => entries,
        _ => {
            return Err(SchemaError::at("document"));
        },
    };
    let root = match get_req_str(entries, "root") {
        Ok(x) => x,
        Err(e) => {
            return Err(e);
        },
    };
    let crate_version = match get_req_str(entries, "crate_version") {
        Ok(x) => x,
        Err(e) => {
            return Err(e);
        },
    };
    let includes_private = match get_req_bool(entries, "includes_private") {
        Ok(x) => x,
        Err(e) => {
            return Err(e);
        },
    };
    let ix = match obj_lookup(entries, "index") {
        Some(JsonValue::Obj(ix)) => ix,
        _ => {
            return Err(SchemaError::at("index"));
        },
    };
    let mut index: Vec<(String, RustDocItem)> = Vec::new();
    let mut i: usize = 0;
    proof {
        assert(ix@.subrange(0, 0) =~= Seq::<(String, JsonValue)>::empty());
    }
    while i < ix.len()
        invariant
            0 <= i <= ix@.len(),
            parse_index_spec(ix@.subrange(0, i as int)) == Some(
                crate::schema::view_index_seq(index@),
            ),
        decreases ix@.len() - i,
    {
        proof {
            lemma_parse_index_step(ix@, i as int);
        }
        match parse_item(&ix[i].1) {
            Ok(item) => {
                let key = ix[i].0.clone();
                proof {
                    crate::schema::lemma_view_index_seq_push(index@, (key, item));
                }
                index.push((key, item));
            },
            Err(e) => {
                proof {
                    lemma_parse_index_extends_none(ix@, i + 1);
                }
                return Err(e.within("index"));
            },
        }
        i = i + 1;
    }
    proof {
        assert(ix@.subrange(0, ix@.len() as int) =~= ix@);
    }
    let res = RustDoc { root, crate_version, includes_private, index };
    proof {
        assert(res@ == parse_doc_spec(*j)->Some_0);
    }
    Ok(res)
}

/// Parse a document from JSON text: the untyped tree is read by the
/// external loader, the schema model is built by this library's parser.
pub fn parse(s: &str) -> (r: Result<RustDoc, SchemaError>)
    ensures
        match crate::loader::json_text_value(s@) {
            None => r is Err,
            Some(j) => match parse_doc_spec(j) {
                Some(d) => r matches Ok(v) && v@ == d,
                None => r is Err,
            },
        },
{
    match crate::loader::parse_json_text(s) {
        None => Err(SchemaError::at("input text")),
        Some(j) => parse_document(&j),
    }
}

} // verus!
