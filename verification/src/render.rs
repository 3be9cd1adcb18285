use vstd::prelude::*;
use vstd::string::StringExecFns;
use crate::schema::{
    TypeExpr, TypeExprV, ArrayTypeV, GenericArg, GenericArgV, GenericArgs, GenericArgsV,
    FunctionDecl, FunctionDeclV, TraitBoundV, lemma_view_type_seq, lemma_view_bound_seq,
    lemma_view_param_seq,
};

verus! {

broadcast use lemma_view_type_seq, lemma_view_bound_seq, lemma_view_param_seq;

// --- What the renderer produces, stated mathematically --- //

/// Text of one generic argument: its primitive name, a slice of a
/// primitive, or a placeholder for a shape outside the representable set.
pub open spec fn format_generic_arg_spec(a: GenericArgV) -> Seq<char> {
    match a {
        GenericArgV::Type(tc) => match tc.primitive {
            Some(p) => p,
            None => match tc.slice {
                Some(sp) => "["@ + sp + "]"@,
                None => "/* unknown type */"@,
            },
        },
        GenericArgV::Lifetime(lt) => lt,
    }
}

/// Generic arguments joined with `, `.
pub open spec fn format_arg_list_spec(args: Seq<GenericArgV>) -> Seq<char>
    decreases args,
{
    if args.len() == 0 {
        Seq::empty()
    } else if args.len() == 1 {
        format_generic_arg_spec(args[0])
    } else {
        format_arg_list_spec(args.subrange(0, args.len() - 1)) + ", "@ + format_generic_arg_spec(
            args[args.len() - 1],
        )
    }
}

/// An angle-bracketed argument list: empty text when the list is absent or
/// has no arguments (never `<>`), and empty for the parenthesized
/// function-trait sugar, which is deliberately not expanded.
pub open spec fn format_angle_args_spec(args: Option<GenericArgsV>) -> Seq<char> {
    match args {
        Some(GenericArgsV::AngleBracketed(ab)) => if ab.args.len() == 0 {
            Seq::empty()
        } else {
            "<"@ + format_arg_list_spec(ab.args) + ">"@
        },
        Some(GenericArgsV::Parenthesized(_)) => Seq::empty(),
        None => Seq::empty(),
    }
}

/// Bare trait names joined with ` + `, for opaque-impl types.
pub open spec fn impl_bounds_spec(bs: Seq<TraitBoundV>) -> Seq<char>
    decreases bs,
{
    if bs.len() == 0 {
        Seq::empty()
    } else if bs.len() == 1 {
        bs[0].trait_.name
    } else {
        impl_bounds_spec(bs.subrange(0, bs.len() - 1)) + " + "@ + bs[bs.len() - 1].trait_.name
    }
}

/// Trait names with their argument lists joined with ` + `, for
/// trait-object types.
pub open spec fn dyn_bounds_spec(bs: Seq<TraitBoundV>) -> Seq<char>
    decreases bs,
{
    if bs.len() == 0 {
        Seq::empty()
    } else if bs.len() == 1 {
        bs[0].trait_.name + format_angle_args_spec(bs[0].trait_.args)
    } else {
        dyn_bounds_spec(bs.subrange(0, bs.len() - 1)) + " + "@ + bs[bs.len() - 1].trait_.name
            + format_angle_args_spec(bs[bs.len() - 1].trait_.args)
    }
}

/// Tuple elements joined with `, `.
pub open spec fn render_list_spec(ts: Seq<TypeExprV>) -> Seq<char>
    decreases ts,
{
    if ts.len() == 0 {
        Seq::empty()
    } else if ts.len() == 1 {
        render_type_spec(ts[0])
    } else {
        render_list_spec(ts.subrange(0, ts.len() - 1)) + ", "@ + render_type_spec(
            ts[ts.len() - 1],
        )
    }
}

/// Canonical declaration text of a type expression: one rule per variant.
pub open spec fn render_type_spec(t: TypeExprV) -> Seq<char>
    decreases t,
{
    match t {
        TypeExprV::Primitive(name) => name,
        TypeExprV::Generic(name) => name,
        TypeExprV::BorrowedRef(b) => {
            let br = *b;
            (match br.lifetime {
                Some(lt) => "&"@ + lt + " "@,
                None => "&"@,
            }) + (if br.mutable {
                "mut "@
            } else {
                Seq::<char>::empty()
            }) + render_type_spec(br.inner)
        },
        TypeExprV::RawPointer(p) => {
            let rp = *p;
            (if rp.mutable {
                "*mut "@
            } else {
                "*const "@
            }) + render_type_spec(rp.inner)
        },
        TypeExprV::Slice(inner) => "["@ + render_type_spec(*inner) + "]"@,
        TypeExprV::Array(a) => {
            let ar = *a;
            "["@ + render_type_spec(ar.inner) + "; "@ + ar.len + "]"@
        },
        TypeExprV::Tuple(elements) => if elements.len() == 0 {
            "()"@
        } else {
            "("@ + render_list_spec(elements) + ")"@
        },
        TypeExprV::ResolvedPath(p) => {
            let rp = *p;
            rp.name + format_angle_args_spec(rp.args)
        },
        TypeExprV::QualifiedPath(q) => {
            let qp = *q;
            qp.name + format_angle_args_spec(qp.args)
        },
        TypeExprV::ImplTrait(bounds) => "impl "@ + impl_bounds_spec(bounds),
        TypeExprV::DynTrait(d) => "dyn "@ + dyn_bounds_spec((*d).traits),
    }
}

/// Parameters `name: type` joined with `, `.
pub open spec fn render_params_spec(ps: Seq<(Seq<char>, TypeExprV)>) -> Seq<char>
    decreases ps,
{
    if ps.len() == 0 {
        Seq::empty()
    } else if ps.len() == 1 {
        ps[0].0 + ": "@ + render_type_spec(ps[0].1)
    } else {
        render_params_spec(ps.subrange(0, ps.len() - 1)) + ", "@ + ps[ps.len() - 1].0 + ": "@
            + render_type_spec(ps[ps.len() - 1].1)
    }
}

/// The fenced declaration block of a function.  The variadic flag is
/// carried by the model but deliberately not reflected in the output.
pub open spec fn decl_block_spec(d: FunctionDeclV, name: Seq<char>) -> Seq<char> {
    "```rust\npub fn "@ + name + "("@ + render_params_spec(d.inputs) + ")"@ + (match d.output {
        Some(t) => " -> "@ + render_type_spec(t),
        None => Seq::<char>::empty(),
    }) + ";\n```\n"@
}

// --- Join steps, one per list form --- //

/// One step of `format_arg_list_spec` over a growing prefix.
proof fn lemma_arg_list_snoc(args: Seq<GenericArgV>, i: int)
    requires
        0 <= i < args.len(),
    ensures
        format_arg_list_spec(args.subrange(0, i + 1)) == if i == 0 {
            format_generic_arg_spec(args[0])
        } else {
            format_arg_list_spec(args.subrange(0, i)) + ", "@ + format_generic_arg_spec(args[i])
        },
{
    let pre = args.subrange(0, i + 1);
    assert(pre.subrange(0, i) =~= args.subrange(0, i));
    assert(pre[pre.len() - 1] == args[i]);
    assert(format_arg_list_spec(pre) == if i == 0 {
        format_generic_arg_spec(args[0])
    } else {
        format_arg_list_spec(pre.subrange(0, i)) + ", "@ + format_generic_arg_spec(args[i])
    });
}

/// One step of `impl_bounds_spec` over a growing prefix.
proof fn lemma_impl_bounds_snoc(bs: Seq<TraitBoundV>, i: int)
    requires
        0 <= i < bs.len(),
    ensures
        impl_bounds_spec(bs.subrange(0, i + 1)) == if i == 0 {
            bs[0].trait_.name
        } else {
            impl_bounds_spec(bs.subrange(0, i)) + " + "@ + bs[i].trait_.name
        },
{
    let pre = bs.subrange(0, i + 1);
    assert(pre.subrange(0, i) =~= bs.subrange(0, i));
    assert(pre[pre.len() - 1] == bs[i]);
    assert(impl_bounds_spec(pre) == if i == 0 {
        bs[0].trait_.name
    } else {
        impl_bounds_spec(pre.subrange(0, i)) + " + "@ + bs[i].trait_.name
    });
}

/// One step of `dyn_bounds_spec` over a growing prefix.
proof fn lemma_dyn_bounds_snoc(bs: Seq<TraitBoundV>, i: int)
    requires
        0 <= i < bs.len(),
    ensures
        dyn_bounds_spec(bs.subrange(0, i + 1)) == if i == 0 {
            bs[0].trait_.name + format_angle_args_spec(bs[0].trait_.args)
        } else {
            dyn_bounds_spec(bs.subrange(0, i)) + " + "@ + bs[i].trait_.name
                + format_angle_args_spec(bs[i].trait_.args)
        },
{
    let pre = bs.subrange(0, i + 1);
    assert(pre.subrange(0, i) =~= bs.subrange(0, i));
    assert(pre[pre.len() - 1] == bs[i]);
    assert(dyn_bounds_spec(pre) == if i == 0 {
        bs[0].trait_.name + format_angle_args_spec(bs[0].trait_.args)
    } else {
        dyn_bounds_spec(pre.subrange(0, i)) + " + "@ + bs[i].trait_.name + format_angle_args_spec(
            bs[i].trait_.args,
        )
    });
}

/// One step of `render_list_spec` over a growing prefix.
proof fn lemma_render_list_snoc(ts: Seq<TypeExprV>, i: int)
    requires
        0 <= i < ts.len(),
    ensures
        render_list_spec(ts.subrange(0, i + 1)) == if i == 0 {
            render_type_spec(ts[0])
        } else {
            render_list_spec(ts.subrange(0, i)) + ", "@ + render_type_spec(ts[i])
        },
{
    let pre = ts.subrange(0, i + 1);
    assert(pre.subrange(0, i) =~= ts.subrange(0, i));
    assert(pre[pre.len() - 1] == ts[i]);
    assert(render_list_spec(pre) == if i == 0 {
        render_type_spec(ts[0])
    } else {
        render_list_spec(pre.subrange(0, i)) + ", "@ + render_type_spec(ts[i])
    });
}

/// One step of `render_params_spec` over a growing prefix.
proof fn lemma_render_params_snoc(ps: Seq<(Seq<char>, TypeExprV)>, i: int)
    requires
        0 <= i < ps.len(),
    ensures
        render_params_spec(ps.subrange(0, i + 1)) == if i == 0 {
            ps[0].0 + ": "@ + render_type_spec(ps[0].1)
        } else {
            render_params_spec(ps.subrange(0, i)) + ", "@ + ps[i].0 + ": "@ + render_type_spec(
                ps[i].1,
            )
        },
{
    let pre = ps.subrange(0, i + 1);
    assert(pre.subrange(0, i) =~= ps.subrange(0, i));
    assert(pre[pre.len() - 1] == ps[i]);
    assert(render_params_spec(pre) == if i == 0 {
        ps[0].0 + ": "@ + render_type_spec(ps[0].1)
    } else {
        render_params_spec(pre.subrange(0, i)) + ", "@ + ps[i].0 + ": "@ + render_type_spec(
            ps[i].1,
        )
    });
}

// --- The renderer --- //

impl GenericArg {
    /// Text of this generic argument.
    pub fn format(&self) -> (r: String)
        ensures
            r@ == format_generic_arg_spec(self@),
    {
        match self {
            GenericArg::Type(tc) => {
                if let Some(p) = &tc.primitive {
                    p.clone()
                } else if let Some(sc) = &tc.slice {
                    let mut s = "[".to_owned();
                    s.append(sc.primitive.as_str());
                    s.append("]");
                    proof {
                        assert(s@ =~= format_generic_arg_spec(self@));
                    }
                    s
                } else {
                    "/* unknown type */".to_owned()
                }
            },
            GenericArg::Lifetime(lt) => lt.clone(),
        }
    }
}

/// Text of an optional angle-bracketed argument list.
pub fn format_angle_bracketed_args(args: &Option<GenericArgs>) -> (r: String)
    ensures
        r@ == format_angle_args_spec(crate::schema::opt_args_view(*args)),
{
    match args {
        None => String::new(),
        Some(GenericArgs::Parenthesized(_)) => String::new(),
        Some(GenericArgs::AngleBracketed(ab)) => {
            let n: usize = ab.args.len();
            if n == 0 {
                String::new()
            } else {
                let ghost vargs = ab@.args;
                let mut s = "<".to_owned();
                let mut i: usize = 0;
                while i < n
                    invariant
                        0 < n == ab.args@.len(),
                        0 <= i <= n,
                        vargs == ab@.args,
                        vargs.len() == n,
                        s@ == "<"@ + format_arg_list_spec(vargs.subrange(0, i as int)),
                    decreases n - i,
                {
                    if i > 0 {
                        s.append(", ");
                    }
                    let piece = ab.args[i].format();
                    s.append(piece.as_str());
                    proof {
                        lemma_arg_list_snoc(vargs, i as int);
                        assert(vargs[i as int] == ab.args@[i as int]@);
                        assert(s@ =~= "<"@ + format_arg_list_spec(vargs.subrange(0, i + 1)));
                    }
                    i = i + 1;
                }
                s.append(">");
                proof {
                    assert(vargs.subrange(0, n as int) =~= vargs);
                    assert(s@ =~= format_angle_args_spec(crate::schema::opt_args_view(*args)));
                }
                s
            }
        },
    }
}

impl TypeExpr {
    /// Canonical declaration text of this type expression.  Total: every
    /// variant has exactly one rendering rule, and rendering never fails.
    #[verifier::loop_isolation(false)]
    pub fn render(&self) -> (r: String)
        ensures
            r@ == render_type_spec(self@),
        decreases *self,
    {
        match self {
            TypeExpr::Primitive(name) => name.clone(),
            TypeExpr::Generic(name) => name.clone(),
            TypeExpr::BorrowedRef(b) => {
                let mut s = "&".to_owned();
                if let Some(lt) = &b.lifetime {
                    s.append(lt.as_str());
                    s.append(" ");
                }
                if b.mutable {
                    s.append("mut ");
                }
                let inner = b.inner.render();
                s.append(inner.as_str());
                proof {
                    let brv = b@;
                    assert(self@ == TypeExprV::BorrowedRef(Box::new(brv)));
                    assert(render_type_spec(self@) == (match brv.lifetime {
                        Some(lt) => "&"@ + lt + " "@,
                        None => "&"@,
                    }) + (if brv.mutable {
                        "mut "@
                    } else {
                        Seq::<char>::empty()
                    }) + render_type_spec(brv.inner));
                    assert(s@ =~= render_type_spec(self@));
                }
                s
            },
            TypeExpr::RawPointer(p) => {
                let mut s = if p.mutable {
                    "*mut ".to_owned()
                } else {
                    "*const ".to_owned()
                };
                let inner = p.inner.render();
                s.append(inner.as_str());
                proof {
                    let rpv = p@;
                    assert(self@ == TypeExprV::RawPointer(Box::new(rpv)));
                    assert(render_type_spec(self@) == (if rpv.mutable {
                        "*mut "@
                    } else {
                        "*const "@
                    }) + render_type_spec(rpv.inner));
                    assert(s@ =~= render_type_spec(self@));
                }
                s
            },
            TypeExpr::Slice(inner) => {
                let mut s = "[".to_owned();
                let body = inner.render();
                s.append(body.as_str());
                s.append("]");
                proof {
                    assert(s@ =~= render_type_spec(self@));
                }
                s
            },
            TypeExpr::Array(a) => {
                let mut s = "[".to_owned();
                let body = a.inner.render();
                s.append(body.as_str());
                s.append("; ");
                s.append(a.len.as_str());
                s.append("]");
                proof {
                    let av = a@;
                    assert(self@ == TypeExprV::Array(Box::new(av)));
                    assert(render_type_spec(self@) == "["@ + render_type_spec(av.inner) + "; "@
                        + av.len + "]"@);
                    assert(s@ =~= render_type_spec(self@));
                }
                s
            },
            TypeExpr::Tuple(elements) => {
                let n: usize = elements.len();
                if n == 0 {
                    let r = "()".to_owned();
                    proof {
                        assert(self@ == TypeExprV::Tuple(crate::schema::view_type_seq(elements@)));
                        assert(r@ == render_type_spec(self@));
                    }
                    r
                } else {
                    let ghost vs = crate::schema::view_type_seq(elements@);
                    let mut s = "(".to_owned();
                    let mut i: usize = 0;
                    while i < n
                        invariant
                            0 < n == elements@.len(),
                            0 <= i <= n,
                            vs == crate::schema::view_type_seq(elements@),
                            vs.len() == n,
                            s@ == "("@ + render_list_spec(vs.subrange(0, i as int)),
                        decreases n - i,
                    {
                        if i > 0 {
                            s.append(", ");
                        }
                        proof {
                            assert(decreases_to!(*elements => elements@));
                            assert(decreases_to!(elements@ => elements@[i as int]));
                        }
                        let piece = elements[i].render();
                        s.append(piece.as_str());
                        proof {
                            lemma_render_list_snoc(vs, i as int);
                            assert(vs[i as int] == elements@[i as int]@);
                            assert(s@ =~= "("@ + render_list_spec(vs.subrange(0, i + 1)));
                        }
                        i = i + 1;
                    }
                    s.append(")");
                    proof {
                        assert(vs.subrange(0, n as int) =~= vs);
                        assert(self@ == TypeExprV::Tuple(vs));
                        assert(render_type_spec(self@) == "("@ + render_list_spec(vs) + ")"@);
                        assert(s@ =~= render_type_spec(self@));
                    }
                    s
                }
            },
            TypeExpr::ResolvedPath(p) => {
                let mut s = p.name.clone();
                let tail = format_angle_bracketed_args(&p.args);
                s.append(tail.as_str());
                proof {
                    let pv = p@;
                    assert(self@ == TypeExprV::ResolvedPath(Box::new(pv)));
                    assert(render_type_spec(self@) == pv.name + format_angle_args_spec(pv.args));
                    assert(s@ =~= render_type_spec(self@));
                }
                s
            },
            TypeExpr::QualifiedPath(q) => {
                let mut s = q.name.clone();
                let tail = format_angle_bracketed_args(&q.args);
                s.append(tail.as_str());
                proof {
                    let qv = q@;
                    assert(self@ == TypeExprV::QualifiedPath(Box::new(qv)));
                    assert(render_type_spec(self@) == qv.name + format_angle_args_spec(qv.args));
                    assert(s@ =~= render_type_spec(self@));
                }
                s
            },
            TypeExpr::ImplTrait(bounds) => {
                let n: usize = bounds.len();
                let ghost vb = crate::schema::view_bound_seq(bounds@);
                let mut s = "impl ".to_owned();
                let mut i: usize = 0;
                while i < n
                    invariant
                        n == bounds@.len(),
                        0 <= i <= n,
                        vb == crate::schema::view_bound_seq(bounds@),
                        vb.len() == n,
                        s@ == "impl "@ + impl_bounds_spec(vb.subrange(0, i as int)),
                    decreases n - i,
                {
                    if i > 0 {
                        s.append(" + ");
                    }
                    s.append(bounds[i].trait_.name.as_str());
                    proof {
                        lemma_impl_bounds_snoc(vb, i as int);
                        assert(vb[i as int] == bounds@[i as int]@);
                        assert(s@ =~= "impl "@ + impl_bounds_spec(vb.subrange(0, i + 1)));
                    }
                    i = i + 1;
                }
                proof {
                    assert(vb.subrange(0, n as int) =~= vb);
                    assert(s@ =~= render_type_spec(self@));
                }
                s
            },
            TypeExpr::DynTrait(d) => {
                let n: usize = d.traits.len();
                let ghost vb = crate::schema::view_bound_seq(d.traits@);
                let mut s = "dyn ".to_owned();
                let mut i: usize = 0;
                while i < n
                    invariant
                        n == d.traits@.len(),
                        0 <= i <= n,
                        vb == crate::schema::view_bound_seq(d.traits@),
                        vb.len() == n,
                        s@ == "dyn "@ + dyn_bounds_spec(vb.subrange(0, i as int)),
                    decreases n - i,
                {
                    if i > 0 {
                        s.append(" + ");
                    }
                    s.append(d.traits[i].trait_.name.as_str());
                    let tail = format_angle_bracketed_args(&d.traits[i].trait_.args);
                    s.append(tail.as_str());
                    proof {
                        lemma_dyn_bounds_snoc(vb, i as int);
                        assert(vb[i as int] == d.traits@[i as int]@);
                        assert(s@ =~= "dyn "@ + dyn_bounds_spec(vb.subrange(0, i + 1)));
                    }
                    i = i + 1;
                }
                proof {
                    assert(vb.subrange(0, n as int) =~= vb);
                    let dv = d@;
                    assert(self@ == TypeExprV::DynTrait(Box::new(dv)));
                    assert(render_type_spec(self@) == "dyn "@ + dyn_bounds_spec(dv.traits));
                    assert(s@ =~= render_type_spec(self@));
                }
                s
            },
        }
    }
}

impl FunctionDecl {
    /// The fenced declaration block for this signature under `name`.
    pub fn render(&self, name: &str) -> (r: String)
        ensures
            r@ == decl_block_spec(self@, name@),
    {
        let n: usize = self.inputs.len();
        let ghost ps = crate::schema::view_param_seq(self.inputs@);
        let mut s = "```rust\npub fn ".to_owned();
        s.append(name);
        s.append("(");
        let mut i: usize = 0;
        while i < n
            invariant
                n == self.inputs@.len(),
                0 <= i <= n,
                ps == crate::schema::view_param_seq(self.inputs@),
                ps.len() == n,
                s@ == "```rust\npub fn "@ + name@ + "("@ + render_params_spec(
                    ps.subrange(0, i as int),
                ),
            decreases n - i,
        {
            if i > 0 {
                s.append(", ");
            }
            s.append(self.inputs[i].0.as_str());
            s.append(": ");
            let piece = self.inputs[i].1.render();
            s.append(piece.as_str());
            proof {
                lemma_render_params_snoc(ps, i as int);
                assert(ps[i as int] == (self.inputs@[i as int].0@, self.inputs@[i as int].1@));
                assert(s@ =~= "```rust\npub fn "@ + name@ + "("@ + render_params_spec(
                    ps.subrange(0, i + 1),
                ));
            }
            i = i + 1;
        }
        s.append(")");
        if let Some(ret) = &self.output {
            s.append(" -> ");
            let piece = ret.render();
            s.append(piece.as_str());
        }
        s.append(";\n```\n");
        proof {
            assert(ps.subrange(0, n as int) =~= ps);
            assert(s@ =~= decl_block_spec(self@, name@));
        }
        s
    }
}

// --- Laws of the renderer --- //

/// Rendering is a function of the type expression alone: equal inputs
/// always render to equal text.
pub proof fn lemma_render_deterministic(t1: TypeExprV, t2: TypeExprV)
    requires
        t1 == t2,
    ensures
        render_type_spec(t1) == render_type_spec(t2),
{
}

/// A primitive renders as its name, verbatim.
pub proof fn lemma_render_primitive(p: Seq<char>)
    ensures
        render_type_spec(TypeExprV::Primitive(p)) == p,
{
}

/// A slice renders as its element type in square brackets.
pub proof fn lemma_render_slice(t: Box<TypeExprV>)
    ensures
        render_type_spec(TypeExprV::Slice(t)) == "["@ + render_type_spec(*t) + "]"@,
{
}

/// An array renders as its element type, `; `, and its length expression,
/// in square brackets.
pub proof fn lemma_render_array(a: Box<ArrayTypeV>)
    ensures
        render_type_spec(TypeExprV::Array(a)) == "["@ + render_type_spec(a.inner) + "; "@ + a.len
            + "]"@,
{
}

/// The empty tuple renders as `()`.
pub proof fn lemma_render_tuple_empty()
    ensures
        render_type_spec(TypeExprV::Tuple(Seq::empty())) == "()"@,
{
}

/// A two-element tuple renders as its elements, comma-joined, in
/// parentheses.
pub proof fn lemma_render_tuple_pair(a: TypeExprV, b: TypeExprV)
    ensures
        render_type_spec(TypeExprV::Tuple(seq![a, b])) == "("@ + render_type_spec(a) + ", "@
            + render_type_spec(b) + ")"@,
{
    let ts = seq![a, b];
    assert(ts.subrange(0, 1) =~= seq![a]);
    assert(render_list_spec(seq![a]) == render_type_spec(a));
    assert(render_list_spec(ts) == render_list_spec(ts.subrange(0, 1)) + ", "@ + render_type_spec(
        ts[1],
    ));
}

} // verus!
