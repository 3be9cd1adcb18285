use vstd::prelude::*;

verus! {

/// The root of a parsed documentation description.
///
/// `index` maps opaque identifiers to items.  Identifiers are kept in the
/// order the loader produced them, and an identifier whose first two
/// characters are `0:` marks an item defined in the documented package
/// itself (as opposed to a re-exported or external item).
pub struct RustDoc {
    pub root: String,
    pub crate_version: String,
    pub includes_private: bool,
    pub index: Vec<(String, RustDocItem)>,
}

/// One documented entity.  `inner` is present only when the item is a kind
/// this library renders a declaration for (function or enum); items of any
/// other kind carry `None` and are rendered as comment only.
pub struct RustDocItem {
    pub name: Option<String>,
    pub docs: Option<String>,
    pub visibility: Option<String>,
    pub inner: Option<ItemInner>,
}

/// The declaration payload of an item, tagged by kind.
pub enum ItemInner {
    Function(FunctionDecl),
    Enum(EnumDetails),
}

/// An enum body: identifiers of the variant items (resolved through the
/// document's index at render time) and whether the list was truncated.
pub struct EnumDetails {
    pub variants: Vec<String>,
    pub variants_stripped: bool,
}

/// A function signature: named parameters, an optional return type, and
/// whether the parameter list ends in a C-style variadic.
pub struct FunctionDecl {
    pub inputs: Vec<(String, TypeExpr)>,
    pub output: Option<TypeExpr>,
    pub c_variadic: bool,
}

/// The ways a value's type can be written: the central recursive sum type.
pub enum TypeExpr {
    Primitive(String),
    Generic(String),
    BorrowedRef(Box<BorrowedRef>),
    RawPointer(Box<RawPointer>),
    Slice(Box<TypeExpr>),
    Array(Box<ArrayType>),
    Tuple(Vec<TypeExpr>),
    ResolvedPath(Box<ResolvedPath>),
    QualifiedPath(Box<QualifiedPath>),
    ImplTrait(Vec<TraitBound>),
    DynTrait(Box<DynTrait>),
}

/// A reference type: optional lifetime, mutability, referent.
pub struct BorrowedRef {
    pub lifetime: Option<String>,
    pub mutable: bool,
    pub inner: TypeExpr,
}

/// A raw pointer type.
pub struct RawPointer {
    pub mutable: bool,
    pub inner: TypeExpr,
}

/// A fixed-size array: element type and length expression (kept as text,
/// since lengths may be const expressions).
pub struct ArrayType {
    pub inner: TypeExpr,
    pub len: String,
}

/// A named type, optionally parameterized by generic arguments.  `id` is a
/// non-owning lookup key into the document's index.
pub struct ResolvedPath {
    pub name: String,
    pub id: Option<String>,
    pub args: Option<GenericArgs>,
}

/// An associated-type projection on a self type, optionally within a trait.
pub struct QualifiedPath {
    pub name: String,
    pub args: Option<GenericArgs>,
    pub self_type: TypeExpr,
    pub trait_: Option<ResolvedPath>,
}

/// A trait-object type: optional lifetime bound and trait bounds.
pub struct DynTrait {
    pub lifetime: Option<String>,
    pub traits: Vec<TraitBound>,
}

/// A constraint naming a trait, with an optional modifier (e.g. a relaxed
/// bound) and higher-ranked generic parameters, which are opaque here.
pub struct TraitBound {
    pub generic_params: Vec<GenericParam>,
    pub modifier: Option<String>,
    pub trait_: ResolvedPath,
}

/// A higher-ranked generic parameter of a trait bound.  No attribute of it
/// is read by this library.
pub struct GenericParam {}

/// A generic-argument list: ordinary angle-bracketed arguments, or the
/// parenthesized function-trait sugar (accepted but never rendered).
pub enum GenericArgs {
    AngleBracketed(AngleBracketed),
    Parenthesized(Parenthesized),
}

/// Angle-bracketed generic arguments plus associated-type bindings.
pub struct AngleBracketed {
    pub args: Vec<GenericArg>,
    pub bindings: Vec<TypeBinding>,
}

/// Function-trait sugar arguments: inputs and an optional output.
pub struct Parenthesized {
    pub inputs: Vec<TypeExpr>,
    pub output: Option<Box<TypeExpr>>,
}

/// One angle-bracketed generic argument: a type or a lifetime.
pub enum GenericArg {
    Type(TypeContent),
    Lifetime(String),
}

/// The restricted shape of a type argument: a primitive, a slice of a
/// primitive, or neither (rendered as a placeholder).
pub struct TypeContent {
    pub primitive: Option<String>,
    pub slice: Option<SliceContent>,
}

/// The element of a slice type argument.
pub struct SliceContent {
    pub primitive: String,
}

/// An associated-type binding inside an angle-bracketed argument list.
pub struct TypeBinding {
    pub name: String,
    pub args: Option<GenericArgs>,
    pub binding: BindingKind,
}

/// The kind of an associated-type binding.
pub enum BindingKind {
    Equality(Box<TypeExpr>),
}

// --- Mathematical views --- //
//
// Each model type has a view: the same shape over `Seq<char>` and `Seq`
// instead of `String` and `Vec`.  Contracts of the parser and the renderer
// are stated over these.

/// View of `TypeExpr`.
pub enum TypeExprV {
    Primitive(Seq<char>),
    Generic(Seq<char>),
    BorrowedRef(Box<BorrowedRefV>),
    RawPointer(Box<RawPointerV>),
    Slice(Box<TypeExprV>),
    Array(Box<ArrayTypeV>),
    Tuple(Seq<TypeExprV>),
    ResolvedPath(Box<ResolvedPathV>),
    QualifiedPath(Box<QualifiedPathV>),
    ImplTrait(Seq<TraitBoundV>),
    DynTrait(Box<DynTraitV>),
}

/// View of `BorrowedRef`.
pub struct BorrowedRefV {
    pub lifetime: Option<Seq<char>>,
    pub mutable: bool,
    pub inner: TypeExprV,
}

/// View of `RawPointer`.
pub struct RawPointerV {
    pub mutable: bool,
    pub inner: TypeExprV,
}

/// View of `ArrayType`.
pub struct ArrayTypeV {
    pub inner: TypeExprV,
    pub len: Seq<char>,
}

/// View of `ResolvedPath`.
pub struct ResolvedPathV {
    pub name: Seq<char>,
    pub id: Option<Seq<char>>,
    pub args: Option<GenericArgsV>,
}

/// View of `QualifiedPath`.
pub struct QualifiedPathV {
    pub name: Seq<char>,
    pub args: Option<GenericArgsV>,
    pub self_type: TypeExprV,
    pub trait_: Option<ResolvedPathV>,
}

/// View of `DynTrait`.
pub struct DynTraitV {
    pub lifetime: Option<Seq<char>>,
    pub traits: Seq<TraitBoundV>,
}

/// View of `TraitBound`.
pub struct TraitBoundV {
    pub generic_params_len: nat,
    pub modifier: Option<Seq<char>>,
    pub trait_: ResolvedPathV,
}

/// View of `GenericArgs`.
pub enum GenericArgsV {
    AngleBracketed(AngleBracketedV),
    Parenthesized(ParenthesizedV),
}

/// View of `AngleBracketed`.
pub struct AngleBracketedV {
    pub args: Seq<GenericArgV>,
    pub bindings: Seq<TypeBindingV>,
}

/// View of `Parenthesized`.
pub struct ParenthesizedV {
    pub inputs: Seq<TypeExprV>,
    pub output: Option<Box<TypeExprV>>,
}

/// View of `GenericArg`.
pub enum GenericArgV {
    Type(TypeContentV),
    Lifetime(Seq<char>),
}

/// View of `TypeContent`.
pub struct TypeContentV {
    pub primitive: Option<Seq<char>>,
    pub slice: Option<Seq<char>>,
}

/// View of `TypeBinding`.
pub struct TypeBindingV {
    pub name: Seq<char>,
    pub args: Option<GenericArgsV>,
    pub binding: BindingKindV,
}

/// View of `BindingKind`.
pub enum BindingKindV {
    Equality(Box<TypeExprV>),
}

/// View of `FunctionDecl`.
pub struct FunctionDeclV {
    pub inputs: Seq<(Seq<char>, TypeExprV)>,
    pub output: Option<TypeExprV>,
    pub c_variadic: bool,
}

/// View of `EnumDetails`.
pub struct EnumDetailsV {
    pub variants: Seq<Seq<char>>,
    pub variants_stripped: bool,
}

/// View of `ItemInner`.
pub enum ItemInnerV {
    Function(FunctionDeclV),
    Enum(EnumDetailsV),
}

/// View of `RustDocItem`.
pub struct RustDocItemV {
    pub name: Option<Seq<char>>,
    pub docs: Option<Seq<char>>,
    pub visibility: Option<Seq<char>>,
    pub inner: Option<ItemInnerV>,
}

/// View of `RustDoc`.
pub struct RustDocV {
    pub root: Seq<char>,
    pub crate_version: Seq<char>,
    pub includes_private: bool,
    pub index: Seq<(Seq<char>, RustDocItemV)>,
}

/// View of an optional string.
pub open spec fn opt_str_view(s: Option<String>) -> Option<Seq<char>> {
    match s {
        Some(v) => Some(v@),
        None => None,
    }
}

/// View of an optional declaration payload.
pub open spec fn opt_inner_view(inner: Option<ItemInner>) -> Option<ItemInnerV> {
    match inner {
        Some(i) => Some(i@),
        None => None,
    }
}

/// View of an optional generic-argument list.
pub open spec fn opt_args_view(a: Option<GenericArgs>) -> Option<GenericArgsV> {
    match a {
        Some(g) => Some(g@),
        None => None,
    }
}

/// Element-wise view of a sequence of type expressions.
pub open spec fn view_type_seq(ts: Seq<TypeExpr>) -> Seq<TypeExprV>
    decreases ts,
{
    if ts.len() == 0 {
        Seq::empty()
    } else {
        view_type_seq(ts.subrange(0, ts.len() - 1)).push(ts[ts.len() - 1].view())
    }
}

/// Element-wise view of a sequence of trait bounds.
pub open spec fn view_bound_seq(bs: Seq<TraitBound>) -> Seq<TraitBoundV>
    decreases bs,
{
    if bs.len() == 0 {
        Seq::empty()
    } else {
        view_bound_seq(bs.subrange(0, bs.len() - 1)).push(bs[bs.len() - 1].view())
    }
}

/// Element-wise view of a sequence of associated-type bindings.
pub open spec fn view_binding_seq(bs: Seq<TypeBinding>) -> Seq<TypeBindingV>
    decreases bs,
{
    if bs.len() == 0 {
        Seq::empty()
    } else {
        view_binding_seq(bs.subrange(0, bs.len() - 1)).push(bs[bs.len() - 1].view())
    }
}

/// Element-wise view of a sequence of named parameters.
pub open spec fn view_param_seq(ps: Seq<(String, TypeExpr)>) -> Seq<(Seq<char>, TypeExprV)>
    decreases ps,
{
    if ps.len() == 0 {
        Seq::empty()
    } else {
        view_param_seq(ps.subrange(0, ps.len() - 1)).push(
            (ps[ps.len() - 1].0@, ps[ps.len() - 1].1.view()),
        )
    }
}

/// Element-wise view of a sequence of generic arguments.
pub open spec fn view_arg_seq(args: Seq<GenericArg>) -> Seq<GenericArgV> {
    Seq::new(args.len(), |i: int| args[i]@)
}

/// Element-wise view of a sequence of strings.
pub open spec fn view_str_seq(ss: Seq<String>) -> Seq<Seq<char>> {
    Seq::new(ss.len(), |i: int| ss[i]@)
}

/// Element-wise view of the identifier-to-item index.
pub open spec fn view_index_seq(es: Seq<(String, RustDocItem)>) -> Seq<(Seq<char>, RustDocItemV)> {
    Seq::new(es.len(), |i: int| (es[i].0@, es[i].1@))
}

/// `view_index_seq` of a push.
pub proof fn lemma_view_index_seq_push(es: Seq<(String, RustDocItem)>, e: (String, RustDocItem))
    ensures
        view_index_seq(es.push(e)) == view_index_seq(es).push((e.0@, e.1@)),
{
    assert(view_index_seq(es.push(e)) =~= view_index_seq(es).push((e.0@, e.1@)));
}

/// `view_arg_seq` of a push.
pub proof fn lemma_view_arg_seq_push(args: Seq<GenericArg>, a: GenericArg)
    ensures
        view_arg_seq(args.push(a)) == view_arg_seq(args).push(a@),
{
    assert(view_arg_seq(args.push(a)) =~= view_arg_seq(args).push(a@));
}

/// `view_str_seq` of a push.
pub proof fn lemma_view_str_seq_push(ss: Seq<String>, s: String)
    ensures
        view_str_seq(ss.push(s)) == view_str_seq(ss).push(s@),
{
    assert(view_str_seq(ss.push(s)) =~= view_str_seq(ss).push(s@));
}

/// `view_type_seq` of a push.
pub proof fn lemma_view_type_seq_push(ts: Seq<TypeExpr>, t: TypeExpr)
    ensures
        view_type_seq(ts.push(t)) == view_type_seq(ts).push(t@),
{
    let p = ts.push(t);
    assert(p.subrange(0, p.len() - 1) =~= ts);
    assert(p[p.len() - 1] == t);
    assert(view_type_seq(p) == view_type_seq(ts).push(t@));
}

/// `view_bound_seq` of a push.
pub proof fn lemma_view_bound_seq_push(bs: Seq<TraitBound>, b: TraitBound)
    ensures
        view_bound_seq(bs.push(b)) == view_bound_seq(bs).push(b@),
{
    let p = bs.push(b);
    assert(p.subrange(0, p.len() - 1) =~= bs);
    assert(p[p.len() - 1] == b);
    assert(view_bound_seq(p) == view_bound_seq(bs).push(b@));
}

/// `view_binding_seq` of a push.
pub proof fn lemma_view_binding_seq_push(bs: Seq<TypeBinding>, b: TypeBinding)
    ensures
        view_binding_seq(bs.push(b)) == view_binding_seq(bs).push(b@),
{
    let p = bs.push(b);
    assert(p.subrange(0, p.len() - 1) =~= bs);
    assert(p[p.len() - 1] == b);
    assert(view_binding_seq(p) == view_binding_seq(bs).push(b@));
}

/// `view_param_seq` of a push.
pub proof fn lemma_view_param_seq_push(ps: Seq<(String, TypeExpr)>, p: (String, TypeExpr))
    ensures
        view_param_seq(ps.push(p)) == view_param_seq(ps).push((p.0@, p.1@)),
{
    let q = ps.push(p);
    assert(q.subrange(0, q.len() - 1) =~= ps);
    assert(q[q.len() - 1] == p);
    assert(view_param_seq(q) == view_param_seq(ps).push((p.0@, p.1@)));
}

/// `view_type_seq` views element-wise.
pub broadcast proof fn lemma_view_type_seq(ts: Seq<TypeExpr>)
    ensures
        (#[trigger] view_type_seq(ts)).len() == ts.len(),
        forall|i: int| 0 <= i < ts.len() ==> view_type_seq(ts)[i] == ts[i].view(),
    decreases ts.len(),
{
    if ts.len() > 0 {
        let pre = ts.subrange(0, ts.len() - 1);
        lemma_view_type_seq(pre);
        assert(view_type_seq(ts) == view_type_seq(pre).push(ts[ts.len() - 1].view()));
        assert(view_type_seq(ts).len() == ts.len());
        assert forall|i: int| 0 <= i < ts.len() implies view_type_seq(ts)[i] == ts[i].view() by {
            if i < ts.len() - 1 {
                assert(pre[i] == ts[i]);
            }
        }
    }
}

/// `view_bound_seq` views element-wise.
pub broadcast proof fn lemma_view_bound_seq(bs: Seq<TraitBound>)
    ensures
        (#[trigger] view_bound_seq(bs)).len() == bs.len(),
        forall|i: int| 0 <= i < bs.len() ==> view_bound_seq(bs)[i] == bs[i].view(),
    decreases bs.len(),
{
    if bs.len() > 0 {
        let pre = bs.subrange(0, bs.len() - 1);
        lemma_view_bound_seq(pre);
        assert(view_bound_seq(bs) == view_bound_seq(pre).push(bs[bs.len() - 1].view()));
        assert forall|i: int| 0 <= i < bs.len() implies view_bound_seq(bs)[i] == bs[i].view() by {
            if i < bs.len() - 1 {
                assert(pre[i] == bs[i]);
            }
        }
    }
}

/// `view_param_seq` views element-wise.
pub broadcast proof fn lemma_view_param_seq(ps: Seq<(String, TypeExpr)>)
    ensures
        (#[trigger] view_param_seq(ps)).len() == ps.len(),
        forall|i: int| 0 <= i < ps.len() ==> view_param_seq(ps)[i] == (
            ps[i].0@,
            ps[i].1.view(),
        ),
    decreases ps.len(),
{
    if ps.len() > 0 {
        let pre = ps.subrange(0, ps.len() - 1);
        lemma_view_param_seq(pre);
        assert(view_param_seq(ps) == view_param_seq(pre).push((ps[ps.len() - 1].0@, ps[ps.len() - 1].1.view())));
        assert forall|i: int| 0 <= i < ps.len() implies view_param_seq(ps)[i] == (
            ps[i].0@,
            ps[i].1.view(),
        ) by {
            if i < ps.len() - 1 {
                assert(pre[i] == ps[i]);
            }
        }
    }
}

impl View for TypeExpr {
    type V = TypeExprV;

    open spec fn view(&self) -> TypeExprV
        decreases self,
    {
        match self {
            TypeExpr::Primitive(name) => TypeExprV::Primitive(name@),
            TypeExpr::Generic(name) => TypeExprV::Generic(name@),
            TypeExpr::BorrowedRef(b) => TypeExprV::BorrowedRef(Box::new((**b).view())),
            TypeExpr::RawPointer(p) => TypeExprV::RawPointer(Box::new((**p).view())),
            TypeExpr::Slice(inner) => TypeExprV::Slice(Box::new((**inner).view())),
            TypeExpr::Array(a) => TypeExprV::Array(Box::new((**a).view())),
            TypeExpr::Tuple(elements) => TypeExprV::Tuple(view_type_seq(elements@)),
            TypeExpr::ResolvedPath(p) => TypeExprV::ResolvedPath(Box::new((**p).view())),
            TypeExpr::QualifiedPath(q) => TypeExprV::QualifiedPath(Box::new((**q).view())),
            TypeExpr::ImplTrait(bounds) => TypeExprV::ImplTrait(view_bound_seq(bounds@)),
            TypeExpr::DynTrait(d) => TypeExprV::DynTrait(Box::new((**d).view())),
        }
    }
}

impl View for BorrowedRef {
    type V = BorrowedRefV;

    open spec fn view(&self) -> BorrowedRefV
        decreases self,
    {
        BorrowedRefV {
            lifetime: opt_str_view(self.lifetime),
            mutable: self.mutable,
            inner: self.inner.view(),
        }
    }
}

impl View for RawPointer {
    type V = RawPointerV;

    open spec fn view(&self) -> RawPointerV
        decreases self,
    {
        RawPointerV { mutable: self.mutable, inner: self.inner.view() }
    }
}

impl View for ArrayType {
    type V = ArrayTypeV;

    open spec fn view(&self) -> ArrayTypeV
        decreases self,
    {
        ArrayTypeV { inner: self.inner.view(), len: self.len@ }
    }
}

impl View for ResolvedPath {
    type V = ResolvedPathV;

    open spec fn view(&self) -> ResolvedPathV
        decreases self,
    {
        ResolvedPathV {
            name: self.name@,
            id: opt_str_view(self.id),
            args: match self.args {
                Some(ga) => Some(ga.view()),
                None => None,
            },
        }
    }
}

impl View for QualifiedPath {
    type V = QualifiedPathV;

    open spec fn view(&self) -> QualifiedPathV
        decreases self,
    {
        QualifiedPathV {
            name: self.name@,
            args: match self.args {
                Some(ga) => Some(ga.view()),
                None => None,
            },
            self_type: self.self_type.view(),
            trait_: match self.trait_ {
                Some(rp) => Some(rp.view()),
                None => None,
            },
        }
    }
}

impl View for DynTrait {
    type V = DynTraitV;

    open spec fn view(&self) -> DynTraitV
        decreases self,
    {
        DynTraitV {
            lifetime: opt_str_view(self.lifetime),
            traits: view_bound_seq(self.traits@),
        }
    }
}

impl View for TraitBound {
    type V = TraitBoundV;

    open spec fn view(&self) -> TraitBoundV
        decreases self,
    {
        TraitBoundV {
            generic_params_len: self.generic_params@.len(),
            modifier: opt_str_view(self.modifier),
            trait_: self.trait_.view(),
        }
    }
}

impl View for GenericArgs {
    type V = GenericArgsV;

    open spec fn view(&self) -> GenericArgsV
        decreases self,
    {
        match self {
            GenericArgs::AngleBracketed(ab) => GenericArgsV::AngleBracketed(ab.view()),
            GenericArgs::Parenthesized(p) => GenericArgsV::Parenthesized(p.view()),
        }
    }
}

impl View for AngleBracketed {
    type V = AngleBracketedV;

    open spec fn view(&self) -> AngleBracketedV
        decreases self,
    {
        AngleBracketedV {
            args: Seq::new(self.args@.len(), |i: int| self.args@[i].view()),
            bindings: view_binding_seq(self.bindings@),
        }
    }
}

impl View for Parenthesized {
    type V = ParenthesizedV;

    open spec fn view(&self) -> ParenthesizedV
        decreases self,
    {
        ParenthesizedV {
            inputs: view_type_seq(self.inputs@),
            output: match self.output {
                Some(t) => Some(Box::new((*t).view())),
                None => None,
            },
        }
    }
}

impl View for GenericArg {
    type V = GenericArgV;

    open spec fn view(&self) -> GenericArgV {
        match self {
            GenericArg::Type(tc) => GenericArgV::Type(tc.view()),
            GenericArg::Lifetime(lt) => GenericArgV::Lifetime(lt@),
        }
    }
}

impl View for TypeContent {
    type V = TypeContentV;

    open spec fn view(&self) -> TypeContentV {
        TypeContentV {
            primitive: opt_str_view(self.primitive),
            slice: match self.slice {
                Some(sc) => Some(sc.primitive@),
                None => None,
            },
        }
    }
}

impl View for TypeBinding {
    type V = TypeBindingV;

    open spec fn view(&self) -> TypeBindingV
        decreases self,
    {
        TypeBindingV {
            name: self.name@,
            args: match self.args {
                Some(ga) => Some(ga.view()),
                None => None,
            },
            binding: self.binding.view(),
        }
    }
}

impl View for BindingKind {
    type V = BindingKindV;

    open spec fn view(&self) -> BindingKindV
        decreases self,
    {
        match self {
            BindingKind::Equality(t) => BindingKindV::Equality(Box::new((**t).view())),
        }
    }
}

impl View for FunctionDecl {
    type V = FunctionDeclV;

    open spec fn view(&self) -> FunctionDeclV {
        FunctionDeclV {
            inputs: view_param_seq(self.inputs@),
            output: match self.output {
                Some(t) => Some(t.view()),
                None => None,
            },
            c_variadic: self.c_variadic,
        }
    }
}

impl View for EnumDetails {
    type V = EnumDetailsV;

    open spec fn view(&self) -> EnumDetailsV {
        EnumDetailsV {
            variants: Seq::new(self.variants@.len(), |i: int| self.variants@[i]@),
            variants_stripped: self.variants_stripped,
        }
    }
}

impl View for ItemInner {
    type V = ItemInnerV;

    open spec fn view(&self) -> ItemInnerV {
        match self {
            ItemInner::Function(d) => ItemInnerV::Function(d.view()),
            ItemInner::Enum(e) => ItemInnerV::Enum(e.view()),
        }
    }
}

impl View for RustDocItem {
    type V = RustDocItemV;

    open spec fn view(&self) -> RustDocItemV {
        RustDocItemV {
            name: opt_str_view(self.name),
            docs: opt_str_view(self.docs),
            visibility: opt_str_view(self.visibility),
            inner: match self.inner {
                Some(inner) => Some(inner.view()),
                None => None,
            },
        }
    }
}

impl View for RustDoc {
    type V = RustDocV;

    open spec fn view(&self) -> RustDocV {
        RustDocV {
            root: self.root@,
            crate_version: self.crate_version@,
            includes_private: self.includes_private,
            index: view_index_seq(self.index@),
        }
    }
}

/// A structural error: the input tree does not match the schema.  `path`
/// names the offending field, outermost first.
#[derive(Debug)]
pub struct SchemaError {
    pub path: String,
}

impl SchemaError {
    /// An error naming the field where the mismatch was found.
    pub fn at(field: &str) -> (r: SchemaError)
        ensures
            r.path@ == field@,
    {
        SchemaError { path: field.to_owned() }
    }

    /// The same error, with the enclosing field name prepended to its path.
    pub fn within(self, field: &str) -> (r: SchemaError)
        ensures
            r.path@ == field@ + "."@ + self.path@,
    {
        let mut p: String = field.to_owned();
        p.append(".");
        p.append(self.path.as_str());
        SchemaError { path: p }
    }
}

} // verus!
