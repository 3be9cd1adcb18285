use vstd::prelude::*;
use vstd::string::{StringExecFns, StrSliceExecFns};
use crate::schema::{
    RustDoc, RustDocV, RustDocItem, RustDocItemV, ItemInner, ItemInnerV, EnumDetails, EnumDetailsV,
};
use crate::render::decl_block_spec;

verus! {

/// Whether an identifier denotes an item defined in the documented package
/// itself: its first two characters are the owning-package marker `0:`.
pub open spec fn has_owner_marker(id: Seq<char>) -> bool {
    id.len() >= 2 && id[0] == '0' && id[1] == ':'
}

/// The item under `id`: the first index entry with a matching identifier.
pub open spec fn index_get(index: Seq<(Seq<char>, RustDocItemV)>, id: Seq<char>) -> Option<
    RustDocItemV,
>
    decreases index.len(),
{
    if index.len() == 0 {
        None
    } else if index[0].0 == id {
        Some(index[0].1)
    } else {
        index_get(index.subrange(1, index.len() as int), id)
    }
}

/// One line of an enum body: the variant's comment and name, as far as the
/// identifier resolves and the fields are present.  An identifier absent
/// from the index contributes nothing.
pub open spec fn variant_line_spec(doc: RustDocV, id: Seq<char>) -> Seq<char> {
    match index_get(doc.index, id) {
        None => Seq::empty(),
        Some(v) => (match v.docs {
            Some(d) => "    /// "@ + d + "\n"@,
            None => Seq::<char>::empty(),
        }) + (match v.name {
            Some(n) => "    "@ + n + ",\n"@,
            None => Seq::<char>::empty(),
        }),
    }
}

/// The variant lines of an enum body, in order.
pub open spec fn variant_lines_spec(doc: RustDocV, vars: Seq<Seq<char>>) -> Seq<char>
    decreases vars,
{
    if vars.len() == 0 {
        Seq::empty()
    } else {
        variant_lines_spec(doc, vars.subrange(0, vars.len() - 1)) + variant_line_spec(
            doc,
            vars[vars.len() - 1],
        )
    }
}

/// The fenced body block of an enum.
pub open spec fn enum_block_spec(doc: RustDocV, e: EnumDetailsV, name: Seq<char>) -> Seq<char> {
    "```rust\npub enum "@ + name + " {\n"@ + variant_lines_spec(doc, e.variants) + "}\n```\n"@
}

/// The declaration block of an item, by kind: a function's signature, an
/// enum's body, or nothing for a kind outside this library's scope.
pub open spec fn inner_block_spec(doc: RustDocV, inner: Option<ItemInnerV>, name: Seq<char>) -> Seq<
    char,
> {
    match inner {
        None => Seq::empty(),
        Some(ItemInnerV::Function(d)) => decl_block_spec(d, name) + "\n"@,
        Some(ItemInnerV::Enum(e)) => enum_block_spec(doc, e, name) + "\n"@,
    }
}

/// The printed block of one item: separator, name heading, optional
/// declaration block, and comment.  An item without a name or without a
/// comment is not rendered.
pub open spec fn item_block_spec(doc: RustDocV, item: RustDocItemV) -> Option<Seq<char>> {
    match (item.name, item.docs) {
        (Some(name), Some(docs)) => Some(
            "---\n\n`"@ + name + "`:\n\n"@ + inner_block_spec(doc, item.inner, name) + docs
                + "\n\n"@,
        ),
        _ => None,
    }
}

/// What rendering an identifier yields: nothing for an unknown, unnamed or
/// undocumented item.
pub open spec fn render_item_spec(doc: RustDocV, id: Seq<char>) -> Option<Seq<char>> {
    match index_get(doc.index, id) {
        None => None,
        Some(item) => item_block_spec(doc, item),
    }
}

/// The text of a bool.
pub open spec fn bool_text(b: bool) -> Seq<char> {
    if b {
        "true"@
    } else {
        "false"@
    }
}

/// The document header.
pub open spec fn header_spec(doc: RustDocV) -> Seq<char> {
    "Crate Documentation\n==================\n\nRoot: "@ + doc.root + "\nVersion: "@
        + doc.crate_version + "\nIncludes private items: "@ + bool_text(doc.includes_private)
        + "\n\nItems\n-----\n\n"@
}

/// What one index entry contributes to the document text: its item block
/// if its identifier carries the owning-package marker and the item is
/// rendered, nothing otherwise.
pub open spec fn entry_block_spec(doc: RustDocV, entry: (Seq<char>, RustDocItemV)) -> Seq<char> {
    if has_owner_marker(entry.0) {
        match item_block_spec(doc, entry.1) {
            Some(s) => s,
            None => Seq::empty(),
        }
    } else {
        Seq::empty()
    }
}

/// The blocks of the first `n` index entries, in index order.
pub open spec fn items_blocks_spec(doc: RustDocV, n: int) -> Seq<char>
    decreases n,
{
    if n <= 0 {
        Seq::empty()
    } else {
        items_blocks_spec(doc, n - 1) + entry_block_spec(doc, doc.index[n - 1])
    }
}

/// The full document text: header, then the owning-package items in index
/// order.
pub open spec fn doc_text_spec(doc: RustDocV) -> Seq<char> {
    header_spec(doc) + items_blocks_spec(doc, doc.index.len() as int)
}

/// One step of `variant_lines_spec` over a growing prefix.
proof fn lemma_variant_lines_snoc(doc: RustDocV, vars: Seq<Seq<char>>, i: int)
    requires
        0 <= i < vars.len(),
    ensures
        variant_lines_spec(doc, vars.subrange(0, i + 1)) == variant_lines_spec(
            doc,
            vars.subrange(0, i),
        ) + variant_line_spec(doc, vars[i]),
{
    let pre = vars.subrange(0, i + 1);
    assert(pre.subrange(0, i) =~= vars.subrange(0, i));
    assert(pre[pre.len() - 1] == vars[i]);
    assert(variant_lines_spec(doc, pre) == variant_lines_spec(doc, pre.subrange(0, i))
        + variant_line_spec(doc, vars[i]));
}

/// Whether this identifier denotes an item of the documented package.
pub fn is_owner_id(id: &str) -> (r: bool)
    ensures
        r == has_owner_marker(id@),
{
    let n = id.unicode_len();
    if n < 2 {
        false
    } else {
        let c0 = id.get_char(0);
        let c1 = id.get_char(1);
        c0 == '0' && c1 == ':'
    }
}

impl RustDoc {
    /// Read-only lookup of an item by its identifier.
    #[verifier::loop_isolation(false)]
    pub fn resolve(&self, item_id: &str) -> (r: Option<&RustDocItem>)
        ensures
            match r {
                Some(item) => index_get(self@.index, item_id@) == Some(item@),
                None => index_get(self@.index, item_id@) is None,
            },
    {
        let ghost vs = self@.index;
        let k: String = item_id.to_owned();
        let n: usize = self.index.len();
        let mut i: usize = 0;
        proof {
            assert(vs.subrange(0, vs.len() as int) =~= vs);
        }
        while i < n
            invariant
                0 <= i <= n,
                index_get(vs, item_id@) == index_get(vs.subrange(i as int, vs.len() as int), item_id@),
            decreases n - i,
        {
            let ghost suffix = vs.subrange(i as int, vs.len() as int);
            proof {
                assert(suffix[0] == vs[i as int]);
                assert(vs[i as int] == (self.index@[i as int].0@, self.index@[i as int].1@));
            }
            if self.index[i].0 == k {
                return Some(&self.index[i].1);
            }
            proof {
                assert(suffix.subrange(1, suffix.len() as int) =~= vs.subrange(
                    i + 1,
                    vs.len() as int,
                ));
            }
            i = i + 1;
        }
        None
    }

    /// The printed block for the item under `item_id`: `None` when the
    /// identifier is unknown or the item is unnamed or undocumented.
    pub fn render_item(&self, item_id: &str) -> (r: Option<String>)
        ensures
            match r {
                Some(s) => render_item_spec(self@, item_id@) == Some(s@),
                None => render_item_spec(self@, item_id@) is None,
            },
    {
        match self.resolve(item_id) {
            None => None,
            Some(item) => item_block(self, item),
        }
    }

    /// The full document text: header, then each owning-package item's
    /// block, in index order.
    #[verifier::loop_isolation(false)]
    pub fn render(&self) -> (r: String)
        ensures
            r@ == doc_text_spec(self@),
    {
        let mut s = "Crate Documentation\n==================\n\nRoot: ".to_owned();
        s.append(self.root.as_str());
        s.append("\nVersion: ");
        s.append(self.crate_version.as_str());
        s.append("\nIncludes private items: ");
        if self.includes_private {
            s.append("true");
        } else {
            s.append("false");
        }
        s.append("\n\nItems\n-----\n\n");
        proof {
            assert(s@ =~= header_spec(self@));
        }
        let n: usize = self.index.len();
        let mut i: usize = 0;
        while i < n
            invariant
                0 <= i <= n,
                s@ == header_spec(self@) + items_blocks_spec(self@, i as int),
            decreases n - i,
        {
            proof {
                assert(items_blocks_spec(self@, i + 1) == items_blocks_spec(self@, i as int)
                    + entry_block_spec(self@, self@.index[i as int]));
                assert(self@.index[i as int] == (self.index@[i as int].0@, self.index@[i as int].1@));
            }
            if is_owner_id(self.index[i].0.as_str()) {
                match item_block(self, &self.index[i].1) {
                    Some(b) => {
                        s.append(b.as_str());
                    },
                    None => {
                    },
                }
            }
            proof {
                assert(s@ =~= header_spec(self@) + items_blocks_spec(self@, i + 1));
            }
            i = i + 1;
        }
        s
    }
}

/// The fenced body block of an enum, resolving each variant identifier
/// through the document's index.
#[verifier::loop_isolation(false)]
fn enum_block(doc: &RustDoc, e: &EnumDetails, name: &str) -> (r: String)
    ensures
        r@ == enum_block_spec(doc@, e@, name@),
{
    let ghost vvars = e@.variants;
    let mut s = "```rust\npub enum ".to_owned();
    s.append(name);
    s.append(" {\n");
    let n: usize = e.variants.len();
    let mut i: usize = 0;
    proof {
        assert(vvars.subrange(0, 0) =~= Seq::<Seq<char>>::empty());
    }
    while i < n
        invariant
            0 <= i <= n,
            s@ == "```rust\npub enum "@ + name@ + " {\n"@ + variant_lines_spec(
                doc@,
                vvars.subrange(0, i as int),
            ),
        decreases n - i,
    {
        proof {
            lemma_variant_lines_snoc(doc@, vvars, i as int);
            assert(vvars[i as int] == e.variants@[i as int]@);
        }
        match doc.resolve(e.variants[i].as_str()) {
            Some(item) => {
                if let Some(d) = &item.docs {
                    s.append("    /// ");
                    s.append(d.as_str());
                    s.append("\n");
                }
                if let Some(vn) = &item.name {
                    s.append("    ");
                    s.append(vn.as_str());
                    s.append(",\n");
                }
            },
            None => {
            },
        }
        proof {
            assert(s@ =~= "```rust\npub enum "@ + name@ + " {\n"@ + variant_lines_spec(
                doc@,
                vvars.subrange(0, i + 1),
            ));
        }
        i = i + 1;
    }
    s.append("}\n```\n");
    proof {
        assert(vvars.subrange(0, n as int) =~= vvars);
        assert(s@ =~= enum_block_spec(doc@, e@, name@));
    }
    s
}

/// The printed block of one item, or `None` when it is unnamed or
/// undocumented.
fn item_block(doc: &RustDoc, item: &RustDocItem) -> (r: Option<String>)
    ensures
        match r {
            Some(s) => item_block_spec(doc@, item@) == Some(s@),
            None => item_block_spec(doc@, item@) is None,
        },
{
    let name = match &item.name {
        Some(n) => n,
        None => {
            return None;
        },
    };
    let docs = match &item.docs {
        Some(d) => d,
        None => {
            return None;
        },
    };
    let mut s = "---\n\n`".to_owned();
    s.append(name.as_str());
    s.append("`:\n\n");
    match &item.inner {
        None => {
        },
        Some(ItemInner::Function(d)) => {
            let b = d.render(name.as_str());
            s.append(b.as_str());
            s.append("\n");
        },
        Some(ItemInner::Enum(e)) => {
            let b = enum_block(doc, e, name.as_str());
            s.append(b.as_str());
            s.append("\n");
        },
    }
    s.append(docs.as_str());
    s.append("\n\n");
    proof {
        assert(s@ =~= item_block_spec(doc@, item@)->Some_0);
    }
    Some(s)
}

} // verus!
