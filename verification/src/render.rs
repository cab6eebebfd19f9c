//! Rendering a document to the concrete textual syntax: every
//! declaration becomes an S-expression, and the whole document becomes
//! the type lines, a blank separator, and the module lines.

use vstd::prelude::*;
use crate::sexpr::{
    SExpr, SExprV, make_text, pref_num, render_sv, sexpr_view, sexpr_views, lemma_sexpr_views,
};
use crate::types::{
    BuiltinType, DocV, FuncV, GenDoc, GenEnum, GenFlags, GenFunc, GenHandle, GenModule,
    GenStruct, GenType, GenTypeRef, GenUnion, IntRepr, ModuleV, TypeV,
};

verus! {

/// The identifier node of a type reference.
pub open spec fn sx_ref(idx: usize) -> SExprV {
    SExprV::Ident { text: pref_num("t_"@, idx as int) }
}

/// The keyword of a representation width.
pub open spec fn repr_text(r: IntRepr) -> Seq<char> {
    match r {
        IntRepr::U8 => "u8"@,
        IntRepr::U16 => "u16"@,
        IntRepr::U32 => "u32"@,
        IntRepr::U64 => "u64"@,
    }
}

/// The keyword of a builtin type.
pub open spec fn builtin_text(b: BuiltinType) -> Seq<char> {
    match b {
        BuiltinType::String => "string"@,
        BuiltinType::U8 => "u8"@,
        BuiltinType::U16 => "u16"@,
        BuiltinType::U32 => "u32"@,
        BuiltinType::U64 => "u64"@,
        BuiltinType::S8 => "s8"@,
        BuiltinType::S16 => "s16"@,
        BuiltinType::S32 => "s32"@,
        BuiltinType::S64 => "s64"@,
        BuiltinType::F32 => "f32"@,
        BuiltinType::F64 => "f64"@,
    }
}

/// The numbered member identifiers of an enum or flags declaration.
pub open spec fn sx_members(prefix: Seq<char>, n: usize) -> Seq<SExprV> {
    Seq::new(n as nat, |i: int| SExprV::Ident { text: pref_num(prefix, i) })
}

/// Numbered annotated entries: one `(word $prefix_i $t_ref)` node per
/// reference, used for struct fields, union fields, parameters and
/// results.
pub open spec fn sx_entries(word: Seq<char>, prefix: Seq<char>, refs: Seq<usize>) -> Seq<SExprV> {
    Seq::new(
        refs.len(),
        |i: int| SExprV::List {
            items: seq![
                SExprV::Word { text: word },
                SExprV::Ident { text: pref_num(prefix, i) },
                sx_ref(refs[i]),
            ],
        },
    )
}

/// The body of one type declaration.
pub open spec fn sx_type_body(t: TypeV) -> SExprV {
    match t {
        TypeV::Name { idx } => sx_ref(idx),
        TypeV::Enum { repr, members } => SExprV::List {
            items: seq![
                SExprV::Word { text: "enum"@ },
                SExprV::Word { text: repr_text(repr) },
            ] + sx_members("e_"@, members),
        },
        TypeV::Flags { repr, members } => SExprV::List {
            items: seq![
                SExprV::Word { text: "flags"@ },
                SExprV::Word { text: repr_text(repr) },
            ] + sx_members("f_"@, members),
        },
        TypeV::Struct { members } => SExprV::List {
            items: seq![SExprV::Word { text: "struct"@ }] + sx_entries(
                "field"@,
                "s_"@,
                members,
            ),
        },
        TypeV::Union { variants } => SExprV::List {
            items: seq![SExprV::Word { text: "union"@ }] + sx_entries(
                "field"@,
                "u_"@,
                variants,
            ),
        },
        TypeV::Handle { supertypes } => SExprV::List {
            items: seq![SExprV::Word { text: "handle"@ }] + Seq::new(
                supertypes.len(),
                |i: int| sx_ref(supertypes[i]),
            ),
        },
        TypeV::Array { idx } => SExprV::List {
            items: seq![SExprV::Word { text: "array"@ }, sx_ref(idx)],
        },
        TypeV::Pointer { idx } => SExprV::List {
            items: seq![
                SExprV::Annot { text: "witx"@ },
                SExprV::Word { text: "pointer"@ },
                sx_ref(idx),
            ],
        },
        TypeV::ConstPointer { idx } => SExprV::List {
            items: seq![
                SExprV::Annot { text: "witx"@ },
                SExprV::Word { text: "const_pointer"@ },
                sx_ref(idx),
            ],
        },
        TypeV::Builtin { builtin } => SExprV::Word { text: builtin_text(builtin) },
    }
}

/// One full type declaration line's node: `(typename $t_ix <body>)`.
pub open spec fn sx_type(t: TypeV, ix: int) -> SExprV {
    SExprV::List {
        items: seq![
            SExprV::Word { text: "typename"@ },
            SExprV::Ident { text: pref_num("t_"@, ix) },
            sx_type_body(t),
        ],
    }
}

/// One function's node: the interface annotation, the export name, then
/// the parameter and result entries.
pub open spec fn sx_func(f: FuncV, ix: int) -> SExprV {
    SExprV::List {
        items: seq![
            SExprV::Annot { text: "interface"@ },
            SExprV::Word { text: "func"@ },
            SExprV::List {
                items: seq![
                    SExprV::Word { text: "export"@ },
                    SExprV::Quote { text: pref_num("f_"@, ix) },
                ],
            },
        ] + sx_entries("param"@, "p_"@, f.params) + sx_entries("result"@, "r_"@, f.results),
    }
}

/// One module's node: `(module $m_ix <func>*)`.
pub open spec fn sx_module(m: ModuleV, ix: int) -> SExprV {
    SExprV::List {
        items: seq![
            SExprV::Word { text: "module"@ },
            SExprV::Ident { text: pref_num("m_"@, ix) },
        ] + Seq::new(m.funcs.len(), |j: int| sx_func(m.funcs[j], j)),
    }
}

/// The first `n` type declaration lines, each followed by a newline.
pub open spec fn types_text(ts: Seq<TypeV>, n: int) -> Seq<char>
    decreases n,
{
    if n <= 0 {
        Seq::empty()
    } else {
        types_text(ts, n - 1) + render_sv(sx_type(ts[n - 1], n - 1)) + seq!['\n']
    }
}

/// The first `n` module lines, each followed by a newline.
pub open spec fn modules_text(ms: Seq<ModuleV>, n: int) -> Seq<char>
    decreases n,
{
    if n <= 0 {
        Seq::empty()
    } else {
        modules_text(ms, n - 1) + render_sv(sx_module(ms[n - 1], n - 1)) + seq!['\n']
    }
}

/// The whole document's text: the type lines, a blank separator line,
/// then the module lines.
pub open spec fn doc_text(d: DocV) -> Seq<char> {
    types_text(d.types, d.types.len() as int) + seq!['\n'] + modules_text(
        d.modules,
        d.modules.len() as int,
    )
}

impl GenTypeRef {
    /// The identifier node of this reference.
    pub fn to_sexpr(&self) -> (r: SExpr)
        ensures
            r@ == sx_ref(self.idx),
    {
        SExpr::Ident(make_text("t_", self.idx))
    }
}

/// The keyword node of a representation width.
fn repr_sexpr(r: IntRepr) -> (s: SExpr)
    ensures
        s@ == (SExprV::Word { text: repr_text(r) }),
{
    let t: &str = match r {
        IntRepr::U8 => "u8",
        IntRepr::U16 => "u16",
        IntRepr::U32 => "u32",
        IntRepr::U64 => "u64",
    };
    let mut w = String::new();
    w.append(t);
    SExpr::Word(w)
}

/// Pushes `n` numbered identifiers onto a node list.
fn push_members(v: &mut Vec<SExpr>, prefix: &str, n: usize)
    ensures
        final(v)@.len() == old(v)@.len() + n,
        forall|k: int| 0 <= k < old(v)@.len() ==> final(v)@[k] == old(v)@[k],
        forall|k: int|
            0 <= k < n ==> sexpr_view(#[trigger] final(v)@[old(v)@.len() + k]) == (SExprV::Ident {
                text: pref_num(prefix@, k),
            }),
{
    let base = v.len();
    let mut ix: usize = 0;
    while ix < n
        invariant
            ix <= n,
            base == old(v)@.len(),
            v@.len() == base + ix,
            forall|k: int| 0 <= k < base ==> v@[k] == old(v)@[k],
            forall|k: int|
                0 <= k < ix ==> sexpr_view(#[trigger] v@[base + k]) == (SExprV::Ident {
                    text: pref_num(prefix@, k),
                }),
        decreases n - ix,
    {
        v.push(SExpr::Ident(make_text(prefix, ix)));
        ix = ix + 1;
    }
}

impl GenEnum {
    /// The `(enum <repr> $e_0 ..)` node.
    pub fn to_sexpr(&self) -> (r: SExpr)
        ensures
            r@ == sx_type_body(TypeV::Enum { repr: self.repr, members: self.members }),
    {
        let mut v: Vec<SExpr> = Vec::new();
        let mut w = String::new();
        w.append("enum");
        v.push(SExpr::Word(w));
        v.push(repr_sexpr(self.repr));
        push_members(&mut v, "e_", self.members);
        let r = SExpr::List(v);
        proof {
            lemma_sexpr_views(r->List_0@);
            let items = r->List_0@;
            assert forall|i: int| 2 <= i < items.len() implies sexpr_view(items[i])
                == (SExprV::Ident { text: pref_num("e_"@, i - 2) }) by {
                assert(sexpr_view(items[2 + (i - 2)]) == (SExprV::Ident {
                    text: pref_num("e_"@, i - 2),
                }));
            }
            assert(sexpr_views(items) =~= seq![
                SExprV::Word { text: "enum"@ },
                SExprV::Word { text: repr_text(self.repr) },
            ] + sx_members("e_"@, self.members));
        }
        r
    }
}

impl GenFlags {
    /// The `(flags <repr> $f_0 ..)` node.
    pub fn to_sexpr(&self) -> (r: SExpr)
        ensures
            r@ == sx_type_body(TypeV::Flags { repr: self.repr, members: self.members }),
    {
        let mut v: Vec<SExpr> = Vec::new();
        let mut w = String::new();
        w.append("flags");
        v.push(SExpr::Word(w));
        v.push(repr_sexpr(self.repr));
        push_members(&mut v, "f_", self.members);
        let r = SExpr::List(v);
        proof {
            lemma_sexpr_views(r->List_0@);
            let items = r->List_0@;
            assert forall|i: int| 2 <= i < items.len() implies sexpr_view(items[i])
                == (SExprV::Ident { text: pref_num("f_"@, i - 2) }) by {
                assert(sexpr_view(items[2 + (i - 2)]) == (SExprV::Ident {
                    text: pref_num("f_"@, i - 2),
                }));
            }
            assert(sexpr_views(items) =~= seq![
                SExprV::Word { text: "flags"@ },
                SExprV::Word { text: repr_text(self.repr) },
            ] + sx_members("f_"@, self.members));
        }
        r
    }
}

/// Pushes one numbered annotated entry per reference onto a node list.
fn push_entries(v: &mut Vec<SExpr>, word: &str, prefix: &str, refs: &Vec<GenTypeRef>)
    ensures
        final(v)@.len() == old(v)@.len() + refs@.len(),
        forall|k: int| 0 <= k < old(v)@.len() ==> final(v)@[k] == old(v)@[k],
        forall|k: int|
            0 <= k < refs@.len() ==> sexpr_view(#[trigger] final(v)@[old(v)@.len() + k])
                == sx_entries(word@, prefix@, crate::types::ref_idxs(refs@))[k],
{
    let base = v.len();
    let ghost target = sx_entries(word@, prefix@, crate::types::ref_idxs(refs@));
    let mut ix: usize = 0;
    while ix < refs.len()
        invariant
            ix <= refs@.len(),
            base == old(v)@.len(),
            v@.len() == base + ix,
            target == sx_entries(word@, prefix@, crate::types::ref_idxs(refs@)),
            forall|k: int| 0 <= k < base ==> v@[k] == old(v)@[k],
            forall|k: int|
                0 <= k < ix ==> sexpr_view(#[trigger] v@[base + k]) == target[k],
        decreases refs@.len() - ix,
    {
        let mut entry: Vec<SExpr> = Vec::new();
        let mut w = String::new();
        w.append(word);
        entry.push(SExpr::Word(w));
        entry.push(SExpr::Ident(make_text(prefix, ix)));
        entry.push(refs[ix].to_sexpr());
        let node = SExpr::List(entry);
        proof {
            lemma_sexpr_views(node->List_0@);
            assert(sexpr_views(node->List_0@) =~= seq![
                SExprV::Word { text: word@ },
                SExprV::Ident { text: pref_num(prefix@, ix as int) },
                sx_ref(refs@[ix as int].idx),
            ]);
            assert(sexpr_view(node) == target[ix as int]);
        }
        v.push(node);
        ix = ix + 1;
    }
}

impl GenStruct {
    /// The `(struct (field $s_i <type>) ..)` node.
    pub fn to_sexpr(&self) -> (r: SExpr)
        ensures
            r@ == sx_type_body(TypeV::Struct { members: self@ }),
    {
        let mut v: Vec<SExpr> = Vec::new();
        let mut w = String::new();
        w.append("struct");
        v.push(SExpr::Word(w));
        push_entries(&mut v, "field", "s_", &self.members);
        let r = SExpr::List(v);
        proof {
            lemma_sexpr_views(r->List_0@);
            let items = r->List_0@;
            assert forall|i: int| 1 <= i < items.len() implies sexpr_view(items[i]) == sx_entries(
                "field"@,
                "s_"@,
                self@,
            )[i - 1] by {
                assert(sexpr_view(items[1 + (i - 1)]) == sx_entries("field"@, "s_"@, self@)[i
                    - 1]);
            }
            assert(sexpr_views(items) =~= seq![SExprV::Word { text: "struct"@ }] + sx_entries(
                "field"@,
                "s_"@,
                self@,
            ));
        }
        r
    }
}

impl GenUnion {
    /// The `(union (field $u_i <type>) ..)` node.
    pub fn to_sexpr(&self) -> (r: SExpr)
        ensures
            r@ == sx_type_body(TypeV::Union { variants: self@ }),
    {
        let mut v: Vec<SExpr> = Vec::new();
        let mut w = String::new();
        w.append("union");
        v.push(SExpr::Word(w));
        push_entries(&mut v, "field", "u_", &self.variants);
        let r = SExpr::List(v);
        proof {
            lemma_sexpr_views(r->List_0@);
            let items = r->List_0@;
            assert forall|i: int| 1 <= i < items.len() implies sexpr_view(items[i]) == sx_entries(
                "field"@,
                "u_"@,
                self@,
            )[i - 1] by {
                assert(sexpr_view(items[1 + (i - 1)]) == sx_entries("field"@, "u_"@, self@)[i
                    - 1]);
            }
            assert(sexpr_views(items) =~= seq![SExprV::Word { text: "union"@ }] + sx_entries(
                "field"@,
                "u_"@,
                self@,
            ));
        }
        r
    }
}

impl GenHandle {
    /// The `(handle <supertype>*)` node.
    pub fn to_sexpr(&self) -> (r: SExpr)
        ensures
            r@ == sx_type_body(TypeV::Handle { supertypes: self@ }),
    {
        let mut v: Vec<SExpr> = Vec::new();
        let mut w = String::new();
        w.append("handle");
        v.push(SExpr::Word(w));
        let mut ix: usize = 0;
        while ix < self.supertypes.len()
            invariant
                ix <= self.supertypes@.len(),
                v@.len() == 1 + ix,
                sexpr_view(v@[0]) == (SExprV::Word { text: "handle"@ }),
                forall|k: int|
                    0 <= k < ix ==> sexpr_view(#[trigger] v@[1 + k]) == sx_ref(
                        self.supertypes@[k].idx,
                    ),
            decreases self.supertypes@.len() - ix,
        {
            v.push(self.supertypes[ix].to_sexpr());
            ix = ix + 1;
        }
        let r = SExpr::List(v);
        proof {
            lemma_sexpr_views(r->List_0@);
            let items = r->List_0@;
            assert forall|i: int| 1 <= i < items.len() implies sexpr_view(items[i]) == sx_ref(
                self@[i - 1],
            ) by {
                assert(sexpr_view(items[1 + (i - 1)]) == sx_ref(self.supertypes@[i - 1].idx));
            }
            assert(sexpr_views(items) =~= seq![SExprV::Word { text: "handle"@ }] + Seq::new(
                self@.len(),
                |i: int| sx_ref(self@[i]),
            ));
        }
        r
    }
}

impl GenType {
    /// The whole declaration line's node: `(typename $t_ix <body>)`.
    pub fn to_sexpr(&self, ix: usize) -> (r: SExpr)
        ensures
            r@ == sx_type(self@, ix as int),
    {
        let body = match self {
            GenType::Name(tref) => tref.to_sexpr(),
            GenType::Enum(e) => e.to_sexpr(),
            GenType::Flags(f) => f.to_sexpr(),
            GenType::Struct(s) => s.to_sexpr(),
            GenType::Union(u) => u.to_sexpr(),
            GenType::Handle(h) => h.to_sexpr(),
            GenType::Array(elem) => {
                let mut v: Vec<SExpr> = Vec::new();
                let mut w = String::new();
                w.append("array");
                v.push(SExpr::Word(w));
                v.push(elem.to_sexpr());
                let node = SExpr::List(v);
                proof {
                    lemma_sexpr_views(node->List_0@);
                    assert(sexpr_views(node->List_0@) =~= seq![
                        SExprV::Word { text: "array"@ },
                        sx_ref(elem.idx),
                    ]);
                }
                node
            },
            GenType::Pointer(elem) => pointer_sexpr(elem, true),
            GenType::ConstPointer(elem) => pointer_sexpr(elem, false),
            GenType::Builtin(b) => builtin_sexpr(*b),
        };
        let mut v: Vec<SExpr> = Vec::new();
        let mut w = String::new();
        w.append("typename");
        v.push(SExpr::Word(w));
        v.push(SExpr::Ident(make_text("t_", ix)));
        v.push(body);
        let r = SExpr::List(v);
        proof {
            lemma_sexpr_views(r->List_0@);
            assert(sexpr_views(r->List_0@) =~= seq![
                SExprV::Word { text: "typename"@ },
                SExprV::Ident { text: pref_num("t_"@, ix as int) },
                sx_type_body(self@),
            ]);
        }
        r
    }
}

/// The annotated pointer node of either mutability.
fn pointer_sexpr(elem: &GenTypeRef, mutable: bool) -> (r: SExpr)
    ensures
        mutable ==> r@ == sx_type_body(TypeV::Pointer { idx: elem.idx }),
        !mutable ==> r@ == sx_type_body(TypeV::ConstPointer { idx: elem.idx }),
{
    let mut v: Vec<SExpr> = Vec::new();
    let mut a = String::new();
    a.append("witx");
    v.push(SExpr::Annot(a));
    let mut w = String::new();
    if mutable {
        w.append("pointer");
    } else {
        w.append("const_pointer");
    }
    v.push(SExpr::Word(w));
    v.push(elem.to_sexpr());
    let r = SExpr::List(v);
    proof {
        lemma_sexpr_views(r->List_0@);
        if mutable {
            assert(sexpr_views(r->List_0@) =~= seq![
                SExprV::Annot { text: "witx"@ },
                SExprV::Word { text: "pointer"@ },
                sx_ref(elem.idx),
            ]);
        } else {
            assert(sexpr_views(r->List_0@) =~= seq![
                SExprV::Annot { text: "witx"@ },
                SExprV::Word { text: "const_pointer"@ },
                sx_ref(elem.idx),
            ]);
        }
    }
    r
}

/// The keyword node of a builtin type.
fn builtin_sexpr(b: BuiltinType) -> (r: SExpr)
    ensures
        r@ == sx_type_body(TypeV::Builtin { builtin: b }),
{
    let t: &str = match b {
        BuiltinType::String => "string",
        BuiltinType::U8 => "u8",
        BuiltinType::U16 => "u16",
        BuiltinType::U32 => "u32",
        BuiltinType::U64 => "u64",
        BuiltinType::S8 => "s8",
        BuiltinType::S16 => "s16",
        BuiltinType::S32 => "s32",
        BuiltinType::S64 => "s64",
        BuiltinType::F32 => "f32",
        BuiltinType::F64 => "f64",
    };
    let mut w = String::new();
    w.append(t);
    SExpr::Word(w)
}

impl GenFunc {
    /// The function node, exported under its numbered name.
    pub fn to_sexpr(&self, ix: usize) -> (r: SExpr)
        ensures
            r@ == sx_func(self@, ix as int),
    {
        let mut v: Vec<SExpr> = Vec::new();
        let mut a = String::new();
        a.append("interface");
        v.push(SExpr::Annot(a));
        let mut w = String::new();
        w.append("func");
        v.push(SExpr::Word(w));
        let mut ex: Vec<SExpr> = Vec::new();
        let mut ew = String::new();
        ew.append("export");
        ex.push(SExpr::Word(ew));
        ex.push(SExpr::Quote(make_text("f_", ix)));
        let export = SExpr::List(ex);
        proof {
            lemma_sexpr_views(export->List_0@);
            assert(sexpr_views(export->List_0@) =~= seq![
                SExprV::Word { text: "export"@ },
                SExprV::Quote { text: pref_num("f_"@, ix as int) },
            ]);
        }
        v.push(export);
        push_entries(&mut v, "param", "p_", &self.params);
        let ghost vmid = v@;
        push_entries(&mut v, "result", "r_", &self.results);
        let r = SExpr::List(v);
        proof {
            lemma_sexpr_views(r->List_0@);
            let items = r->List_0@;
            let np = self@.params.len() as int;
            assert forall|i: int| 3 <= i < 3 + np implies sexpr_view(items[i]) == sx_entries(
                "param"@,
                "p_"@,
                self@.params,
            )[i - 3] by {
                assert(items[i] == vmid[i]);
                assert(sexpr_view(vmid[3 + (i - 3)]) == sx_entries("param"@, "p_"@, self@.params)[
                    i - 3
                ]);
            }
            assert forall|i: int| 3 + np <= i < items.len() implies sexpr_view(items[i])
                == sx_entries("result"@, "r_"@, self@.results)[i - 3 - np] by {
                assert(sexpr_view(items[vmid.len() + (i - vmid.len())]) == sx_entries(
                    "result"@,
                    "r_"@,
                    self@.results,
                )[i - vmid.len()]);
            }
            assert(sexpr_views(items) =~= seq![
                SExprV::Annot { text: "interface"@ },
                SExprV::Word { text: "func"@ },
                SExprV::List {
                    items: seq![
                        SExprV::Word { text: "export"@ },
                        SExprV::Quote { text: pref_num("f_"@, ix as int) },
                    ],
                },
            ] + sx_entries("param"@, "p_"@, self@.params) + sx_entries(
                "result"@,
                "r_"@,
                self@.results,
            ));
        }
        r
    }
}

impl GenModule {
    /// The module node.
    pub fn to_sexpr(&self, ix: usize) -> (r: SExpr)
        ensures
            r@ == sx_module(self@, ix as int),
    {
        let mut v: Vec<SExpr> = Vec::new();
        let mut w = String::new();
        w.append("module");
        v.push(SExpr::Word(w));
        v.push(SExpr::Ident(make_text("m_", ix)));
        let mut j: usize = 0;
        while j < self.funcs.len()
            invariant
                j <= self.funcs@.len(),
                v@.len() == 2 + j,
                sexpr_view(v@[0]) == (SExprV::Word { text: "module"@ }),
                sexpr_view(v@[1]) == (SExprV::Ident { text: pref_num("m_"@, ix as int) }),
                forall|k: int|
                    0 <= k < j ==> sexpr_view(#[trigger] v@[2 + k]) == sx_func(
                        self.funcs@[k]@,
                        k,
                    ),
            decreases self.funcs@.len() - j,
        {
            v.push(self.funcs[j].to_sexpr(j));
            j = j + 1;
        }
        let r = SExpr::List(v);
        proof {
            lemma_sexpr_views(r->List_0@);
            let items = r->List_0@;
            assert forall|i: int| 2 <= i < items.len() implies sexpr_view(items[i]) == sx_func(
                self@.funcs[i - 2],
                i - 2,
            ) by {
                assert(sexpr_view(items[2 + (i - 2)]) == sx_func(self.funcs@[i - 2]@, i - 2));
            }
            assert(sexpr_views(items) =~= seq![
                SExprV::Word { text: "module"@ },
                SExprV::Ident { text: pref_num("m_"@, ix as int) },
            ] + Seq::new(self@.funcs.len(), |k: int| sx_func(self@.funcs[k], k)));
        }
        r
    }
}

impl GenDoc {
    /// The whole document's text: every type line, a blank separator,
    /// then every module line.
    pub fn render(&self) -> (r: String)
        ensures
            r@ == doc_text(self@),
    {
        let mut out = String::new();
        let mut i: usize = 0;
        while i < self.typenames.len()
            invariant
                i <= self.typenames@.len(),
                out@ == types_text(self@.types, i as int),
                self@.types.len() == self.typenames@.len(),
            decreases self.typenames@.len() - i,
        {
            let node = self.typenames[i].to_sexpr(i);
            let line = node.render();
            out.append(line.as_str());
            out.append("\n");
            proof {
                reveal_strlit("\n");
                assert(out@ =~= types_text(self@.types, i + 1));
            }
            i = i + 1;
        }
        out.append("\n");
        let ghost mid = out@;
        proof {
            reveal_strlit("\n");
            assert(mid =~= types_text(self@.types, self@.types.len() as int) + seq!['\n']);
        }
        let mut j: usize = 0;
        while j < self.modules.len()
            invariant
                j <= self.modules@.len(),
                mid == types_text(self@.types, self@.types.len() as int) + seq!['\n'],
                out@ == mid + modules_text(self@.modules, j as int),
                self@.modules.len() == self.modules@.len(),
            decreases self.modules@.len() - j,
        {
            let node = self.modules[j].to_sexpr(j);
            let line = node.render();
            out.append(line.as_str());
            out.append("\n");
            proof {
                reveal_strlit("\n");
                assert(out@ =~= mid + modules_text(self@.modules, j + 1));
            }
            j = j + 1;
        }
        proof {
            assert(out@ =~= doc_text(self@));
        }
        out
    }
}

} // verus!
