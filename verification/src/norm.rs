//! The normalization pass: rewriting one raw declaration into a valid
//! one, given the already-normalized declarations that precede it.

use vstd::prelude::*;
use crate::types::{
    FuncV, GenFunc, GenHandle, GenModule, GenStruct, GenType, GenTypeRef, GenUnion, ModuleV,
    TypeV, ref_idxs,
};

verus! {

/// One raw index reduced into `[0, m)`.
pub open spec fn norm_ref(idx: usize, m: int) -> usize {
    ((idx as int) % m) as usize
}

/// Every index of a reference list reduced into `[0, m)`.
pub open spec fn norm_refs(refs: Seq<usize>, m: int) -> Seq<usize> {
    refs.map_values(|idx: usize| norm_ref(idx, m))
}

/// The positions, in order, of the handle declarations of a type list.
pub open spec fn handle_indices(ts: Seq<TypeV>) -> Seq<usize>
    decreases ts.len(),
{
    if ts.len() == 0 {
        Seq::empty()
    } else {
        let prefix = handle_indices(ts.drop_last());
        if ts.last() is Handle {
            prefix.push((ts.len() - 1) as usize)
        } else {
            prefix
        }
    }
}

/// Raw handle supertypes rewritten so that each names a genuine earlier
/// handle: when no earlier handle exists the list becomes empty,
/// otherwise each raw index picks a position within the earlier handles.
pub open spec fn norm_handle(sups: Seq<usize>, vh: Seq<usize>) -> Seq<usize> {
    if vh.len() == 0 {
        Seq::empty()
    } else {
        sups.map_values(|s: usize| vh[(s as int) % (vh.len() as int)])
    }
}

/// One raw declaration rewritten against a prefix of `m` declarations
/// whose handle positions are `vh`.  Enum, flags and builtin declarations
/// pass through unchanged; every other kind has its references reduced.
pub open spec fn norm_type(t: TypeV, m: int, vh: Seq<usize>) -> TypeV {
    match t {
        TypeV::Name { idx } => TypeV::Name { idx: norm_ref(idx, m) },
        TypeV::Enum { repr, members } => TypeV::Enum { repr, members },
        TypeV::Flags { repr, members } => TypeV::Flags { repr, members },
        TypeV::Struct { members } => TypeV::Struct { members: norm_refs(members, m) },
        TypeV::Union { variants } => TypeV::Union { variants: norm_refs(variants, m) },
        TypeV::Handle { supertypes } => TypeV::Handle { supertypes: norm_handle(supertypes, vh) },
        TypeV::Array { idx } => TypeV::Array { idx: norm_ref(idx, m) },
        TypeV::Pointer { idx } => TypeV::Pointer { idx: norm_ref(idx, m) },
        TypeV::ConstPointer { idx } => TypeV::ConstPointer { idx: norm_ref(idx, m) },
        TypeV::Builtin { builtin } => TypeV::Builtin { builtin },
    }
}

/// The left-to-right fold: declaration `i` is rewritten against the
/// already-normalized declarations at positions `[0, i)`.
pub open spec fn norm_fold(ts: Seq<TypeV>) -> Seq<TypeV>
    decreases ts.len(),
{
    if ts.len() == 0 {
        Seq::empty()
    } else {
        let prev = norm_fold(ts.drop_last());
        prev.push(norm_type(ts.last(), prev.len() as int, handle_indices(prev)))
    }
}

/// The fold keeps the number of declarations.
pub proof fn lemma_norm_fold_len(ts: Seq<TypeV>)
    ensures
        norm_fold(ts).len() == ts.len(),
    decreases ts.len(),
{
    if ts.len() > 0 {
        lemma_norm_fold_len(ts.drop_last());
    }
}

/// A function's references reduced against the complete type list.
pub open spec fn norm_func(f: FuncV, m: int) -> FuncV {
    FuncV { params: norm_refs(f.params, m), results: norm_refs(f.results, m) }
}

/// A module's references reduced against the complete type list.
pub open spec fn norm_module(md: ModuleV, m: int) -> ModuleV {
    ModuleV { funcs: md.funcs.map_values(|f: FuncV| norm_func(f, m)) }
}

/// Rewrites raw declarations into valid ones.  Built from the ordered
/// prefix of declarations visible to the declaration being normalized.
pub struct Norm {
    /// A reference may only resolve below this bound.
    pub max_typeref: usize,
    /// The positions of the handle declarations within the prefix.
    pub valid_handles: Vec<usize>,
}

impl Norm {
    /// A declaration with no type reference never needs a positive bound.
    pub open spec fn admits(&self, t: TypeV) -> bool {
        self.max_typeref >= 1 || (t is Enum || t is Flags || t is Builtin)
    }

    pub fn new(types: &[GenType]) -> (r: Norm)
        ensures
            r.max_typeref == types@.len(),
            r.valid_handles@ == handle_indices(types@.map_values(|t: GenType| t@)),
    {
        let max_typeref = types.len();
        let mut valid_handles: Vec<usize> = Vec::new();
        let ghost tsv = types@.map_values(|t: GenType| t@);
        let mut ix: usize = 0;
        while ix < types.len()
            invariant
                ix <= types@.len(),
                tsv == types@.map_values(|t: GenType| t@),
                valid_handles@ == handle_indices(tsv.take(ix as int)),
            decreases types@.len() - ix,
        {
            proof {
                assert(tsv.take(ix + 1).drop_last() =~= tsv.take(ix as int));
                assert(tsv.take(ix + 1).last() == tsv[ix as int]);
            }
            match &types[ix] {
                GenType::Handle(_) => {
                    valid_handles.push(ix);
                },
                _ => {
                    proof {
                        assert(!(tsv[ix as int] is Handle));
                    }
                },
            }
            ix = ix + 1;
        }
        proof {
            assert(tsv.take(types@.len() as int) =~= tsv);
        }
        Norm { max_typeref, valid_handles }
    }

    pub fn typeref(&self, t: &GenTypeRef) -> (r: GenTypeRef)
        requires
            self.max_typeref >= 1,
        ensures
            r.idx == norm_ref(t.idx, self.max_typeref as int),
            r.idx < self.max_typeref,
    {
        GenTypeRef { idx: t.idx % self.max_typeref }
    }

    pub fn handle(&self, h: &GenHandle) -> (r: GenHandle)
        ensures
            r@ == norm_handle(h@, self.valid_handles@),
    {
        if self.valid_handles.len() == 0 {
            let r = GenHandle { supertypes: Vec::new() };
            proof {
                assert(r@ =~= norm_handle(h@, self.valid_handles@));
            }
            r
        } else {
            let num_valid_handles = self.valid_handles.len();
            let mut supertypes: Vec<GenTypeRef> = Vec::new();
            let ghost target = norm_handle(h@, self.valid_handles@);
            let mut i: usize = 0;
            while i < h.supertypes.len()
                invariant
                    i <= h.supertypes@.len(),
                    num_valid_handles == self.valid_handles@.len(),
                    num_valid_handles >= 1,
                    target == norm_handle(h@, self.valid_handles@),
                    target.len() == h.supertypes@.len(),
                    supertypes@.len() == i,
                    forall|k: int| 0 <= k < i ==> (#[trigger] supertypes@[k]).idx == target[k],
                decreases h.supertypes@.len() - i,
            {
                let tref = h.supertypes[i];
                let pick = self.valid_handles[tref.idx % num_valid_handles];
                supertypes.push(GenTypeRef { idx: pick });
                i = i + 1;
            }
            let r = GenHandle { supertypes };
            proof {
                assert(r@ =~= target);
            }
            r
        }
    }
}

impl GenStruct {
    pub(crate) fn normalize(&self, norm: &Norm) -> (r: GenStruct)
        requires
            norm.max_typeref >= 1,
        ensures
            r@ == norm_refs(self@, norm.max_typeref as int),
    {
        GenStruct { members: normalize_refs(&self.members, norm) }
    }
}

impl GenUnion {
    pub(crate) fn normalize(&self, norm: &Norm) -> (r: GenUnion)
        requires
            norm.max_typeref >= 1,
        ensures
            r@ == norm_refs(self@, norm.max_typeref as int),
    {
        GenUnion { variants: normalize_refs(&self.variants, norm) }
    }
}

/// Reduces each reference of a list into the normalizer's bound.
fn normalize_refs(refs: &Vec<GenTypeRef>, norm: &Norm) -> (r: Vec<GenTypeRef>)
    requires
        norm.max_typeref >= 1,
    ensures
        ref_idxs(r@) == norm_refs(ref_idxs(refs@), norm.max_typeref as int),
{
    let mut out: Vec<GenTypeRef> = Vec::new();
    let ghost target = norm_refs(ref_idxs(refs@), norm.max_typeref as int);
    let mut i: usize = 0;
    while i < refs.len()
        invariant
            i <= refs@.len(),
            norm.max_typeref >= 1,
            target == norm_refs(ref_idxs(refs@), norm.max_typeref as int),
            target.len() == refs@.len(),
            out@.len() == i,
            forall|k: int| 0 <= k < i ==> (#[trigger] out@[k]).idx == target[k],
        decreases refs@.len() - i,
    {
        out.push(norm.typeref(&refs[i]));
        i = i + 1;
    }
    proof {
        assert(ref_idxs(out@) =~= target);
    }
    out
}

impl GenType {
    /// One declaration rewritten against the prefix the normalizer was
    /// built from.
    pub fn normalize(&self, norm: &Norm) -> (r: GenType)
        requires
            norm.admits(self@),
        ensures
            r@ == norm_type(self@, norm.max_typeref as int, norm.valid_handles@),
    {
        match self {
            GenType::Name(tref) => GenType::Name(norm.typeref(tref)),
            GenType::Enum(e) => GenType::Enum(*e),
            GenType::Flags(f) => GenType::Flags(*f),
            GenType::Struct(s) => GenType::Struct(s.normalize(norm)),
            GenType::Union(u) => GenType::Union(u.normalize(norm)),
            GenType::Handle(h) => GenType::Handle(norm.handle(h)),
            GenType::Array(a) => GenType::Array(norm.typeref(a)),
            GenType::Pointer(p) => GenType::Pointer(norm.typeref(p)),
            GenType::ConstPointer(p) => GenType::ConstPointer(norm.typeref(p)),
            GenType::Builtin(b) => GenType::Builtin(*b),
        }
    }
}

impl GenFunc {
    pub(crate) fn normalize(&self, norm: &Norm) -> (r: GenFunc)
        requires
            norm.max_typeref >= 1,
        ensures
            r@ == norm_func(self@, norm.max_typeref as int),
    {
        GenFunc {
            params: normalize_refs(&self.params, norm),
            results: normalize_refs(&self.results, norm),
        }
    }
}

impl GenModule {
    pub(crate) fn normalize(&self, norm: &Norm) -> (r: GenModule)
        requires
            norm.max_typeref >= 1,
        ensures
            r@ == norm_module(self@, norm.max_typeref as int),
    {
        let mut funcs: Vec<GenFunc> = Vec::new();
        let ghost target = norm_module(self@, norm.max_typeref as int);
        let mut i: usize = 0;
        while i < self.funcs.len()
            invariant
                i <= self.funcs@.len(),
                norm.max_typeref >= 1,
                target == norm_module(self@, norm.max_typeref as int),
                target.funcs.len() == self.funcs@.len(),
                funcs@.len() == i,
                forall|k: int| 0 <= k < i ==> (#[trigger] funcs@[k])@ == target.funcs[k],
            decreases self.funcs@.len() - i,
        {
            funcs.push(self.funcs[i].normalize(norm));
            i = i + 1;
        }
        let r = GenModule { funcs };
        proof {
            assert(r@.funcs =~= target.funcs);
        }
        r
    }
}

/// The assembler's fold: declaration `i` of the raw list rewritten
/// against the normalized declarations at positions `[0, i)`.
pub fn normalize_types(raw: &Vec<GenType>) -> (r: Vec<GenType>)
    requires
        raw@.len() >= 1 ==> (raw@[0]@ is Enum || raw@[0]@ is Flags || raw@[0]@ is Builtin),
    ensures
        r@.map_values(|t: GenType| t@) == norm_fold(raw@.map_values(|t: GenType| t@)),
{
    let mut out: Vec<GenType> = Vec::new();
    let ghost rawv = raw@.map_values(|t: GenType| t@);
    let mut i: usize = 0;
    while i < raw.len()
        invariant
            i <= raw@.len(),
            rawv == raw@.map_values(|t: GenType| t@),
            raw@.len() >= 1 ==> (rawv[0] is Enum || rawv[0] is Flags || rawv[0] is Builtin),
            out@.map_values(|t: GenType| t@) =~= norm_fold(rawv.take(i as int)),
            out@.len() == i,
        decreases raw@.len() - i,
    {
        let norm = Norm::new(out.as_slice());
        proof {
            assert(rawv.take(i + 1).drop_last() =~= rawv.take(i as int));
            assert(rawv.take(i + 1).last() == rawv[i as int]);
        }
        let normalized = raw[i].normalize(&norm);
        out.push(normalized);
        proof {
            assert(out@.map_values(|t: GenType| t@) =~= norm_fold(rawv.take(i + 1)));
        }
        i = i + 1;
    }
    proof {
        assert(rawv.take(raw@.len() as int) =~= rawv);
    }
    out
}

} // verus!
