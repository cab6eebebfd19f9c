//! Proofs that the generation pipeline establishes every structural
//! invariant of a document.

use vstd::prelude::*;
use crate::gen::{
    TapeV, enum_mod, flags_mod, g_doc, g_enum, g_flags, g_func, g_funcs, g_module, g_modules,
    g_type, g_types,
};
use crate::limits::Limits;
use crate::norm::{
    handle_indices, lemma_norm_fold_len, norm_fold, norm_func, norm_handle, norm_module,
    norm_ref, norm_refs, norm_type,
};
use crate::types::{DocV, ModuleV, TypeV};
use crate::valid::{
    doc_valid, inv_counts, inv_functions, inv_handle_supertypes, inv_no_forward_refs,
    inv_root_enum, type_counts_ok, type_refs_below,
};

verus! {

/// Every entry of `handle_indices` is the position of a handle
/// declaration of the list it was computed from.
pub proof fn lemma_handle_indices(ts: Seq<TypeV>)
    requires
        ts.len() <= usize::MAX,
    ensures
        forall|j: int|
            0 <= j < handle_indices(ts).len() ==> (#[trigger] handle_indices(ts)[j]) < ts.len()
                && ts[handle_indices(ts)[j] as int] is Handle,
    decreases ts.len(),
{
    if ts.len() > 0 {
        lemma_handle_indices(ts.drop_last());
        assert forall|j: int| 0 <= j < handle_indices(ts).len() implies (#[trigger] handle_indices(
            ts,
        )[j]) < ts.len() && ts[handle_indices(ts)[j] as int] is Handle by {
            let prev = handle_indices(ts.drop_last());
            if j < prev.len() {
                assert(handle_indices(ts)[j] == prev[j]);
                assert(prev[j] < ts.drop_last().len());
                assert(ts.drop_last()[prev[j] as int] == ts[prev[j] as int]);
            } else {
                assert(ts.last() is Handle);
                assert(handle_indices(ts)[j] == (ts.len() - 1) as usize);
                assert(ts[ts.len() - 1] is Handle);
            }
        }
    }
}

/// Normalizing one declaration against a prefix leaves its kind and any
/// member counts unchanged, drives every reference below the prefix
/// length, and makes every handle supertype name a handle of the prefix.
pub proof fn lemma_norm_type(t: TypeV, prefix: Seq<TypeV>)
    requires
        prefix.len() <= usize::MAX,
        prefix.len() >= 1 || t is Enum || t is Flags || t is Builtin,
    ensures
        type_refs_below(
            norm_type(t, prefix.len() as int, handle_indices(prefix)),
            prefix.len() as int,
        ),
        (match norm_type(t, prefix.len() as int, handle_indices(prefix)) {
            TypeV::Handle { supertypes } => forall|j: int|
                0 <= j < supertypes.len() ==> (#[trigger] supertypes[j]) < prefix.len()
                    && prefix[supertypes[j] as int] is Handle,
            _ => true,
        }),
        (t is Enum || t is Flags || t is Builtin) ==> norm_type(
            t,
            prefix.len() as int,
            handle_indices(prefix),
        ) == t,
        norm_type(t, prefix.len() as int, handle_indices(prefix)) is Enum <==> t is Enum,
        norm_type(t, prefix.len() as int, handle_indices(prefix)) is Flags <==> t is Flags,
        norm_type(t, prefix.len() as int, handle_indices(prefix)) is Handle <==> t is Handle,
{
    let m = prefix.len() as int;
    let vh = handle_indices(prefix);
    lemma_handle_indices(prefix);
    let r = norm_type(t, m, vh);
    match t {
        TypeV::Struct { members } => {
            assert forall|i: int| 0 <= i < norm_refs(members, m).len() implies norm_refs(
                members,
                m,
            )[i] < m by {
                assert(norm_refs(members, m)[i] == norm_ref(members[i], m));
            }
        },
        TypeV::Union { variants } => {
            assert forall|i: int| 0 <= i < norm_refs(variants, m).len() implies norm_refs(
                variants,
                m,
            )[i] < m by {
                assert(norm_refs(variants, m)[i] == norm_ref(variants[i], m));
            }
        },
        TypeV::Handle { supertypes } => {
            let sups = norm_handle(supertypes, vh);
            assert forall|j: int| 0 <= j < sups.len() implies (#[trigger] sups[j]) < prefix.len()
                && prefix[sups[j] as int] is Handle by {
                let s = supertypes[j];
                let k = (s as int) % (vh.len() as int);
                assert(sups[j] == vh[k]);
                assert(vh[k] < ts_len_of(prefix) && prefix[vh[k] as int] is Handle) by {
                    assert(0 <= k < vh.len());
                }
            }
        },
        _ => {},
    }
}

/// The length of a type list (a named form so that quantified proofs can
/// mention it without re-typing the expression).
pub open spec fn ts_len_of(ts: Seq<TypeV>) -> int {
    ts.len() as int
}

/// After the fold, every declaration is well formed with respect to its
/// own position: references stay below it, handle supertypes name earlier
/// handles, kinds are preserved, and enum and flags declarations pass
/// through unchanged.
pub proof fn lemma_norm_fold_valid(raw: Seq<TypeV>, lim: Limits)
    requires
        raw.len() <= usize::MAX,
        raw.len() >= 1 ==> (raw[0] is Enum || raw[0] is Flags || raw[0] is Builtin),
        forall|i: int| 0 <= i < raw.len() ==> type_counts_ok(#[trigger] raw[i], lim),
    ensures
        norm_fold(raw).len() == raw.len(),
        forall|i: int|
            0 <= i < raw.len() ==> type_refs_below(#[trigger] norm_fold(raw)[i], i),
        forall|i: int|
            0 <= i < raw.len() ==> match #[trigger] norm_fold(raw)[i] {
                TypeV::Handle { supertypes } => forall|j: int|
                    0 <= j < supertypes.len() ==> (#[trigger] supertypes[j]) < i && norm_fold(
                        raw,
                    )[supertypes[j] as int] is Handle,
                _ => true,
            },
        forall|i: int| 0 <= i < raw.len() ==> type_counts_ok(#[trigger] norm_fold(raw)[i], lim),
        forall|i: int|
            0 <= i < raw.len() ==> ((#[trigger] norm_fold(raw)[i]) is Enum <==> raw[i] is Enum),
        raw.len() >= 1 ==> norm_fold(raw)[0] == raw[0],
    decreases raw.len(),
{
    lemma_norm_fold_len(raw);
    if raw.len() > 0 {
        let prev_raw = raw.drop_last();
        let prev = norm_fold(prev_raw);
        lemma_norm_fold_len(prev_raw);
        lemma_norm_fold_valid(prev_raw, lim);
        let t = raw.last();
        lemma_norm_type(t, prev);
        let nt = norm_type(t, prev.len() as int, handle_indices(prev));
        let out = norm_fold(raw);
        assert(out == prev.push(nt));
        let last: int = raw.len() - 1;
        assert forall|i: int| 0 <= i < raw.len() implies type_refs_below(
            #[trigger] out[i],
            i,
        ) by {
            if i < last {
                assert(out[i] == prev[i]);
                assert(prev_raw[i] == raw[i]);
            }
        }
        assert forall|i: int|
            0 <= i < raw.len() implies match #[trigger] out[i] {
                TypeV::Handle { supertypes } => forall|j: int|
                    0 <= j < supertypes.len() ==> (#[trigger] supertypes[j]) < i && out[
                        supertypes[j] as int
                    ] is Handle,
                _ => true,
            } by {
            if i < last {
                assert(out[i] == prev[i]);
                match out[i] {
                    TypeV::Handle { supertypes } => {
                        assert forall|j: int| 0 <= j < supertypes.len() implies (
                        #[trigger] supertypes[j]) < i && out[supertypes[j] as int] is Handle by {
                            assert(supertypes[j] < i && prev[supertypes[j] as int] is Handle);
                            assert(out[supertypes[j] as int] == prev[supertypes[j] as int]);
                        }
                    },
                    _ => {},
                }
            } else {
                match out[i] {
                    TypeV::Handle { supertypes } => {
                        assert forall|j: int| 0 <= j < supertypes.len() implies (
                        #[trigger] supertypes[j]) < i && out[supertypes[j] as int] is Handle by {
                            assert(supertypes[j] < prev.len() && prev[
                                supertypes[j] as int
                            ] is Handle);
                            assert(out[supertypes[j] as int] == prev[supertypes[j] as int]);
                        }
                    },
                    _ => {},
                }
            }
        }
        assert forall|i: int| 0 <= i < raw.len() implies type_counts_ok(
            #[trigger] out[i],
            lim,
        ) by {
            if i < last {
                assert(out[i] == prev[i]);
                assert(prev_raw[i] == raw[i]);
            } else {
                assert(type_counts_ok(raw[last], lim));
                match t {
                    TypeV::Enum { .. } => {
                        assert(nt == t);
                    },
                    TypeV::Flags { .. } => {
                        assert(nt == t);
                    },
                    _ => {},
                }
            }
        }
        assert forall|i: int| 0 <= i < raw.len() implies ((#[trigger] out[i]) is Enum <==> raw[
            i
        ] is Enum) by {
            if i < last {
                assert(out[i] == prev[i]);
                assert(prev_raw[i] == raw[i]);
            }
        }
        if raw.len() >= 2 {
            assert(out[0] == prev[0]);
            assert(prev_raw[0] == raw[0]);
        }
    }
}

/// A drawn enum fits its representation and the configured bound.
pub proof fn lemma_g_enum_counts(t: TapeV, lim: Limits)
    ensures
        type_counts_ok(
            TypeV::Enum { repr: g_enum(t, lim).0.repr, members: g_enum(t, lim).0.members },
            lim,
        ),
{
    vstd::arithmetic::power2::lemma2_to64();
    let e = g_enum(t, lim).0;
    assert(e.members < enum_mod(e.repr, lim));
}

/// A drawn flags declaration fits its representation and the configured
/// bound.
pub proof fn lemma_g_flags_counts(t: TapeV, lim: Limits)
    ensures
        type_counts_ok(
            TypeV::Flags { repr: g_flags(t, lim).0.repr, members: g_flags(t, lim).0.members },
            lim,
        ),
{
    vstd::arithmetic::power2::lemma2_to64();
    let f = g_flags(t, lim).0;
    assert(f.members < flags_mod(f.repr, lim));
}

/// Every drawn type declaration fits its representation and the
/// configured bounds.
pub proof fn lemma_g_type_counts(t: TapeV, lim: Limits)
    ensures
        type_counts_ok(g_type(t, lim).0, lim),
{
    let k = t.read() % 9;
    if k == 1 {
        lemma_g_enum_counts(t.adv(), lim);
    } else if k == 2 {
        lemma_g_flags_counts(t.adv(), lim);
    }
}

/// Every type of a drawn type list fits its bounds.
pub proof fn lemma_g_types_counts(t: TapeV, n: usize, lim: Limits)
    ensures
        g_types(t, n, lim).0.len() == n,
        forall|i: int|
            0 <= i < n ==> type_counts_ok(#[trigger] g_types(t, n, lim).0[i], lim),
    decreases n,
{
    if n > 0 {
        let (s, t1) = g_types(t, (n - 1) as usize, lim);
        lemma_g_types_counts(t, (n - 1) as usize, lim);
        lemma_g_type_counts(t1, lim);
        assert forall|i: int| 0 <= i < n implies type_counts_ok(
            #[trigger] g_types(t, n, lim).0[i],
            lim,
        ) by {
            if i < n - 1 {
                assert(g_types(t, n, lim).0[i] == s[i]);
            } else {
                assert(g_types(t, n, lim).0[i] == g_type(t1, lim).0);
            }
        }
    }
}

/// Every drawn function already has at least one result, and its first
/// result is the fixed reference to the root type.
pub proof fn lemma_g_funcs_shape(t: TapeV, n: usize, lim: Limits)
    ensures
        g_funcs(t, n, lim).0.len() == n,
        forall|i: int|
            0 <= i < n ==> (#[trigger] g_funcs(t, n, lim).0[i]).results.len() >= 1 && g_funcs(
                t,
                n,
                lim,
            ).0[i].results[0] == 0usize,
    decreases n,
{
    if n > 0 {
        lemma_g_funcs_shape(t, (n - 1) as usize, lim);
        let (s, t1) = g_funcs(t, (n - 1) as usize, lim);
        assert forall|i: int| 0 <= i < n implies (#[trigger] g_funcs(
            t,
            n,
            lim,
        ).0[i]).results.len() >= 1 && g_funcs(t, n, lim).0[i].results[0] == 0usize by {
            if i < n - 1 {
                assert(g_funcs(t, n, lim).0[i] == s[i]);
            } else {
                assert(g_funcs(t, n, lim).0[i] == g_func(t1, lim).0);
                assert(g_func(t1, lim).0.results[0] == 0usize);
            }
        }
    }
}

/// Every function of every drawn module has the mandatory first result.
pub proof fn lemma_g_modules_shape(t: TapeV, n: usize, lim: Limits)
    ensures
        g_modules(t, n, lim).0.len() == n,
        forall|i: int, j: int|
            0 <= i < n && 0 <= j < g_modules(t, n, lim).0[i].funcs.len() ==> (#[trigger] g_modules(
                t,
                n,
                lim,
            ).0[i].funcs[j]).results.len() >= 1 && g_modules(t, n, lim).0[i].funcs[j].results[0]
                == 0usize,
    decreases n,
{
    if n > 0 {
        lemma_g_modules_shape(t, (n - 1) as usize, lim);
        let (s, t1) = g_modules(t, (n - 1) as usize, lim);
        let (nf, t2) = crate::gen::g_count(t1, 1, lim.funcs);
        lemma_g_funcs_shape(t2, nf, lim);
        assert forall|i: int, j: int|
            0 <= i < n && 0 <= j < g_modules(t, n, lim).0[i].funcs.len() implies (
        #[trigger] g_modules(t, n, lim).0[i].funcs[j]).results.len() >= 1 && g_modules(
            t,
            n,
            lim,
        ).0[i].funcs[j].results[0] == 0usize by {
            if i < n - 1 {
                assert(g_modules(t, n, lim).0[i] == s[i]);
            } else {
                assert(g_modules(t, n, lim).0[i] == g_module(t1, lim).0);
                assert(g_module(t1, lim).0.funcs == g_funcs(t2, nf, lim).0);
            }
        }
    }
}

/// A generated document satisfies every structural invariant.
pub proof fn lemma_g_doc_valid(t: TapeV, lim: Limits)
    ensures
        doc_valid(g_doc(t, lim).0, lim),
{
    let (e0, t1) = g_enum(t, lim);
    let e0v = TypeV::Enum { repr: e0.repr, members: e0.members };
    let (nt, t2) = crate::gen::g_count(t1, 0, lim.types);
    let (rawts, t3) = g_types(t2, nt, lim);
    let rawtypes = seq![e0v] + rawts;
    lemma_g_enum_counts(t, lim);
    lemma_g_types_counts(t2, nt, lim);
    assert forall|i: int| 0 <= i < rawtypes.len() implies type_counts_ok(
        #[trigger] rawtypes[i],
        lim,
    ) by {
        if i > 0 {
            assert(rawtypes[i] == rawts[i - 1]);
        }
    }
    lemma_norm_fold_valid(rawtypes, lim);
    let types = norm_fold(rawtypes);
    let d = g_doc(t, lim).0;
    assert(d.types == types);
    assert(inv_no_forward_refs(d));
    assert forall|i: int|
        0 <= i < d.types.len() implies match #[trigger] d.types[i] {
            TypeV::Handle { supertypes } => forall|j: int|
                0 <= j < supertypes.len() ==> #[trigger] supertypes[j] < d.types.len()
                    && d.types[supertypes[j] as int] is Handle,
            _ => true,
        } by {
        match d.types[i] {
            TypeV::Handle { supertypes } => {
                assert(match norm_fold(rawtypes)[i] {
                    TypeV::Handle { supertypes } => forall|j: int|
                        0 <= j < supertypes.len() ==> (#[trigger] supertypes[j]) < i && norm_fold(
                            rawtypes,
                        )[supertypes[j] as int] is Handle,
                    _ => true,
                });
                assert forall|j: int| 0 <= j < supertypes.len() implies #[trigger] supertypes[j]
                    < d.types.len() && d.types[supertypes[j] as int] is Handle by {
                    assert(supertypes[j] < i && norm_fold(rawtypes)[
                        supertypes[j] as int
                    ] is Handle);
                }
            },
            _ => {},
        }
    }
    assert(inv_handle_supertypes(d));
    assert(inv_counts(d, lim));
    assert(types[0] == e0v);
    assert(inv_root_enum(d));
    let (nm, t4) = crate::gen::g_count(t3, 1, lim.modules);
    let (mods, t5) = g_modules(t4, nm, lim);
    lemma_g_modules_shape(t4, nm, lim);
    let m = types.len() as int;
    assert(m >= 1);
    assert forall|i: int, j: int|
        0 <= i < d.modules.len() && 0 <= j < d.modules[i].funcs.len() implies {
            let f = #[trigger] d.modules[i].funcs[j];
            &&& f.results.len() >= 1
            &&& f.results[0] == 0usize
            &&& forall|k: int| 0 <= k < f.params.len() ==> f.params[k] < d.types.len()
            &&& forall|k: int| 0 <= k < f.results.len() ==> f.results[k] < d.types.len()
        } by {
        assert(d.modules[i] == norm_module(mods[i], m));
        let rawf = mods[i].funcs[j];
        let f = d.modules[i].funcs[j];
        assert(f == norm_func(rawf, m));
        assert(rawf.results.len() >= 1 && rawf.results[0] == 0usize);
        assert(f.results[0] == norm_ref(rawf.results[0], m));
        assert forall|k: int| 0 <= k < f.params.len() implies f.params[k] < d.types.len() by {
            assert(f.params[k] == norm_ref(rawf.params[k], m));
        }
        assert forall|k: int| 0 <= k < f.results.len() implies f.results[k] < d.types.len() by {
            assert(f.results[k] == norm_ref(rawf.results[k], m));
        }
    }
    assert(inv_functions(d));
}

/// No forward or cyclic references: in every generated document, every
/// reference inside the declaration at index `i` resolves strictly below
/// `i`.
pub proof fn law_no_forward_refs(t: TapeV, lim: Limits)
    ensures
        inv_no_forward_refs(g_doc(t, lim).0),
{
    lemma_g_doc_valid(t, lim);
}

/// In every generated document, every handle supertype resolves to a
/// declaration that is itself a handle.
pub proof fn law_handle_supertypes(t: TapeV, lim: Limits)
    ensures
        inv_handle_supertypes(g_doc(t, lim).0),
{
    lemma_g_doc_valid(t, lim);
}

/// In every generated document, every enum and flags member count fits
/// its representation and the configured bound.
pub proof fn law_counts(t: TapeV, lim: Limits)
    ensures
        inv_counts(g_doc(t, lim).0, lim),
{
    lemma_g_doc_valid(t, lim);
}

/// In every generated document, every function has at least one result
/// and its first result resolves to index 0.
pub proof fn law_function_results(t: TapeV, lim: Limits)
    ensures
        inv_functions(g_doc(t, lim).0),
{
    lemma_g_doc_valid(t, lim);
}

/// In every generated document, index 0 is an enum holding no reference.
pub proof fn law_root_enum(t: TapeV, lim: Limits)
    ensures
        inv_root_enum(g_doc(t, lim).0),
{
    lemma_g_doc_valid(t, lim);
}

/// Determinism: the same word source and the same limits yield the same
/// document and the same serialized text.
pub proof fn law_determinism(t1: TapeV, t2: TapeV, lim1: Limits, lim2: Limits)
    requires
        t1 == t2,
        lim1 == lim2,
    ensures
        g_doc(t1, lim1).0 == g_doc(t2, lim2).0,
        crate::render::doc_text(g_doc(t1, lim1).0) == crate::render::doc_text(g_doc(t2, lim2).0),
{
}

/// A position holding a handle declaration is recorded by
/// `handle_indices`.
pub proof fn lemma_handle_indices_complete(ts: Seq<TypeV>, k: int)
    requires
        ts.len() <= usize::MAX,
        0 <= k < ts.len(),
        ts[k] is Handle,
    ensures
        handle_indices(ts).contains(k as usize),
    decreases ts.len(),
{
    let prev = handle_indices(ts.drop_last());
    if k == ts.len() - 1 {
        assert(ts.last() is Handle);
        assert(handle_indices(ts)[prev.len() as int] == (ts.len() - 1) as usize);
    } else {
        assert(ts.drop_last()[k] == ts[k]);
        lemma_handle_indices_complete(ts.drop_last(), k);
        let i = choose|i: int| 0 <= i < prev.len() && prev[i] == k as usize;
        assert(handle_indices(ts)[i] == k as usize);
    }
}

/// Normalizing an already-valid declaration changes nothing, provided a
/// handle declaration sees at most one earlier handle.
pub proof fn lemma_norm_type_fixed(t: TypeV, prefix: Seq<TypeV>)
    requires
        prefix.len() <= usize::MAX,
        type_refs_below(t, prefix.len() as int),
        (match t {
            TypeV::Handle { supertypes } => forall|j: int|
                0 <= j < supertypes.len() ==> prefix[(#[trigger] supertypes[j]) as int] is Handle,
            _ => true,
        }),
        t is Handle ==> handle_indices(prefix).len() <= 1,
    ensures
        norm_type(t, prefix.len() as int, handle_indices(prefix)) == t,
{
    let m = prefix.len() as int;
    let vh = handle_indices(prefix);
    lemma_handle_indices(prefix);
    match t {
        TypeV::Name { idx } => {
            vstd::arithmetic::div_mod::lemma_small_mod(idx as nat, m as nat);
        },
        TypeV::Array { idx } => {
            vstd::arithmetic::div_mod::lemma_small_mod(idx as nat, m as nat);
        },
        TypeV::Pointer { idx } => {
            vstd::arithmetic::div_mod::lemma_small_mod(idx as nat, m as nat);
        },
        TypeV::ConstPointer { idx } => {
            vstd::arithmetic::div_mod::lemma_small_mod(idx as nat, m as nat);
        },
        TypeV::Struct { members } => {
            assert forall|i: int| 0 <= i < members.len() implies norm_refs(members, m)[i]
                == members[i] by {
                assert(norm_refs(members, m)[i] == norm_ref(members[i], m));
                assert(members[i] < m);
                vstd::arithmetic::div_mod::lemma_small_mod(members[i] as nat, m as nat);
            }
            assert(norm_refs(members, m) =~= members);
            assert(norm_type(t, m, vh) == TypeV::Struct { members: norm_refs(members, m) });
        },
        TypeV::Union { variants } => {
            assert forall|i: int| 0 <= i < variants.len() implies norm_refs(variants, m)[i]
                == variants[i] by {
                assert(norm_refs(variants, m)[i] == norm_ref(variants[i], m));
                assert(variants[i] < m);
                vstd::arithmetic::div_mod::lemma_small_mod(variants[i] as nat, m as nat);
            }
            assert(norm_refs(variants, m) =~= variants);
            assert(norm_type(t, m, vh) == TypeV::Union { variants: norm_refs(variants, m) });
        },
        TypeV::Handle { supertypes } => {
            if vh.len() == 0 {
                if supertypes.len() > 0 {
                    assert(prefix[supertypes[0] as int] is Handle);
                    lemma_handle_indices_complete(prefix, supertypes[0] as int);
                }
                assert(supertypes.len() == 0);
                assert(norm_handle(supertypes, vh) =~= supertypes);
            } else {
                assert forall|j: int| 0 <= j < supertypes.len() implies norm_handle(
                    supertypes,
                    vh,
                )[j] == supertypes[j] by {
                    let s = supertypes[j];
                    lemma_handle_indices_complete(prefix, s as int);
                    let i = choose|i: int| 0 <= i < vh.len() && vh[i] == s;
                    assert(i == 0);
                    assert(norm_handle(supertypes, vh)[j] == vh[(s as int) % (vh.len() as int)]);
                }
                assert(norm_handle(supertypes, vh) =~= supertypes);
            }
        },
        _ => {},
    }
}

/// Re-running the fold over its own output changes nothing, provided no
/// handle declaration is preceded by two or more handles.
pub proof fn lemma_norm_fold_fixed(ts: Seq<TypeV>)
    requires
        ts.len() <= usize::MAX,
        forall|i: int| 0 <= i < ts.len() ==> type_refs_below(#[trigger] ts[i], i),
        forall|i: int|
            0 <= i < ts.len() ==> match #[trigger] ts[i] {
                TypeV::Handle { supertypes } => forall|j: int|
                    0 <= j < supertypes.len() ==> ts[(#[trigger] supertypes[j]) as int] is Handle,
                _ => true,
            },
        forall|i: int|
            0 <= i < ts.len() && (#[trigger] ts[i]) is Handle ==> handle_indices(
                ts.take(i),
            ).len() <= 1,
    ensures
        norm_fold(ts) == ts,
    decreases ts.len(),
{
    if ts.len() > 0 {
        let prev = ts.drop_last();
        let last: int = ts.len() - 1;
        assert forall|i: int| 0 <= i < prev.len() implies type_refs_below(
            #[trigger] prev[i],
            i,
        ) by {
            assert(prev[i] == ts[i]);
        }
        assert forall|i: int|
            0 <= i < prev.len() implies match #[trigger] prev[i] {
                TypeV::Handle { supertypes } => forall|j: int|
                    0 <= j < supertypes.len() ==> prev[
                        (#[trigger] supertypes[j]) as int
                    ] is Handle,
                _ => true,
            } by {
            assert(prev[i] == ts[i]);
            match ts[i] {
                TypeV::Handle { supertypes } => {
                    assert forall|j: int| 0 <= j < supertypes.len() implies prev[
                        (#[trigger] supertypes[j]) as int
                    ] is Handle by {
                        assert(ts[supertypes[j] as int] is Handle);
                        assert(supertypes[j] < i);
                        assert(prev[supertypes[j] as int] == ts[supertypes[j] as int]);
                    }
                },
                _ => {},
            }
        }
        assert forall|i: int|
            0 <= i < prev.len() && (#[trigger] prev[i]) is Handle implies handle_indices(
            prev.take(i),
        ).len() <= 1 by {
            assert(prev[i] == ts[i]);
            assert(prev.take(i) =~= ts.take(i));
        }
        lemma_norm_fold_fixed(prev);
        let t = ts.last();
        assert(prev =~= ts.take(last));
        assert(type_refs_below(t, last));
        match t {
            TypeV::Handle { supertypes } => {
                assert(ts[last] is Handle);
                assert(handle_indices(ts.take(last)).len() <= 1);
                assert forall|j: int| 0 <= j < supertypes.len() implies prev[
                    (#[trigger] supertypes[j]) as int
                ] is Handle by {
                    assert(ts[supertypes[j] as int] is Handle);
                    assert(supertypes[j] < last);
                }
            },
            _ => {},
        }
        lemma_norm_type_fixed(t, prev);
        assert(norm_fold(ts) == norm_fold(prev).push(
            norm_type(t, prev.len() as int, handle_indices(prev)),
        ));
        assert(prev.push(t) =~= ts);
    }
}

/// Normalizing a module whose references already resolve within the type
/// list changes nothing.
pub proof fn lemma_norm_module_fixed(md: ModuleV, m: int)
    requires
        forall|j: int, k: int|
            0 <= j < md.funcs.len() && 0 <= k < md.funcs[j].params.len() ==> #[trigger] md.funcs[
                j
            ].params[k] < m,
        forall|j: int, k: int|
            0 <= j < md.funcs.len() && 0 <= k < md.funcs[j].results.len() ==> #[trigger] md.funcs[
                j
            ].results[k] < m,
    ensures
        norm_module(md, m) == md,
{
    assert forall|j: int| 0 <= j < md.funcs.len() implies norm_module(md, m).funcs[j]
        == md.funcs[j] by {
        let f = md.funcs[j];
        assert(norm_module(md, m).funcs[j] == norm_func(f, m));
        assert forall|k: int| 0 <= k < f.params.len() implies norm_refs(f.params, m)[k]
            == f.params[k] by {
            assert(norm_refs(f.params, m)[k] == norm_ref(f.params[k], m));
            assert(md.funcs[j].params[k] < m);
            vstd::arithmetic::div_mod::lemma_small_mod(f.params[k] as nat, m as nat);
        }
        assert forall|k: int| 0 <= k < f.results.len() implies norm_refs(f.results, m)[k]
            == f.results[k] by {
            assert(norm_refs(f.results, m)[k] == norm_ref(f.results[k], m));
            assert(md.funcs[j].results[k] < m);
            vstd::arithmetic::div_mod::lemma_small_mod(f.results[k] as nat, m as nat);
        }
        assert(norm_refs(f.params, m) =~= f.params);
        assert(norm_refs(f.results, m) =~= f.results);
    }
    assert(norm_module(md, m).funcs =~= md.funcs);
}

/// Idempotence: re-running the whole normalization pass over a valid
/// document is a fixed point — no reference changes — provided no handle
/// declaration is preceded by two or more handle declarations.  (With
/// several earlier handles, re-normalizing treats an already-valid
/// supertype index as a fresh draw modulo the handle count, which may
/// move it.)
pub proof fn law_idempotence(d: DocV, lim: Limits)
    requires
        doc_valid(d, lim),
        d.types.len() <= usize::MAX,
        forall|i: int|
            0 <= i < d.types.len() && (#[trigger] d.types[i]) is Handle ==> handle_indices(
                d.types.take(i),
            ).len() <= 1,
    ensures
        norm_fold(d.types) == d.types,
        forall|i: int|
            0 <= i < d.modules.len() ==> norm_module(
                #[trigger] d.modules[i],
                d.types.len() as int,
            ) == d.modules[i],
{
    assert forall|i: int|
        0 <= i < d.types.len() implies match #[trigger] d.types[i] {
            TypeV::Handle { supertypes } => forall|j: int|
                0 <= j < supertypes.len() ==> d.types[
                    (#[trigger] supertypes[j]) as int
                ] is Handle,
            _ => true,
        } by {
        match d.types[i] {
            TypeV::Handle { supertypes } => {
                assert forall|j: int| 0 <= j < supertypes.len() implies d.types[
                    (#[trigger] supertypes[j]) as int
                ] is Handle by {
                    assert(supertypes[j] < d.types.len() && d.types[
                        supertypes[j] as int
                    ] is Handle);
                }
            },
            _ => {},
        }
    }
    lemma_norm_fold_fixed(d.types);
    assert forall|i: int| 0 <= i < d.modules.len() implies norm_module(
        #[trigger] d.modules[i],
        d.types.len() as int,
    ) == d.modules[i] by {
        let md = d.modules[i];
        assert forall|j: int, k: int|
            0 <= j < md.funcs.len() && 0 <= k < md.funcs[j].params.len() implies #[trigger] md.funcs[
            j
        ].params[k] < d.types.len() as int by {
            assert(d.modules[i].funcs[j].params[k] < d.types.len());
        }
        assert forall|j: int, k: int|
            0 <= j < md.funcs.len() && 0 <= k < md.funcs[j].results.len() implies #[trigger] md.funcs[
            j
        ].results[k] < d.types.len() as int by {
            assert(d.modules[i].funcs[j].results[k] < d.types.len());
        }
        lemma_norm_module_fixed(md, d.types.len() as int);
    }
}

} // verus!
