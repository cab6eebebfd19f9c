//! The structural invariants that every completed document satisfies.

use vstd::prelude::*;
use crate::limits::Limits;
use crate::types::{DocV, IntRepr, TypeV};

verus! {

/// How many distinct ordinals the representation of an enum can encode
/// beyond the ones reserved: the largest member count a raw generator may
/// draw is one less than the type's full range.
pub open spec fn enum_capacity(repr: IntRepr) -> int {
    match repr {
        IntRepr::U8 => 0xff,
        IntRepr::U16 => 0xffff,
        IntRepr::U32 => 0xffff_ffff,
        IntRepr::U64 => 0xffff_ffff_ffff_ffff,
    }
}

/// How many flag bits the representation of a flags declaration offers.
pub open spec fn flags_capacity(repr: IntRepr) -> int {
    match repr {
        IntRepr::U8 => 8,
        IntRepr::U16 => 16,
        IntRepr::U32 => 32,
        IntRepr::U64 => 64,
    }
}

/// The number of bits of the representation, so that capacity claims can
/// be phrased against the power of two it encodes.
pub open spec fn repr_bits(repr: IntRepr) -> nat {
    match repr {
        IntRepr::U8 => 8,
        IntRepr::U16 => 16,
        IntRepr::U32 => 32,
        IntRepr::U64 => 64,
    }
}

/// A member count against an exclusive bound from `Limits`.  A bound of
/// zero leaves no legal positive count, so the count is clamped to zero
/// rather than letting a reduction modulo zero occur.
pub open spec fn count_within(members: usize, bound: usize) -> bool {
    if bound == 0 {
        members == 0
    } else {
        members < bound
    }
}

/// Every type reference held directly by this declaration points below
/// `bound`.
pub open spec fn type_refs_below(t: TypeV, bound: int) -> bool {
    match t {
        TypeV::Name { idx } => idx < bound,
        TypeV::Enum { .. } => true,
        TypeV::Flags { .. } => true,
        TypeV::Struct { members } => forall|i: int| 0 <= i < members.len() ==> members[i] < bound,
        TypeV::Union { variants } => forall|i: int| 0 <= i < variants.len() ==> variants[i] < bound,
        TypeV::Handle { supertypes } => forall|i: int|
            0 <= i < supertypes.len() ==> supertypes[i] < bound,
        TypeV::Array { idx } => idx < bound,
        TypeV::Pointer { idx } => idx < bound,
        TypeV::ConstPointer { idx } => idx < bound,
        TypeV::Builtin { .. } => true,
    }
}

/// No forward or cyclic references: every reference inside the
/// declaration at index `i` resolves strictly below `i`.
pub open spec fn inv_no_forward_refs(d: DocV) -> bool {
    forall|i: int| 0 <= i < d.types.len() ==> type_refs_below(#[trigger] d.types[i], i)
}

/// Every supertype of a handle declaration names a declaration that is
/// itself a handle.
pub open spec fn inv_handle_supertypes(d: DocV) -> bool {
    forall|i: int|
        0 <= i < d.types.len() ==> match #[trigger] d.types[i] {
            TypeV::Handle { supertypes } => forall|j: int|
                0 <= j < supertypes.len() ==> #[trigger] supertypes[j] < d.types.len()
                    && d.types[supertypes[j] as int] is Handle,
            _ => true,
        }
}

/// An enum or flags member count fits both its representation and the
/// configured bound (clamped to zero when the bound itself is zero).
pub open spec fn type_counts_ok(t: TypeV, lim: Limits) -> bool {
    match t {
        TypeV::Enum { repr, members } => members < vstd::arithmetic::power2::pow2(
            repr_bits(repr),
        ) && count_within(members, lim.enum_variants),
        TypeV::Flags { repr, members } => members < vstd::arithmetic::power2::pow2(
            repr_bits(repr),
        ) && count_within(members, lim.flag_members),
        _ => true,
    }
}

/// Enum and flags member counts fit both their representation and the
/// configured bound, everywhere in the document.
pub open spec fn inv_counts(d: DocV, lim: Limits) -> bool {
    forall|i: int| 0 <= i < d.types.len() ==> type_counts_ok(#[trigger] d.types[i], lim)
}

/// Every function has at least one result and its first result names the
/// root type at index 0; every reference inside a module resolves within
/// the type list.
pub open spec fn inv_functions(d: DocV) -> bool {
    forall|i: int, j: int|
        0 <= i < d.modules.len() && 0 <= j < d.modules[i].funcs.len() ==> {
            let f = #[trigger] d.modules[i].funcs[j];
            &&& f.results.len() >= 1
            &&& f.results[0] == 0usize
            &&& forall|k: int| 0 <= k < f.params.len() ==> f.params[k] < d.types.len()
            &&& forall|k: int| 0 <= k < f.results.len() ==> f.results[k] < d.types.len()
        }
}

/// Index 0 is always an enum declaration, which holds no type reference,
/// so it is self-contained.
pub open spec fn inv_root_enum(d: DocV) -> bool {
    d.types.len() >= 1 && d.types[0] is Enum && type_refs_below(d.types[0], 0)
}

/// All structural invariants of a completed document together.
pub open spec fn doc_valid(d: DocV, lim: Limits) -> bool {
    &&& inv_no_forward_refs(d)
    &&& inv_handle_supertypes(d)
    &&& inv_counts(d, lim)
    &&& inv_functions(d)
    &&& inv_root_enum(d)
}

} // verus!
