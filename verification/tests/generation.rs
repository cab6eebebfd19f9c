use witx_test::gen::Tape;
use witx_test::limits::Limits;
use witx_test::norm::{Norm, normalize_types};
use witx_test::types::{
    BuiltinType, GenDoc, GenEnum, GenFlags, GenHandle, GenStruct, GenType, GenTypeRef, IntRepr,
};

fn small_limits() -> Limits {
    Limits {
        types: 4,
        struct_members: 4,
        union_variants: 3,
        enum_variants: 8,
        flag_members: 8,
        handle_supertypes: 3,
        modules: 3,
        funcs: 3,
        func_params: 3,
        func_results: 2,
    }
}

/// Checks every structural invariant of a document at runtime.
fn assert_doc_invariants(doc: &GenDoc, limits: &Limits) {
    let n = doc.typenames.len();
    assert!(n >= 1);
    match &doc.typenames[0] {
        GenType::Enum(_) => {}
        other => panic!("index 0 is not an enum: {:?}", other),
    }
    for (i, t) in doc.typenames.iter().enumerate() {
        let refs: Vec<usize> = match t {
            GenType::Name(r) => vec![r.idx],
            GenType::Enum(e) => {
                assert!(e.members < limits.enum_variants.max(1));
                vec![]
            }
            GenType::Flags(f) => {
                assert!(f.members < limits.flag_members.max(1));
                assert!(f.members < 64);
                vec![]
            }
            GenType::Struct(s) => s.members.iter().map(|r| r.idx).collect(),
            GenType::Union(u) => u.variants.iter().map(|r| r.idx).collect(),
            GenType::Handle(h) => {
                for s in h.supertypes.iter() {
                    match &doc.typenames[s.idx] {
                        GenType::Handle(_) => {}
                        other => panic!("supertype {} is not a handle: {:?}", s.idx, other),
                    }
                }
                h.supertypes.iter().map(|r| r.idx).collect()
            }
            GenType::Array(r) => vec![r.idx],
            GenType::Pointer(r) => vec![r.idx],
            GenType::ConstPointer(r) => vec![r.idx],
            GenType::Builtin(_) => vec![],
        };
        for r in refs {
            assert!(r < i, "declaration {} refers forward to {}", i, r);
        }
    }
    assert!(!doc.modules.is_empty());
    for m in doc.modules.iter() {
        assert!(!m.funcs.is_empty());
        for f in m.funcs.iter() {
            assert!(!f.results.is_empty());
            assert_eq!(f.results[0].idx, 0);
            for r in f.params.iter().chain(f.results.iter()) {
                assert!(r.idx < n);
            }
        }
    }
}

#[test]
fn generated_documents_satisfy_invariants() {
    let limits = Limits::default();
    for _ in 0..8 {
        let doc = GenDoc::generate(&limits);
        assert_doc_invariants(&doc, &limits);
    }
}

#[test]
fn fixed_tape_document_satisfies_invariants() {
    let limits = small_limits();
    let words: Vec<u64> = (0..512u64).map(|i| i.wrapping_mul(0x9e3779b97f4a7c15)).collect();
    let mut tape = Tape::new(words);
    let doc = GenDoc::strat(&mut tape, &limits);
    assert_doc_invariants(&doc, &limits);
}

#[test]
fn exhausted_tape_still_generates() {
    let limits = Limits::default();
    let mut tape = Tape::new(Vec::new());
    let doc = GenDoc::strat(&mut tape, &limits);
    assert_doc_invariants(&doc, &limits);
}

#[test]
fn zero_type_limit_still_yields_root_enum() {
    let mut limits = small_limits();
    limits.types = 0;
    limits.func_results = 1;
    let words: Vec<u64> = (0..256u64).map(|i| 7 * i + 13).collect();
    let mut tape = Tape::new(words);
    let doc = GenDoc::strat(&mut tape, &limits);
    assert_eq!(doc.typenames.len(), 1);
    assert!(!doc.modules.is_empty());
    assert!(!doc.modules[0].funcs.is_empty());
    for m in doc.modules.iter() {
        for f in m.funcs.iter() {
            assert_eq!(f.results.len(), 1);
            assert_eq!(f.results[0].idx, 0);
        }
    }
}

#[test]
fn handle_normalization_picks_real_handles() {
    // A prefix with exactly one handle, at index 2: raw supertypes [7, 0]
    // must both land on it.
    let prefix = vec![
        GenType::Enum(GenEnum { repr: IntRepr::U8, members: 2 }),
        GenType::Builtin(BuiltinType::U32),
        GenType::Handle(GenHandle { supertypes: Vec::new() }),
    ];
    let norm = Norm::new(prefix.as_slice());
    let raw = GenHandle {
        supertypes: vec![GenTypeRef { idx: 7 }, GenTypeRef { idx: 0 }],
    };
    let normalized = norm.handle(&raw);
    let idxs: Vec<usize> = normalized.supertypes.iter().map(|r| r.idx).collect();
    assert_eq!(idxs, vec![2, 2]);
}

#[test]
fn handle_normalization_empties_without_targets() {
    let prefix = vec![GenType::Enum(GenEnum { repr: IntRepr::U8, members: 1 })];
    let norm = Norm::new(prefix.as_slice());
    let raw = GenHandle { supertypes: vec![GenTypeRef { idx: 3 }] };
    let normalized = norm.handle(&raw);
    assert!(normalized.supertypes.is_empty());
}

#[test]
fn typeref_normalization_reduces_modulo_prefix_length() {
    let prefix = vec![
        GenType::Enum(GenEnum { repr: IntRepr::U8, members: 1 }),
        GenType::Name(GenTypeRef { idx: 0 }),
        GenType::Array(GenTypeRef { idx: 1 }),
    ];
    let norm = Norm::new(prefix.as_slice());
    assert_eq!(norm.typeref(&GenTypeRef { idx: 7 }).idx, 1);
    assert_eq!(norm.typeref(&GenTypeRef { idx: 2 }).idx, 2);
    // Reducing an already-reduced reference changes nothing.
    let once = norm.typeref(&GenTypeRef { idx: 1000 });
    let twice = norm.typeref(&once);
    assert_eq!(once.idx, twice.idx);
}

#[test]
fn normalization_fold_is_fixed_point_with_single_handle() {
    // A valid list in which each handle sees at most one earlier handle:
    // re-running the fold changes nothing.
    let types = vec![
        GenType::Enum(GenEnum { repr: IntRepr::U16, members: 3 }),
        GenType::Handle(GenHandle { supertypes: Vec::new() }),
        GenType::Handle(GenHandle { supertypes: vec![GenTypeRef { idx: 1 }] }),
        GenType::Struct(GenStruct {
            members: vec![GenTypeRef { idx: 0 }, GenTypeRef { idx: 2 }],
        }),
    ];
    let again = normalize_types(&types);
    let before: Vec<String> = types.iter().enumerate().map(|(i, t)| t.to_sexpr(i).render()).collect();
    let after: Vec<String> = again.iter().enumerate().map(|(i, t)| t.to_sexpr(i).render()).collect();
    assert_eq!(before, after);
}

#[test]
fn generation_is_deterministic_for_equal_tapes() {
    let limits = small_limits();
    let words: Vec<u64> = (0..400u64).map(|i| i.wrapping_mul(6364136223846793005).wrapping_add(1)).collect();
    let mut t1 = Tape::new(words.clone());
    let mut t2 = Tape::new(words);
    let d1 = GenDoc::strat(&mut t1, &limits);
    let d2 = GenDoc::strat(&mut t2, &limits);
    assert_eq!(d1.render(), d2.render());
}

#[test]
fn enum_member_count_respects_representation_and_limit() {
    // Representation draw 0 picks an 8-bit repr; the huge member draw is
    // reduced modulo min(enum_variants, 255).
    let limits = Limits { enum_variants: 6, ..Limits::default() };
    let mut tape = Tape::new(vec![0, u64::MAX]);
    let e = GenEnum::strat(&mut tape, &limits);
    assert_eq!(e.repr, IntRepr::U8);
    assert!(e.members < 6);
    assert_eq!(e.members, (u64::MAX % 6) as usize);
}

#[test]
fn zero_enum_bound_clamps_member_count_to_zero() {
    let limits = Limits { enum_variants: 0, ..Limits::default() };
    let mut tape = Tape::new(vec![2, 12345]);
    let e = GenEnum::strat(&mut tape, &limits);
    assert_eq!(e.repr, IntRepr::U32);
    assert_eq!(e.members, 0);
}

#[test]
fn flags_member_count_is_capped_by_bit_width() {
    // Representation draw 1 picks a 16-bit repr; even a generous limit
    // leaves at most 16 flag bits.
    let limits = Limits { flag_members: 64, ..Limits::default() };
    let mut tape = Tape::new(vec![1, 100]);
    let f = GenFlags::strat(&mut tape, &limits);
    assert_eq!(f.repr, IntRepr::U16);
    assert_eq!(f.members, (100 % 16) as usize);
}

#[test]
fn default_limits_hold_stock_bounds() {
    let limits = Limits::default();
    assert_eq!(limits.types, 20);
    assert_eq!(limits.struct_members, 10);
    assert_eq!(limits.union_variants, 5);
    assert_eq!(limits.enum_variants, 32);
    assert_eq!(limits.flag_members, 64);
    assert_eq!(limits.handle_supertypes, 2);
    assert_eq!(limits.modules, 3);
    assert_eq!(limits.funcs, 10);
    assert_eq!(limits.func_params, 5);
    assert_eq!(limits.func_results, 3);
}

#[test]
fn scalar_draws_cycle_through_the_choices() {
    let mut tape = Tape::new(vec![3, 4, 11, 9]);
    assert_eq!(IntRepr::strat(&mut tape), IntRepr::U64);
    assert_eq!(IntRepr::strat(&mut tape), IntRepr::U8);
    assert_eq!(BuiltinType::strat(&mut tape), BuiltinType::String);
    assert_eq!(BuiltinType::strat(&mut tape), BuiltinType::F32);
}

#[test]
fn raw_typeref_takes_the_draw() {
    let limits = Limits::default();
    let mut tape = Tape::new(vec![987654321]);
    let r = GenTypeRef::strat(&mut tape, &limits);
    assert_eq!(r.idx, 987654321usize);
}
