//! Raw-shape generation: every shape is drawn from a tape of random
//! words, so that one generation run is a pure function of the tape and
//! the configured limits.

use vstd::prelude::*;
use crate::limits::Limits;
use crate::norm::{Norm, lemma_norm_fold_len, norm_fold, norm_module, normalize_types};
use crate::types::{
    BuiltinType, DocV, FuncV, GenDoc, GenEnum, GenFlags, GenFunc, GenHandle, GenModule,
    GenStruct, GenType, GenTypeRef, GenUnion, IntRepr, ModuleV, TypeV, ref_idxs,
};
use crate::valid::{enum_capacity, flags_capacity};

verus! {

/// The ghost view of a word source: the words and the read position.
pub struct TapeV {
    pub words: Seq<u64>,
    pub pos: int,
}

impl TapeV {
    /// The word the next draw returns: past the end the source keeps
    /// yielding zero.
    pub open spec fn read(self) -> u64 {
        if 0 <= self.pos < self.words.len() {
            self.words[self.pos]
        } else {
            0
        }
    }

    /// The source after one draw.
    pub open spec fn adv(self) -> TapeV {
        TapeV {
            words: self.words,
            pos: if 0 <= self.pos < self.words.len() {
                self.pos + 1
            } else {
                self.pos
            },
        }
    }
}

/// A finite source of random words.  Once the words run out it yields
/// zeros, so every draw succeeds and generation never fails.
pub struct Tape {
    words: Vec<u64>,
    pos: usize,
}

impl View for Tape {
    type V = TapeV;

    closed spec fn view(&self) -> TapeV {
        TapeV { words: self.words@, pos: self.pos as int }
    }
}

impl Tape {
    /// A source that replays the given words in order.
    pub fn new(words: Vec<u64>) -> (t: Tape)
        ensures
            t@.words == words@,
            t@.pos == 0,
    {
        Tape { words, pos: 0 }
    }

    /// One draw.
    pub fn next(&mut self) -> (w: u64)
        ensures
            w == old(self)@.read(),
            final(self)@ == old(self)@.adv(),
    {
        if self.pos < self.words.len() {
            let w = self.words[self.pos];
            self.pos = self.pos + 1;
            w
        } else {
            0
        }
    }
}

#[verifier::external_type_specification]
#[verifier::external_body]
pub struct ExTestRng(proptest::test_runner::TestRng);

/// Relies on proptest's `TestRunner::default` and `TestRunner::new_rng`:
/// a fresh random generator seeded by the default test runner.  Nothing
/// is promised of it.
#[verifier::external_body]
fn fresh_rng() -> proptest::test_runner::TestRng {
    proptest::test_runner::TestRunner::default().new_rng()
}

/// Relies on rand's `RngCore::next_u64` (through proptest's re-export):
/// one random word.  Nothing is promised of its value.
#[verifier::external_body]
fn next_random_word(rng: &mut proptest::test_runner::TestRng) -> u64 {
    proptest::prelude::RngCore::next_u64(rng)
}

/// A fresh randomly filled source of `n` words.
pub fn random_tape(n: usize) -> (t: Tape)
    ensures
        t@.words.len() == n,
        t@.pos == 0,
{
    let mut rng = fresh_rng();
    let mut words: Vec<u64> = Vec::new();
    let mut i: usize = 0;
    while i < n
        invariant
            i <= n,
            words@.len() == i,
        decreases n - i,
    {
        words.push(next_random_word(&mut rng));
        i = i + 1;
    }
    Tape::new(words)
}

/// One count drawn from `[low, bound)`; when the range is empty the count
/// is clamped to `low` rather than reducing modulo zero.
pub open spec fn g_count(t: TapeV, low: usize, bound: usize) -> (usize, TapeV) {
    let c: int = if bound > low {
        low + ((t.read() as int) % (bound - low))
    } else {
        low as int
    };
    (c as usize, t.adv())
}

/// One raw type reference: an arbitrary index.
pub open spec fn g_ref(t: TapeV) -> (usize, TapeV) {
    ((t.read() as usize), t.adv())
}

/// `n` raw type references in draw order.
pub open spec fn g_refs(t: TapeV, n: usize) -> (Seq<usize>, TapeV)
    decreases n,
{
    if n == 0 {
        (Seq::empty(), t)
    } else {
        let (s, t1) = g_refs(t, (n - 1) as usize);
        let (r, t2) = g_ref(t1);
        (s.push(r), t2)
    }
}

/// One representation width, drawn uniformly.
pub open spec fn g_intrepr(t: TapeV) -> (IntRepr, TapeV) {
    let w = t.read() % 4;
    (
        if w == 0 {
            IntRepr::U8
        } else if w == 1 {
            IntRepr::U16
        } else if w == 2 {
            IntRepr::U32
        } else {
            IntRepr::U64
        },
        t.adv(),
    )
}

/// One builtin type, drawn uniformly.
pub open spec fn g_builtin(t: TapeV) -> (BuiltinType, TapeV) {
    let w = t.read() % 11;
    (
        if w == 0 {
            BuiltinType::String
        } else if w == 1 {
            BuiltinType::U8
        } else if w == 2 {
            BuiltinType::U16
        } else if w == 3 {
            BuiltinType::U32
        } else if w == 4 {
            BuiltinType::U64
        } else if w == 5 {
            BuiltinType::S8
        } else if w == 6 {
            BuiltinType::S16
        } else if w == 7 {
            BuiltinType::S32
        } else if w == 8 {
            BuiltinType::S64
        } else if w == 9 {
            BuiltinType::F32
        } else {
            BuiltinType::F64
        },
        t.adv(),
    )
}

/// A positive modulus.
pub open spec fn clamp_pos(m: int) -> int {
    if m >= 1 {
        m
    } else {
        1
    }
}

/// The modulus that bounds a raw enum member count: the smaller of the
/// configured bound and what the representation can encode, at least 1.
pub open spec fn enum_mod(repr: IntRepr, lim: Limits) -> int {
    clamp_pos(
        if lim.enum_variants as int <= enum_capacity(repr) {
            lim.enum_variants as int
        } else {
            enum_capacity(repr)
        },
    )
}

/// The modulus that bounds a raw flags member count: the smaller of the
/// configured bound and the representation's bit count, at least 1.
pub open spec fn flags_mod(repr: IntRepr, lim: Limits) -> int {
    clamp_pos(
        if lim.flag_members as int <= flags_capacity(repr) {
            lim.flag_members as int
        } else {
            flags_capacity(repr)
        },
    )
}

/// One raw enum: a representation and a member count already reduced to
/// fit it.
pub open spec fn g_enum(t: TapeV, lim: Limits) -> (GenEnum, TapeV) {
    let (repr, t1) = g_intrepr(t);
    let members = ((t1.read() as int) % enum_mod(repr, lim)) as usize;
    (GenEnum { repr, members }, t1.adv())
}

/// One raw flags declaration.
pub open spec fn g_flags(t: TapeV, lim: Limits) -> (GenFlags, TapeV) {
    let (repr, t1) = g_intrepr(t);
    let members = ((t1.read() as int) % flags_mod(repr, lim)) as usize;
    (GenFlags { repr, members }, t1.adv())
}

impl IntRepr {
    /// Draws one representation width.
    pub fn strat(tape: &mut Tape) -> (r: IntRepr)
        ensures
            r == g_intrepr(old(tape)@).0,
            final(tape)@ == g_intrepr(old(tape)@).1,
    {
        let w = tape.next() % 4;
        if w == 0 {
            IntRepr::U8
        } else if w == 1 {
            IntRepr::U16
        } else if w == 2 {
            IntRepr::U32
        } else {
            IntRepr::U64
        }
    }
}

impl BuiltinType {
    /// Draws one builtin type.
    pub fn strat(tape: &mut Tape) -> (r: BuiltinType)
        ensures
            r == g_builtin(old(tape)@).0,
            final(tape)@ == g_builtin(old(tape)@).1,
    {
        let w = tape.next() % 11;
        if w == 0 {
            BuiltinType::String
        } else if w == 1 {
            BuiltinType::U8
        } else if w == 2 {
            BuiltinType::U16
        } else if w == 3 {
            BuiltinType::U32
        } else if w == 4 {
            BuiltinType::U64
        } else if w == 5 {
            BuiltinType::S8
        } else if w == 6 {
            BuiltinType::S16
        } else if w == 7 {
            BuiltinType::S32
        } else if w == 8 {
            BuiltinType::S64
        } else if w == 9 {
            BuiltinType::F32
        } else {
            BuiltinType::F64
        }
    }
}

/// Draws one count from `[low, bound)`, clamped to `low` when the range
/// is empty.
pub(crate) fn draw_count(tape: &mut Tape, low: usize, bound: usize) -> (c: usize)
    ensures
        c == g_count(old(tape)@, low, bound).0,
        final(tape)@ == g_count(old(tape)@, low, bound).1,
        bound > low ==> low <= c < bound,
        bound <= low ==> c == low,
{
    let w = tape.next();
    if bound > low {
        let diff = bound - low;
        let r = (w % (diff as u64)) as usize;
        low + r
    } else {
        low
    }
}

impl GenTypeRef {
    /// Draws one raw reference: any index, left unconstrained on purpose
    /// so that normalization, not construction, restores validity.
    pub fn strat(tape: &mut Tape, _limits: &Limits) -> (r: GenTypeRef)
        ensures
            r.idx == g_ref(old(tape)@).0,
            final(tape)@ == g_ref(old(tape)@).1,
    {
        let w = tape.next();
        GenTypeRef { idx: #[verifier::truncate] (w as usize) }
    }
}

impl GenEnum {
    /// Draws one raw enum, its member count reduced to what the chosen
    /// representation and the limits allow.
    pub fn strat(tape: &mut Tape, limits: &Limits) -> (r: GenEnum)
        ensures
            r == g_enum(old(tape)@, *limits).0,
            final(tape)@ == g_enum(old(tape)@, *limits).1,
            r.members < enum_mod(r.repr, *limits),
    {
        let repr = IntRepr::strat(tape);
        let w = tape.next();
        let cap: u64 = match repr {
            IntRepr::U8 => 0xff,
            IntRepr::U16 => 0xffff,
            IntRepr::U32 => 0xffff_ffff,
            IntRepr::U64 => 0xffff_ffff_ffff_ffff,
        };
        let lim64 = limits.enum_variants as u64;
        let mut m = if lim64 < cap {
            lim64
        } else {
            cap
        };
        if m == 0 {
            m = 1;
        }
        let members = (w % m) as usize;
        GenEnum { repr, members }
    }
}

impl GenFlags {
    /// Draws one raw flags declaration, its member count reduced to what
    /// the chosen representation and the limits allow.
    pub fn strat(tape: &mut Tape, limits: &Limits) -> (r: GenFlags)
        ensures
            r == g_flags(old(tape)@, *limits).0,
            final(tape)@ == g_flags(old(tape)@, *limits).1,
            r.members < flags_mod(r.repr, *limits),
    {
        let repr = IntRepr::strat(tape);
        let w = tape.next();
        let cap: u64 = match repr {
            IntRepr::U8 => 8,
            IntRepr::U16 => 16,
            IntRepr::U32 => 32,
            IntRepr::U64 => 64,
        };
        let lim64 = limits.flag_members as u64;
        let mut m = if lim64 < cap {
            lim64
        } else {
            cap
        };
        if m == 0 {
            m = 1;
        }
        let members = (w % m) as usize;
        GenFlags { repr, members }
    }
}

/// Raw struct members: a count in `[1, bound)`, then that many raw
/// references.
pub open spec fn g_struct(t: TapeV, lim: Limits) -> (Seq<usize>, TapeV) {
    let (n, t1) = g_count(t, 1, lim.struct_members);
    g_refs(t1, n)
}

/// Raw union variants.
pub open spec fn g_union(t: TapeV, lim: Limits) -> (Seq<usize>, TapeV) {
    let (n, t1) = g_count(t, 1, lim.union_variants);
    g_refs(t1, n)
}

/// Raw handle supertype candidates.
pub open spec fn g_handle(t: TapeV, lim: Limits) -> (Seq<usize>, TapeV) {
    let (n, t1) = g_count(t, 1, lim.handle_supertypes);
    g_refs(t1, n)
}

/// One raw type declaration: a kind selector, then that kind's shape.
pub open spec fn g_type(t: TapeV, lim: Limits) -> (TypeV, TapeV) {
    let k = t.read() % 9;
    let t0 = t.adv();
    if k == 0 {
        let (r, t1) = g_ref(t0);
        (TypeV::Name { idx: r }, t1)
    } else if k == 1 {
        let (e, t1) = g_enum(t0, lim);
        (TypeV::Enum { repr: e.repr, members: e.members }, t1)
    } else if k == 2 {
        let (f, t1) = g_flags(t0, lim);
        (TypeV::Flags { repr: f.repr, members: f.members }, t1)
    } else if k == 3 {
        let (ms, t1) = g_struct(t0, lim);
        (TypeV::Struct { members: ms }, t1)
    } else if k == 4 {
        let (vs, t1) = g_union(t0, lim);
        (TypeV::Union { variants: vs }, t1)
    } else if k == 5 {
        let (ss, t1) = g_handle(t0, lim);
        (TypeV::Handle { supertypes: ss }, t1)
    } else if k == 6 {
        let (r, t1) = g_ref(t0);
        (TypeV::Array { idx: r }, t1)
    } else if k == 7 {
        let (r, t1) = g_ref(t0);
        (TypeV::Pointer { idx: r }, t1)
    } else {
        let (r, t1) = g_ref(t0);
        (TypeV::ConstPointer { idx: r }, t1)
    }
}

/// `n` raw type declarations in draw order.
pub open spec fn g_types(t: TapeV, n: usize, lim: Limits) -> (Seq<TypeV>, TapeV)
    decreases n,
{
    if n == 0 {
        (Seq::empty(), t)
    } else {
        let (s, t1) = g_types(t, (n - 1) as usize, lim);
        let (ty, t2) = g_type(t1, lim);
        (s.push(ty), t2)
    }
}

/// One raw function: raw parameters, then raw extra results behind the
/// mandatory first result, a fixed reference to the root type.
pub open spec fn g_func(t: TapeV, lim: Limits) -> (FuncV, TapeV) {
    let (np, t1) = g_count(t, 0, lim.func_params);
    let (ps, t2) = g_refs(t1, np);
    let rb: usize = if lim.func_results >= 1 {
        (lim.func_results - 1) as usize
    } else {
        0
    };
    let (nr, t3) = g_count(t2, 0, rb);
    let (rs, t4) = g_refs(t3, nr);
    (FuncV { params: ps, results: seq![0usize] + rs }, t4)
}

/// `n` raw functions in draw order.
pub open spec fn g_funcs(t: TapeV, n: usize, lim: Limits) -> (Seq<FuncV>, TapeV)
    decreases n,
{
    if n == 0 {
        (Seq::empty(), t)
    } else {
        let (s, t1) = g_funcs(t, (n - 1) as usize, lim);
        let (f, t2) = g_func(t1, lim);
        (s.push(f), t2)
    }
}

/// One raw module: a count in `[1, bound)`, then that many raw functions.
pub open spec fn g_module(t: TapeV, lim: Limits) -> (ModuleV, TapeV) {
    let (n, t1) = g_count(t, 1, lim.funcs);
    let (fs, t2) = g_funcs(t1, n, lim);
    (ModuleV { funcs: fs }, t2)
}

/// `n` raw modules in draw order.
pub open spec fn g_modules(t: TapeV, n: usize, lim: Limits) -> (Seq<ModuleV>, TapeV)
    decreases n,
{
    if n == 0 {
        (Seq::empty(), t)
    } else {
        let (s, t1) = g_modules(t, (n - 1) as usize, lim);
        let (m, t2) = g_module(t1, lim);
        (s.push(m), t2)
    }
}

/// One whole document: a forced root enum, raw extra types, the fold
/// that normalizes them, then raw modules normalized against the
/// complete type list.
pub open spec fn g_doc(t: TapeV, lim: Limits) -> (DocV, TapeV) {
    let (e0, t1) = g_enum(t, lim);
    let (nt, t2) = g_count(t1, 0, lim.types);
    let (raw, t3) = g_types(t2, nt, lim);
    let rawtypes = seq![TypeV::Enum { repr: e0.repr, members: e0.members }] + raw;
    let types = norm_fold(rawtypes);
    let (nm, t4) = g_count(t3, 1, lim.modules);
    let (mods, t5) = g_modules(t4, nm, lim);
    (
        DocV {
            types,
            modules: mods.map_values(|m: ModuleV| norm_module(m, types.len() as int)),
        },
        t5,
    )
}

/// Draws `n` raw references.
fn strat_refs(tape: &mut Tape, n: usize, limits: &Limits) -> (r: Vec<GenTypeRef>)
    ensures
        ref_idxs(r@) == g_refs(old(tape)@, n).0,
        final(tape)@ == g_refs(old(tape)@, n).1,
{
    let ghost t0 = tape@;
    let mut out: Vec<GenTypeRef> = Vec::new();
    let mut i: usize = 0;
    while i < n
        invariant
            i <= n,
            out@.len() == i,
            g_refs(t0, i as usize).0.len() == i,
            tape@ == g_refs(t0, i as usize).1,
            forall|k: int| 0 <= k < i ==> (#[trigger] out@[k]).idx == g_refs(t0, i as usize).0[k],
        decreases n - i,
    {
        out.push(GenTypeRef::strat(tape, limits));
        i = i + 1;
    }
    proof {
        assert(ref_idxs(out@) =~= g_refs(t0, n).0);
    }
    out
}

impl GenStruct {
    /// Draws raw struct members.
    pub fn strat(tape: &mut Tape, limits: &Limits) -> (r: GenStruct)
        ensures
            r@ == g_struct(old(tape)@, *limits).0,
            final(tape)@ == g_struct(old(tape)@, *limits).1,
    {
        let n = draw_count(tape, 1, limits.struct_members);
        GenStruct { members: strat_refs(tape, n, limits) }
    }
}

impl GenUnion {
    /// Draws raw union variants.
    pub fn strat(tape: &mut Tape, limits: &Limits) -> (r: GenUnion)
        ensures
            r@ == g_union(old(tape)@, *limits).0,
            final(tape)@ == g_union(old(tape)@, *limits).1,
    {
        let n = draw_count(tape, 1, limits.union_variants);
        GenUnion { variants: strat_refs(tape, n, limits) }
    }
}

impl GenHandle {
    /// Draws raw handle supertype candidates.
    pub fn strat(tape: &mut Tape, limits: &Limits) -> (r: GenHandle)
        ensures
            r@ == g_handle(old(tape)@, *limits).0,
            final(tape)@ == g_handle(old(tape)@, *limits).1,
    {
        let n = draw_count(tape, 1, limits.handle_supertypes);
        GenHandle { supertypes: strat_refs(tape, n, limits) }
    }
}

impl GenType {
    /// Draws one raw type declaration.
    pub fn strat(tape: &mut Tape, limits: &Limits) -> (r: GenType)
        ensures
            r@ == g_type(old(tape)@, *limits).0,
            final(tape)@ == g_type(old(tape)@, *limits).1,
    {
        let k = tape.next() % 9;
        if k == 0 {
            GenType::Name(GenTypeRef::strat(tape, limits))
        } else if k == 1 {
            GenType::Enum(GenEnum::strat(tape, limits))
        } else if k == 2 {
            GenType::Flags(GenFlags::strat(tape, limits))
        } else if k == 3 {
            GenType::Struct(GenStruct::strat(tape, limits))
        } else if k == 4 {
            GenType::Union(GenUnion::strat(tape, limits))
        } else if k == 5 {
            GenType::Handle(GenHandle::strat(tape, limits))
        } else if k == 6 {
            GenType::Array(GenTypeRef::strat(tape, limits))
        } else if k == 7 {
            GenType::Pointer(GenTypeRef::strat(tape, limits))
        } else {
            GenType::ConstPointer(GenTypeRef::strat(tape, limits))
        }
    }
}

impl GenFunc {
    /// Draws one raw function.  The first result is not drawn: it is the
    /// fixed reference to the root type, so that the function always has
    /// a result passable by value.
    pub fn strat(tape: &mut Tape, limits: &Limits) -> (r: GenFunc)
        ensures
            r@ == g_func(old(tape)@, *limits).0,
            final(tape)@ == g_func(old(tape)@, *limits).1,
    {
        let np = draw_count(tape, 0, limits.func_params);
        let params = strat_refs(tape, np, limits);
        let rb: usize = if limits.func_results >= 1 {
            limits.func_results - 1
        } else {
            0
        };
        let nr = draw_count(tape, 0, rb);
        let mut extras = strat_refs(tape, nr, limits);
        let mut results: Vec<GenTypeRef> = Vec::new();
        results.push(GenTypeRef { idx: 0 });
        let ghost extrasv = ref_idxs(extras@);
        results.append(&mut extras);
        proof {
            assert(ref_idxs(results@) =~= seq![0usize] + extrasv);
        }
        GenFunc { params, results }
    }
}

impl GenModule {
    /// Draws one raw module.
    pub fn strat(tape: &mut Tape, limits: &Limits) -> (r: GenModule)
        ensures
            r@ == g_module(old(tape)@, *limits).0,
            final(tape)@ == g_module(old(tape)@, *limits).1,
    {
        let ghost t0 = tape@;
        let n = draw_count(tape, 1, limits.funcs);
        let ghost t1 = tape@;
        let mut funcs: Vec<GenFunc> = Vec::new();
        let mut i: usize = 0;
        while i < n
            invariant
                i <= n,
                funcs@.len() == i,
                g_funcs(t1, i as usize, *limits).0.len() == i,
                tape@ == g_funcs(t1, i as usize, *limits).1,
                forall|k: int|
                    0 <= k < i ==> (#[trigger] funcs@[k])@ == g_funcs(t1, i as usize, *limits).0[k],
            decreases n - i,
        {
            funcs.push(GenFunc::strat(tape, limits));
            i = i + 1;
        }
        let r = GenModule { funcs };
        proof {
            assert(r@.funcs =~= g_funcs(t1, n, *limits).0);
        }
        r
    }
}

impl GenDoc {
    /// Assembles one whole document: a forced root enum, raw extra type
    /// declarations folded through the normalizer left to right, then raw
    /// modules normalized against the complete type list.  The result is
    /// a pure function of the word source and the limits, and satisfies
    /// every structural invariant.
    pub fn strat(tape: &mut Tape, limits: &Limits) -> (r: GenDoc)
        ensures
            r@ == g_doc(old(tape)@, *limits).0,
            final(tape)@ == g_doc(old(tape)@, *limits).1,
            crate::valid::doc_valid(r@, *limits),
    {
        proof {
            crate::laws::lemma_g_doc_valid(old(tape)@, *limits);
        }
        let ghost t0 = tape@;
        let tzero = GenEnum::strat(tape, limits);
        let ntypes = draw_count(tape, 0, limits.types);
        let ghost t2 = tape@;
        let mut raw: Vec<GenType> = Vec::new();
        raw.push(GenType::Enum(tzero));
        let mut i: usize = 0;
        while i < ntypes
            invariant
                i <= ntypes,
                raw@.len() == i + 1,
                raw@[0]@ == (TypeV::Enum { repr: tzero.repr, members: tzero.members }),
                g_types(t2, i as usize, *limits).0.len() == i,
                tape@ == g_types(t2, i as usize, *limits).1,
                forall|k: int|
                    0 <= k < i ==> (#[trigger] raw@[k + 1])@ == g_types(
                        t2,
                        i as usize,
                        *limits,
                    ).0[k],
            decreases ntypes - i,
        {
            raw.push(GenType::strat(tape, limits));
            i = i + 1;
        }
        let ghost rawv = raw@.map_values(|t: GenType| t@);
        proof {
            let spec_raw = seq![TypeV::Enum { repr: tzero.repr, members: tzero.members }]
                + g_types(t2, ntypes, *limits).0;
            assert forall|k: int| 0 <= k < rawv.len() implies rawv[k] == spec_raw[k] by {
                if k > 0 {
                    assert(raw@[(k - 1) + 1]@ == g_types(t2, ntypes, *limits).0[k - 1]);
                }
            }
            assert(rawv =~= spec_raw);
        }
        let typenames = normalize_types(&raw);
        proof {
            lemma_norm_fold_len(rawv);
        }
        let norm = Norm::new(typenames.as_slice());
        let ghost t3 = tape@;
        let nmods = draw_count(tape, 1, limits.modules);
        let ghost t4 = tape@;
        let ghost m = norm.max_typeref as int;
        let mut modules: Vec<GenModule> = Vec::new();
        let mut j: usize = 0;
        while j < nmods
            invariant
                j <= nmods,
                modules@.len() == j,
                norm.max_typeref >= 1,
                m == norm.max_typeref as int,
                g_modules(t4, j as usize, *limits).0.len() == j,
                tape@ == g_modules(t4, j as usize, *limits).1,
                forall|k: int|
                    0 <= k < j ==> (#[trigger] modules@[k])@ == norm_module(
                        g_modules(t4, j as usize, *limits).0[k],
                        m,
                    ),
            decreases nmods - j,
        {
            let rawmod = GenModule::strat(tape, limits);
            modules.push(rawmod.normalize(&norm));
            j = j + 1;
        }
        let r = GenDoc { typenames, modules };
        proof {
            let spec_doc = g_doc(t0, *limits).0;
            assert(r@.types =~= spec_doc.types);
            assert(r@.modules =~= spec_doc.modules);
        }
        r
    }

    /// Generates one document from a freshly drawn random source.  The
    /// source is finite but generous; whatever words come back, the
    /// result satisfies every structural invariant.
    pub fn generate(limits: &Limits) -> (r: GenDoc)
        ensures
            crate::valid::doc_valid(r@, *limits),
    {
        let mut tape = random_tape(4096);
        GenDoc::strat(&mut tape, limits)
    }
}

} // verus!
