//! The document data model: type declarations, functions, modules, and
//! the ghost view of each, over which all contracts are stated.

use vstd::prelude::*;

verus! {

/// A reference to a declared type, by its position in the declaration
/// list.  Raw references carry an arbitrary index; normalization reduces
/// the index into range.
#[derive(Debug, Clone, Copy, PartialEq, Eq, Structural)]
pub struct GenTypeRef {
    pub idx: usize,
}

/// The unsigned integer representation of an enum or flags declaration.
#[derive(Debug, Clone, Copy, PartialEq, Eq, Structural)]
pub enum IntRepr {
    U8,
    U16,
    U32,
    U64,
}

/// A primitive type: a string or a scalar of a standard width.
#[derive(Debug, Clone, Copy, PartialEq, Eq, Structural)]
pub enum BuiltinType {
    String,
    U8,
    U16,
    U32,
    U64,
    S8,
    S16,
    S32,
    S64,
    F32,
    F64,
}

/// An enumeration: `members` names are encoded in `repr`.
#[derive(Debug, Clone, Copy, PartialEq, Eq, Structural)]
pub struct GenEnum {
    pub repr: IntRepr,
    pub members: usize,
}

/// A bit-flags declaration: `members` flag bits inside `repr`.
#[derive(Debug, Clone, Copy, PartialEq, Eq, Structural)]
pub struct GenFlags {
    pub repr: IntRepr,
    pub members: usize,
}

/// A struct declaration: an ordered list of member type references.
#[derive(Debug, Clone)]
pub struct GenStruct {
    pub members: Vec<GenTypeRef>,
}

/// A union declaration: an ordered list of variant type references.
#[derive(Debug, Clone)]
pub struct GenUnion {
    pub variants: Vec<GenTypeRef>,
}

/// A handle declaration: an ordered list of supertype references, each of
/// which must name an earlier handle declaration once normalized.
#[derive(Debug, Clone)]
pub struct GenHandle {
    pub supertypes: Vec<GenTypeRef>,
}

/// One type declaration.
#[derive(Debug, Clone)]
pub enum GenType {
    Name(GenTypeRef),
    Enum(GenEnum),
    Flags(GenFlags),
    Struct(GenStruct),
    Union(GenUnion),
    Handle(GenHandle),
    Array(GenTypeRef),
    Pointer(GenTypeRef),
    ConstPointer(GenTypeRef),
    Builtin(BuiltinType),
}

/// A function: parameter and result type references.  The first result is
/// always a reference to the root type at index 0.
#[derive(Debug, Clone)]
pub struct GenFunc {
    pub params: Vec<GenTypeRef>,
    pub results: Vec<GenTypeRef>,
}

/// A module: an ordered list of functions.
#[derive(Debug, Clone)]
pub struct GenModule {
    pub funcs: Vec<GenFunc>,
}

/// The root aggregate: the ordered type declarations and the modules.
#[derive(Debug, Clone)]
pub struct GenDoc {
    pub typenames: Vec<GenType>,
    pub modules: Vec<GenModule>,
}

/// The ghost view of one type declaration: reference lists become
/// sequences of plain indices.
pub enum TypeV {
    Name { idx: usize },
    Enum { repr: IntRepr, members: usize },
    Flags { repr: IntRepr, members: usize },
    Struct { members: Seq<usize> },
    Union { variants: Seq<usize> },
    Handle { supertypes: Seq<usize> },
    Array { idx: usize },
    Pointer { idx: usize },
    ConstPointer { idx: usize },
    Builtin { builtin: BuiltinType },
}

/// The ghost view of a function.
pub struct FuncV {
    pub params: Seq<usize>,
    pub results: Seq<usize>,
}

/// The ghost view of a module.
pub struct ModuleV {
    pub funcs: Seq<FuncV>,
}

/// The ghost view of a whole document.
pub struct DocV {
    pub types: Seq<TypeV>,
    pub modules: Seq<ModuleV>,
}

/// The indices held by a list of type references.
pub open spec fn ref_idxs(refs: Seq<GenTypeRef>) -> Seq<usize> {
    refs.map_values(|t: GenTypeRef| t.idx)
}

impl View for GenStruct {
    type V = Seq<usize>;

    open spec fn view(&self) -> Seq<usize> {
        ref_idxs(self.members@)
    }
}

impl View for GenUnion {
    type V = Seq<usize>;

    open spec fn view(&self) -> Seq<usize> {
        ref_idxs(self.variants@)
    }
}

impl View for GenHandle {
    type V = Seq<usize>;

    open spec fn view(&self) -> Seq<usize> {
        ref_idxs(self.supertypes@)
    }
}

impl View for GenType {
    type V = TypeV;

    open spec fn view(&self) -> TypeV {
        match self {
            GenType::Name(t) => TypeV::Name { idx: t.idx },
            GenType::Enum(e) => TypeV::Enum { repr: e.repr, members: e.members },
            GenType::Flags(f) => TypeV::Flags { repr: f.repr, members: f.members },
            GenType::Struct(s) => TypeV::Struct { members: s@ },
            GenType::Union(u) => TypeV::Union { variants: u@ },
            GenType::Handle(h) => TypeV::Handle { supertypes: h@ },
            GenType::Array(t) => TypeV::Array { idx: t.idx },
            GenType::Pointer(t) => TypeV::Pointer { idx: t.idx },
            GenType::ConstPointer(t) => TypeV::ConstPointer { idx: t.idx },
            GenType::Builtin(b) => TypeV::Builtin { builtin: *b },
        }
    }
}

impl View for GenFunc {
    type V = FuncV;

    open spec fn view(&self) -> FuncV {
        FuncV { params: ref_idxs(self.params@), results: ref_idxs(self.results@) }
    }
}

impl View for GenModule {
    type V = ModuleV;

    open spec fn view(&self) -> ModuleV {
        ModuleV { funcs: self.funcs@.map_values(|f: GenFunc| f@) }
    }
}

impl View for GenDoc {
    type V = DocV;

    open spec fn view(&self) -> DocV {
        DocV {
            types: self.typenames@.map_values(|t: GenType| t@),
            modules: self.modules@.map_values(|m: GenModule| m@),
        }
    }
}

} // verus!
