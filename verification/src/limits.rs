//! Size bounds for one generation run.

use vstd::prelude::*;

verus! {

/// Upper bounds on every cardinality of a generated document.  Each field
/// is an exclusive upper bound on a randomly chosen count.
#[derive(Debug, Clone)]
pub struct Limits {
    pub types: usize,
    pub struct_members: usize,
    pub union_variants: usize,
    pub enum_variants: usize,
    pub flag_members: usize,
    pub handle_supertypes: usize,
    pub modules: usize,
    pub funcs: usize,
    pub func_params: usize,
    pub func_results: usize,
}

impl Default for Limits {
    /// The stock configuration: a document of at most 20 types and 3
    /// modules of at most 10 functions each.
    fn default() -> (r: Self)
        ensures
            r.types == 20,
            r.struct_members == 10,
            r.union_variants == 5,
            r.enum_variants == 32,
            r.flag_members == 64,
            r.handle_supertypes == 2,
            r.modules == 3,
            r.funcs == 10,
            r.func_params == 5,
            r.func_results == 3,
    {
        Limits {
            types: 20,
            struct_members: 10,
            union_variants: 5,
            enum_variants: 32,
            flag_members: 64,
            handle_supertypes: 2,
            modules: 3,
            funcs: 10,
            func_params: 5,
            func_results: 3,
        }
    }
}

} // verus!
