//! Value kinds of the virtual machine and the signatures made of them.

use vstd::prelude::*;

verus! {

/// The kind of a value that a WebAssembly function takes or returns.
#[derive(Clone, Copy, Debug, PartialEq, Eq, Structural)]
pub enum ValueKind {
    /// 32-bit integer.
    I32,
    /// 64-bit integer.
    I64,
    /// 32-bit floating point.
    F32,
    /// 64-bit floating point.
    F64,
    /// 128-bit vector.
    V128,
    /// A reference to a function or to an object on the heap.
    Ref,
}

impl ValueKind {
    /// The kinds that an argument of the caller can be converted to: the two
    /// integer kinds and the 64-bit float.
    pub open spec fn spec_is_parameter_kind(self) -> bool {
        self is I32 || self is I64 || self is F64
    }

    /// The kinds that can be handed back to the caller: the parameter kinds
    /// and the 32-bit float.
    pub open spec fn spec_is_result_kind(self) -> bool {
        self is I32 || self is I64 || self is F32 || self is F64
    }

    /// Whether an argument of the caller can be converted to this kind.
    #[verifier::when_used_as_spec(spec_is_parameter_kind)]
    pub fn is_parameter_kind(self) -> (b: bool)
        ensures
            b == self.spec_is_parameter_kind(),
    {
        match self {
            ValueKind::I32 | ValueKind::I64 | ValueKind::F64 => true,
            ValueKind::F32 | ValueKind::V128 | ValueKind::Ref => false,
        }
    }

    /// Whether a value of this kind can be handed back to the caller.
    #[verifier::when_used_as_spec(spec_is_result_kind)]
    pub fn is_result_kind(self) -> (b: bool)
        ensures
            b == self.spec_is_result_kind(),
    {
        match self {
            ValueKind::I32 | ValueKind::I64 | ValueKind::F32 | ValueKind::F64 => true,
            ValueKind::V128 | ValueKind::Ref => false,
        }
    }
}

/// The signature of a callable export: the kinds of its parameters and of its
/// results, in order.
#[derive(Debug, PartialEq, Eq)]
pub struct WasmFunctionTy {
    params: Vec<ValueKind>,
    results: Vec<ValueKind>,
}

/// A copy of a list of kinds.
fn copy_kinds(kinds: &Vec<ValueKind>) -> (copy: Vec<ValueKind>)
    ensures
        copy@ == kinds@,
{
    let mut copy: Vec<ValueKind> = Vec::new();
    let mut i: usize = 0;
    while i < kinds.len()
        invariant
            i <= kinds@.len(),
            copy@ == kinds@.subrange(0, i as int),
        decreases kinds@.len() - i,
    {
        copy.push(kinds[i]);
        i = i + 1;
    }
    copy
}

impl WasmFunctionTy {
    /// The parameter kinds, in order.
    pub closed spec fn param_kinds(&self) -> Seq<ValueKind> {
        self.params@
    }

    /// The result kinds, in order.
    pub closed spec fn result_kinds(&self) -> Seq<ValueKind> {
        self.results@
    }

    /// A signature with the given parameter and result kinds.
    pub fn new(params: Vec<ValueKind>, results: Vec<ValueKind>) -> (ty: WasmFunctionTy)
        ensures
            ty.param_kinds() == params@,
            ty.result_kinds() == results@,
    {
        WasmFunctionTy { params, results }
    }

    /// The parameter kinds, in order.
    pub fn params(&self) -> (kinds: &Vec<ValueKind>)
        ensures
            kinds@ == self.param_kinds(),
    {
        &self.params
    }

    /// The result kinds, in order.
    pub fn results(&self) -> (kinds: &Vec<ValueKind>)
        ensures
            kinds@ == self.result_kinds(),
    {
        &self.results
    }

    /// A copy of this signature.
    pub fn duplicate(&self) -> (ty: WasmFunctionTy)
        ensures
            ty.param_kinds() == self.param_kinds(),
            ty.result_kinds() == self.result_kinds(),
    {
        WasmFunctionTy { params: copy_kinds(&self.params), results: copy_kinds(&self.results) }
    }
}

} // verus!
