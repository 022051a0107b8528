//! Literal values of the HLIR. A literal carries its raw textual lexeme
//! (and radix for integers); turning the text into a machine value is left
//! to later stages.

use vstd::prelude::*;

use crate::hlir::inference::InferenceId;

verus! {

/// A literal together with the inference id of its type.
#[derive(Debug, Clone, PartialEq, Eq)]
pub struct Literal {
    pub(crate) value: LiteralValue,
    pub(crate) ty: InferenceId,
}

impl Literal {
    pub closed spec fn spec_value(&self) -> LiteralValue {
        self.value
    }

    pub closed spec fn spec_ty(&self) -> InferenceId {
        self.ty
    }

    pub fn new(value: LiteralValue, ty: InferenceId) -> (r: Self)
        ensures
            r.spec_value() == value,
            r.spec_ty() == ty,
    {
        Self { value, ty }
    }

    /// The inference id of this literal's type.
    pub fn ty(&self) -> (r: InferenceId)
        ensures
            r == self.spec_ty(),
    {
        self.ty
    }
}

/// The raw value of a literal as it appeared in source.
#[derive(Debug, Clone, PartialEq, Eq)]
pub enum LiteralValue {
    Integer { value: String, radix: u32 },
    Float { value: String },
    Boolean { value: bool },
    Character { value: String },
    String { value: String },
}

} // verus!
