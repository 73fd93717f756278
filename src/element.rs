//! The tokens of the flattened encoding.

use vstd::prelude::*;

use crate::primitives::{GenericArgType, TypeId};

verus! {

/// Kind of a pattern, matched against a declared generic parameter's kind.
#[derive(Clone, Copy, Debug, PartialEq, Eq, Structural)]
pub enum PatternKind {
    Type,
}

/// The pattern kind that a generic parameter of kind `k` accepts.
pub open spec fn kind_of_arg(k: GenericArgType) -> PatternKind {
    match k {
        GenericArgType::Type => PatternKind::Type,
    }
}

impl From<GenericArgType> for PatternKind {
    fn from(value: GenericArgType) -> (r: Self) {
        match value {
            GenericArgType::Type => PatternKind::Type,
        }
    }
}

impl vstd::std_specs::convert::FromSpecImpl<GenericArgType> for PatternKind {
    open spec fn obeys_from_spec() -> bool {
        true
    }

    open spec fn from_spec(v: GenericArgType) -> Self {
        kind_of_arg(v)
    }
}

/// One node of a type tree written in pre-order.
#[derive(Clone, Copy, Debug, PartialEq, Eq, Structural)]
pub enum PatternElement {
    /// A concrete constructor; its arguments' subtrees take the next
    /// `args_length` elements.
    TypeConstructor { args_length: usize, type_id: TypeId },
    /// A type left open: it stands for any type.
    TypePlaceholder,
    /// A type still to be inferred.
    InferredType,
}

/// The kind of the pattern rooted at `e`.
pub open spec fn element_kind(e: PatternElement) -> PatternKind {
    match e {
        PatternElement::TypeConstructor { .. }
        | PatternElement::TypePlaceholder
        | PatternElement::InferredType => PatternKind::Type,
    }
}

impl PatternElement {
    /// Whether this element is an inference marker.
    pub fn is_inference_var(&self) -> (r: bool)
        ensures
            r == (*self is InferredType),
    {
        match self {
            PatternElement::TypeConstructor { .. } | PatternElement::TypePlaceholder => false,
            PatternElement::InferredType => true,
        }
    }

    /// The kind of the pattern rooted at this element.
    pub fn kind(&self) -> (r: PatternKind)
        ensures
            r == element_kind(*self),
    {
        match self {
            PatternElement::TypeConstructor { .. }
            | PatternElement::TypePlaceholder
            | PatternElement::InferredType => PatternKind::Type,
        }
    }
}

} // verus!
