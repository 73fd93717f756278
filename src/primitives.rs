//! Built-in type constructors and the kinds of generic parameters.

use vstd::prelude::*;

use crate::interner::AdtId;

verus! {

/// Kind of a declared generic parameter.
#[derive(Clone, Copy, Debug, PartialEq, Eq, Structural)]
pub enum GenericArgType {
    Type,
}

/// Name and generic parameters of a registered ADT.
#[derive(Debug)]
pub struct AdtData {
    pub name: String,
    pub generic_args: Vec<GenericArgType>,
}

/// Name and generic parameters of a registered trait.
#[derive(Debug)]
pub struct TraitData {
    pub name: String,
    pub generic_args: Vec<GenericArgType>,
}

#[derive(Clone, Copy, Debug, PartialEq, Eq, Structural)]
#[allow(non_camel_case_types)]
pub enum Scalar {
    bool,
    char,
    uchar,
    Int(IntType),
    UInt(UIntType),
    Float(FloatType),
}

#[derive(Clone, Copy, Debug, PartialEq, Eq, Structural)]
#[allow(non_camel_case_types)]
pub enum IntType {
    i8,
    i16,
    i32,
    i64,
    isize,
}

#[derive(Clone, Copy, Debug, PartialEq, Eq, Structural)]
#[allow(non_camel_case_types)]
pub enum UIntType {
    u8,
    u16,
    u32,
    u64,
    usize,
}

/// Floating-point widths; each is named `f` followed by its width in bits.
#[derive(Clone, Copy, Debug, PartialEq, Eq, Structural)]
pub enum FloatType {
    F16,
    F32,
    F64,
}

#[derive(Clone, Copy, Debug, PartialEq, Eq, Structural)]
pub enum RefQual {
    Mut,
    Drop,
}

#[derive(Clone, Copy, Debug, PartialEq, Eq, Structural)]
pub enum PtrQual {
    Mut,
}

/// A type constructor without its arguments.
#[derive(Clone, Copy, Debug, PartialEq, Eq, Structural)]
pub enum TypeId {
    Adt(AdtId),
    Scalar(Scalar),
    NonZero,
    Slice,
    Ref(Option<RefQual>),
    Ptr(Option<PtrQual>),
    Never,
}

pub open spec fn int_text(t: IntType) -> Seq<char> {
    match t {
        IntType::i8 => "i8"@,
        IntType::i16 => "i16"@,
        IntType::i32 => "i32"@,
        IntType::i64 => "i64"@,
        IntType::isize => "isize"@,
    }
}

pub open spec fn uint_text(t: UIntType) -> Seq<char> {
    match t {
        UIntType::u8 => "u8"@,
        UIntType::u16 => "u16"@,
        UIntType::u32 => "u32"@,
        UIntType::u64 => "u64"@,
        UIntType::usize => "usize"@,
    }
}

/// Decimal digits of the width in bits.
pub open spec fn float_width_text(t: FloatType) -> Seq<char> {
    match t {
        FloatType::F16 => "16"@,
        FloatType::F32 => "32"@,
        FloatType::F64 => "64"@,
    }
}

pub open spec fn float_text(t: FloatType) -> Seq<char> {
    "f"@ + float_width_text(t)
}

/// Canonical name of a scalar type.
pub open spec fn scalar_text(s: Scalar) -> Seq<char> {
    match s {
        Scalar::bool => "bool"@,
        Scalar::char => "char"@,
        Scalar::uchar => "uchar"@,
        Scalar::Int(t) => int_text(t),
        Scalar::UInt(t) => uint_text(t),
        Scalar::Float(t) => float_text(t),
    }
}

/// What stands between `&` and the referent.
pub open spec fn ref_qual_text(q: Option<RefQual>) -> Seq<char> {
    match q {
        Some(RefQual::Mut) => "mut "@,
        Some(RefQual::Drop) => "drop "@,
        None => ""@,
    }
}

/// What stands between `*` and the pointee.
pub open spec fn ptr_qual_text(q: Option<PtrQual>) -> Seq<char> {
    match q {
        Some(PtrQual::Mut) => "mut "@,
        None => ""@,
    }
}

/// Generic parameters of a built-in constructor; `None` for an ADT, whose
/// parameters are declared in an interner.
pub open spec fn builtin_kinds(t: TypeId) -> Option<Seq<GenericArgType>> {
    match t {
        TypeId::Adt(_) => None,
        TypeId::Scalar(_) | TypeId::Never => Some(seq![]),
        TypeId::NonZero | TypeId::Slice | TypeId::Ref(_) | TypeId::Ptr(_) => Some(
            seq![GenericArgType::Type],
        ),
    }
}

impl IntType {
    /// Appends the name of this type to `f`.
    pub fn fmt(&self, f: &mut String)
        ensures
            final(f)@ == old(f)@ + int_text(*self),
    {
        match self {
            IntType::i8 => f.append("i8"),
            IntType::i16 => f.append("i16"),
            IntType::i32 => f.append("i32"),
            IntType::i64 => f.append("i64"),
            IntType::isize => f.append("isize"),
        }
    }
}

impl UIntType {
    /// Appends the name of this type to `f`.
    pub fn fmt(&self, f: &mut String)
        ensures
            final(f)@ == old(f)@ + uint_text(*self),
    {
        match self {
            UIntType::u8 => f.append("u8"),
            UIntType::u16 => f.append("u16"),
            UIntType::u32 => f.append("u32"),
            UIntType::u64 => f.append("u64"),
            UIntType::usize => f.append("usize"),
        }
    }
}

impl FloatType {
    /// Appends the name of this type to `f`.
    pub fn fmt(&self, f: &mut String)
        ensures
            final(f)@ == old(f)@ + float_text(*self),
    {
        f.append("f");
        match self {
            FloatType::F16 => f.append("16"),
            FloatType::F32 => f.append("32"),
            FloatType::F64 => f.append("64"),
        }
        assert(final(f)@ =~= old(f)@ + float_text(*self));
    }
}

impl Scalar {
    /// Appends the canonical name of this scalar to `f`.
    pub fn fmt(&self, f: &mut String)
        ensures
            final(f)@ == old(f)@ + scalar_text(*self),
    {
        match self {
            Scalar::bool => f.append("bool"),
            Scalar::char => f.append("char"),
            Scalar::uchar => f.append("uchar"),
            Scalar::Int(t) => t.fmt(f),
            Scalar::UInt(t) => t.fmt(f),
            Scalar::Float(t) => t.fmt(f),
        }
    }
}

impl RefQual {
    /// The qualifier as written after `&`, with its trailing space.
    pub fn repr(qual: Option<Self>) -> (r: &'static str)
        ensures
            r@ == ref_qual_text(qual),
    {
        match qual {
            Some(RefQual::Mut) => "mut ",
            Some(RefQual::Drop) => "drop ",
            None => "",
        }
    }
}

impl PtrQual {
    /// The qualifier as written after `*`, with its trailing space.
    pub fn repr(qual: Option<Self>) -> (r: &'static str)
        ensures
            r@ == ptr_qual_text(qual),
    {
        match qual {
            Some(PtrQual::Mut) => "mut ",
            None => "",
        }
    }
}

impl TypeId {
    /// The generic parameters of a built-in constructor, or the id of the ADT
    /// whose parameters an interner declares.
    pub fn generic_arg_types(self) -> (r: Result<&'static [GenericArgType], AdtId>)
        ensures
            match self {
                TypeId::Adt(id) => r == Err::<&'static [GenericArgType], AdtId>(id),
                _ => r is Ok && Some(r->Ok_0@) == builtin_kinds(self),
            },
    {
        match self {
            TypeId::Adt(id) => Err(id),
            TypeId::NonZero | TypeId::Slice | TypeId::Ref(_) | TypeId::Ptr(_) => {
                let r: &'static [GenericArgType] = &[GenericArgType::Type];
                assert(r@ =~= seq![GenericArgType::Type]);
                Ok(r)
            },
            TypeId::Scalar(_) | TypeId::Never => {
                let r: &'static [GenericArgType] = &[];
                assert(r@ =~= seq![]);
                Ok(r)
            },
        }
    }
}

} // verus!
