//! What a flattened pattern means: its shape, its validity against a
//! registry, its top-level slots, matching, disjointness and text.
//!
//! A pattern is one type tree written in pre-order: a constructor node,
//! then each argument's subtree in declaration order. A sequence is one or
//! more patterns side by side.

use vstd::prelude::*;

use crate::element::{element_kind, kind_of_arg, PatternElement};
use crate::interner::{adt_kinds, adt_name, trait_kinds, trait_name, InternerItem, TraitId};
use crate::primitives::{
    builtin_kinds, ptr_qual_text, ref_qual_text, scalar_text, GenericArgType, TypeId,
};

verus! {

/// Number of elements taken by the pattern whose root is `s[0]`.
pub open spec fn slot_len(s: Seq<PatternElement>) -> int {
    match s[0] {
        PatternElement::TypeConstructor { args_length, .. } => 1 + args_length,
        _ => 1,
    }
}

/// The first pattern of `s` fits in `s`.
pub open spec fn head_fits(s: Seq<PatternElement>) -> bool {
    s.len() >= 1 && slot_len(s) <= s.len()
}

/// `s` is exactly one tree whose constructors take as many argument
/// subtrees as their arity allows: none for scalars and `!`, one for
/// `NonZero`, slices, references and pointers, any number for an ADT.
pub open spec fn wf_pattern(s: Seq<PatternElement>) -> bool
    decreases s.len(), 0int,
{
    &&& s.len() >= 1
    &&& match s[0] {
        PatternElement::TypeConstructor { args_length, type_id } => {
            &&& s.len() == args_length + 1
            &&& match builtin_kinds(type_id) {
                Some(ks) => if ks.len() == 0 {
                    args_length == 0
                } else {
                    wf_pattern(s.skip(1))
                },
                None => args_length == 0 || wf_seq(s.skip(1)),
            }
        },
        _ => s.len() == 1,
    }
}

/// `s` is one or more well-formed patterns side by side.
pub open spec fn wf_seq(s: Seq<PatternElement>) -> bool
    decreases s.len(), 1int,
{
    &&& head_fits(s)
    &&& wf_pattern(s.take(slot_len(s)))
    &&& slot_len(s) < s.len() ==> wf_seq(s.skip(slot_len(s)))
}

/// The generic parameters that a constructor declares: fixed for the
/// built-ins, looked up in `reg` for an ADT.
pub open spec fn decl_kinds(reg: Seq<InternerItem>, t: TypeId) -> Option<Seq<GenericArgType>> {
    match t {
        TypeId::Adt(id) => adt_kinds(reg, id),
        _ => builtin_kinds(t),
    }
}

/// `s` is exactly one tree in which each constructor is known to `reg` and
/// its `args_length` elements hold exactly its declared arguments.
pub open spec fn valid_pattern(reg: Seq<InternerItem>, s: Seq<PatternElement>) -> bool
    decreases s.len(), 0int,
{
    &&& s.len() >= 1
    &&& match s[0] {
        PatternElement::TypeConstructor { args_length, type_id } => {
            &&& s.len() == args_length + 1
            &&& match decl_kinds(reg, type_id) {
                Some(ks) => valid_args(reg, s.skip(1), ks),
                None => false,
            }
        },
        _ => s.len() == 1,
    }
}

/// `s` is exactly one valid pattern for each of `ks`, in order, each of the
/// kind that its parameter accepts.
pub open spec fn valid_args(
    reg: Seq<InternerItem>,
    s: Seq<PatternElement>,
    ks: Seq<GenericArgType>,
) -> bool
    decreases s.len(), 1int,
{
    if ks.len() == 0 {
        s.len() == 0
    } else {
        &&& head_fits(s)
        &&& element_kind(s[0]) == kind_of_arg(ks[0])
        &&& valid_pattern(reg, s.take(slot_len(s)))
        &&& valid_args(reg, s.skip(slot_len(s)), ks.skip(1))
    }
}

/// `s` is one or more valid patterns side by side.
pub open spec fn valid_seq(reg: Seq<InternerItem>, s: Seq<PatternElement>) -> bool
    decreases s.len(),
{
    &&& head_fits(s)
    &&& valid_pattern(reg, s.take(slot_len(s)))
    &&& slot_len(s) < s.len() ==> valid_seq(reg, s.skip(slot_len(s)))
}

/// No element of `s` is an inference marker.
pub open spec fn no_inferred(s: Seq<PatternElement>) -> bool {
    forall|i: int| 0 <= i < s.len() ==> !(#[trigger] s[i] is InferredType)
}

/// The top-level patterns of `s`, front to back (a first pattern that runs
/// past the end is cut at the end).
pub open spec fn slots(s: Seq<PatternElement>) -> Seq<Seq<PatternElement>>
    decreases s.len(),
{
    if s.len() == 0 {
        seq![]
    } else {
        let k = if slot_len(s) <= s.len() {
            slot_len(s)
        } else {
            s.len() as int
        };
        seq![s.take(k)] + slots(s.skip(k))
    }
}

/// `s` has one top-level pattern per entry of `ks`, each of the kind that
/// the entry accepts.
pub open spec fn same_structure(s: Seq<PatternElement>, ks: Seq<GenericArgType>) -> bool
    decreases s.len(),
{
    if ks.len() == 0 {
        s.len() == 0
    } else {
        &&& head_fits(s)
        &&& element_kind(s[0]) == kind_of_arg(ks[0])
        &&& same_structure(s.skip(slot_len(s)), ks.skip(1))
    }
}

/// The pattern `p` describes the concrete type `q`: a placeholder in `p`
/// stands for any type; constructors must be equal, and so must, pairwise,
/// their argument sequences.
pub open spec fn pattern_matches(p: Seq<PatternElement>, q: Seq<PatternElement>) -> bool
    decreases p.len(), 0int,
{
    &&& p.len() >= 1
    &&& q.len() >= 1
    &&& match p[0] {
        PatternElement::TypePlaceholder => true,
        PatternElement::TypeConstructor { type_id: t1, .. } => match q[0] {
            PatternElement::TypeConstructor { type_id: t2, .. } => {
                &&& t1 == t2
                &&& if p.len() > 1 && q.len() > 1 {
                    seq_matches(p.skip(1), q.skip(1))
                } else {
                    p.len() == 1 && q.len() == 1
                }
            },
            _ => false,
        },
        PatternElement::InferredType => false,
    }
}

/// Both sequences have the same number of top-level patterns and each
/// pattern of `p` matches the one of `q` in the same place.
pub open spec fn seq_matches(p: Seq<PatternElement>, q: Seq<PatternElement>) -> bool
    decreases p.len(), 1int,
{
    &&& head_fits(p)
    &&& head_fits(q)
    &&& pattern_matches(p.take(slot_len(p)), q.take(slot_len(q)))
    &&& if slot_len(p) < p.len() && slot_len(q) < q.len() {
        seq_matches(p.skip(slot_len(p)), q.skip(slot_len(q)))
    } else {
        slot_len(p) == p.len() && slot_len(q) == q.len()
    }
}

/// The concrete patterns `a` and `b` can never denote the same type: their
/// root constructors differ, or their argument sequences are disjoint. A
/// placeholder on either side is never disjoint with anything.
pub open spec fn pattern_disjoint(a: Seq<PatternElement>, b: Seq<PatternElement>) -> bool
    decreases a.len(), 0int,
{
    &&& a.len() >= 1
    &&& b.len() >= 1
    &&& match (a[0], b[0]) {
        (
            PatternElement::TypeConstructor { type_id: t1, .. },
            PatternElement::TypeConstructor { type_id: t2, .. },
        ) => {
            ||| t1 != t2
            ||| if a.len() > 1 && b.len() > 1 {
                seq_disjoint(a.skip(1), b.skip(1))
            } else {
                (a.len() > 1) != (b.len() > 1)
            }
        },
        _ => false,
    }
}

/// Some pair of top-level patterns in the same place is disjoint, or the
/// two sequences hold different numbers of top-level patterns.
pub open spec fn seq_disjoint(a: Seq<PatternElement>, b: Seq<PatternElement>) -> bool
    decreases a.len(), 1int,
{
    &&& head_fits(a)
    &&& head_fits(b)
    &&& {
        ||| pattern_disjoint(a.take(slot_len(a)), b.take(slot_len(b)))
        ||| if slot_len(a) < a.len() && slot_len(b) < b.len() {
            seq_disjoint(a.skip(slot_len(a)), b.skip(slot_len(b)))
        } else {
            (slot_len(a) < a.len()) != (slot_len(b) < b.len())
        }
    }
}

/// Canonical text of the pattern `p`, with ADT names taken from `reg`.
pub open spec fn pattern_text(reg: Seq<InternerItem>, p: Seq<PatternElement>) -> Seq<char>
    decreases p.len(), 0int,
{
    if p.len() == 0 {
        seq![]
    } else {
        match p[0] {
            PatternElement::TypePlaceholder => "_"@,
            PatternElement::InferredType => "?"@,
            PatternElement::TypeConstructor { args_length, type_id } => match type_id {
                TypeId::Scalar(s) => scalar_text(s),
                TypeId::Never => "!"@,
                TypeId::NonZero => "NonZero<"@ + pattern_text(reg, p.skip(1)) + ">"@,
                TypeId::Slice => "["@ + pattern_text(reg, p.skip(1)) + "]"@,
                TypeId::Ref(q) => "&"@ + ref_qual_text(q) + pattern_text(reg, p.skip(1)),
                TypeId::Ptr(q) => "*"@ + ptr_qual_text(q) + pattern_text(reg, p.skip(1)),
                TypeId::Adt(id) => if args_length != 0 {
                    adt_name(reg, id) + "<"@ + seq_text(reg, p.skip(1)) + ">"@
                } else {
                    adt_name(reg, id)
                },
            },
        }
    }
}

/// Canonical text of the sequence `s`: its top-level patterns joined by
/// `", "`.
pub open spec fn seq_text(reg: Seq<InternerItem>, s: Seq<PatternElement>) -> Seq<char>
    decreases s.len(), 1int,
{
    if !head_fits(s) {
        seq![]
    } else if slot_len(s) < s.len() {
        pattern_text(reg, s.take(slot_len(s))) + ", "@ + seq_text(reg, s.skip(slot_len(s)))
    } else {
        pattern_text(reg, s.take(slot_len(s)))
    }
}

/// Text of an inherent impl whose implementor is the pattern `s`.
pub open spec fn inherent_impl_text(reg: Seq<InternerItem>, s: Seq<PatternElement>) -> Seq<
    char,
> {
    "impl "@ + pattern_text(reg, s)
}

/// Text of an impl of the trait `t`: the implementor is the first
/// top-level pattern of `s`, the trait's arguments the rest.
pub open spec fn trait_impl_text(
    reg: Seq<InternerItem>,
    s: Seq<PatternElement>,
    t: TraitId,
) -> Seq<char> {
    let head = "impl "@ + pattern_text(reg, s.take(slot_len(s))) + " as "@ + trait_name(reg, t);
    if trait_kinds(reg, t) matches Some(ks) && ks.len() != 0 {
        head + "<"@ + seq_text(reg, s.skip(slot_len(s))) + ">"@
    } else {
        head
    }
}

/// A well-formed pattern is a well-formed sequence of one pattern.
pub proof fn lemma_pattern_is_seq(s: Seq<PatternElement>)
    requires
        wf_pattern(s),
    ensures
        wf_seq(s),
        slot_len(s) == s.len(),
{
    assert(s.take(s.len() as int) =~= s);
}

/// A valid pattern is well formed.
pub proof fn lemma_valid_pattern_wf(reg: Seq<InternerItem>, s: Seq<PatternElement>)
    requires
        valid_pattern(reg, s),
    ensures
        wf_pattern(s),
    decreases s.len(), 0int,
{
    if let PatternElement::TypeConstructor { args_length, type_id } = s[0] {
        let ks = decl_kinds(reg, type_id)->Some_0;
        lemma_valid_args_wf(reg, s.skip(1), ks);
    }
}

/// What valid arguments for `ks` are, seen as a sequence.
pub proof fn lemma_valid_args_wf(
    reg: Seq<InternerItem>,
    s: Seq<PatternElement>,
    ks: Seq<GenericArgType>,
)
    requires
        valid_args(reg, s, ks),
    ensures
        ks.len() == 0 ==> s.len() == 0,
        ks.len() >= 1 ==> wf_seq(s) && valid_seq(reg, s),
        ks.len() == 1 ==> wf_pattern(s) && valid_pattern(reg, s),
        same_structure(s, ks),
    decreases s.len(), 1int,
{
    if ks.len() > 0 {
        let k = slot_len(s);
        lemma_valid_pattern_wf(reg, s.take(k));
        lemma_valid_args_wf(reg, s.skip(k), ks.skip(1));
        if ks.len() == 1 {
            assert(s.take(k) =~= s);
        }
    }
}

/// A valid sequence is well formed.
pub proof fn lemma_valid_seq_wf(reg: Seq<InternerItem>, s: Seq<PatternElement>)
    requires
        valid_seq(reg, s),
    ensures
        wf_seq(s),
    decreases s.len(),
{
    let k = slot_len(s);
    lemma_valid_pattern_wf(reg, s.take(k));
    if k < s.len() {
        lemma_valid_seq_wf(reg, s.skip(k));
    }
}

/// Every part of a sequence without inference markers has none either.
pub proof fn lemma_no_inferred_subrange(s: Seq<PatternElement>, i: int, j: int)
    requires
        no_inferred(s),
        0 <= i <= j <= s.len(),
    ensures
        no_inferred(s.subrange(i, j)),
{
    assert forall|n: int| 0 <= n < j - i implies !(#[trigger] s.subrange(i, j)[n] is InferredType) by {
        assert(s.subrange(i, j)[n] == s[i + n]);
    }
}

} // verus!
