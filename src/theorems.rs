//! Facts about patterns that relate several operations.
//!
//! `PatternSeq::split_first` and the iterators hand out `slots(s)` one by
//! one; `Pattern::matches`, `ExactPattern::disjoint_with` and their sequence
//! forms compute `pattern_matches`, `pattern_disjoint`, `seq_matches` and
//! `seq_disjoint`; `PatternSeq::new` accepts exactly the `valid_seq` inputs.

use vstd::prelude::*;

use crate::element::PatternElement;
use crate::interner::{adt_name, item_index, InternerItem};
use crate::model::{
    decl_kinds, lemma_no_inferred_subrange, lemma_pattern_is_seq, lemma_valid_args_wf,
    no_inferred, pattern_disjoint, pattern_matches, pattern_text, seq_disjoint, seq_matches,
    seq_text, slot_len, slots, valid_args, valid_pattern, valid_seq, wf_pattern, wf_seq,
};
use crate::primitives::{GenericArgType, TypeId};

verus! {

/// Splitting a sequence into its top-level patterns, front to back, and
/// joining them again gives the sequence back: every element is in exactly
/// one of them, in its place. For a well-formed sequence each of them is a
/// well-formed pattern, and there is at least one.
pub proof fn lemma_split_first_round_trip(s: Seq<PatternElement>)
    requires
        wf_seq(s),
    ensures
        slots(s).len() >= 1,
        slots(s).flatten() == s,
        forall|i: int| 0 <= i < slots(s).len() ==> wf_pattern(#[trigger] slots(s)[i]),
    decreases s.len(),
{
    lemma_slots_flatten(s);
    let k = slot_len(s);
    if k < s.len() {
        lemma_split_first_round_trip(s.skip(k));
    }
    assert forall|i: int| 0 <= i < slots(s).len() implies wf_pattern(#[trigger] slots(s)[i]) by {
        if i > 0 {
            assert(slots(s)[i] == slots(s.skip(k))[i - 1]);
        }
    }
}

/// Joining the top-level patterns of any sequence gives it back.
pub proof fn lemma_slots_flatten(s: Seq<PatternElement>)
    ensures
        slots(s).flatten() == s,
    decreases s.len(),
{
    if s.len() > 0 {
        let k = if slot_len(s) <= s.len() {
            slot_len(s)
        } else {
            s.len() as int
        };
        lemma_slots_flatten(s.skip(k));
        let parts = slots(s);
        assert(parts.drop_first() =~= slots(s.skip(k)));
        assert(s.take(k) + s.skip(k) =~= s);
    }
}

/// Valid arguments for the parameters `ks` are one top-level pattern per
/// parameter, and together they take all of their elements.
pub proof fn lemma_valid_args_slots(
    reg: Seq<InternerItem>,
    s: Seq<PatternElement>,
    ks: Seq<GenericArgType>,
)
    requires
        valid_args(reg, s, ks),
    ensures
        slots(s).len() == ks.len(),
        slots(s).flatten() == s,
    decreases s.len(),
{
    lemma_slots_flatten(s);
    if ks.len() > 0 {
        lemma_valid_args_slots(reg, s.skip(slot_len(s)), ks.skip(1));
    }
}

/// In a sequence accepted against `reg`, every constructor node's
/// `args_length` elements are exactly its declared arguments: one valid
/// pattern per declared parameter, whose lengths add up to `args_length`.
/// So a sequence where some constructor's `args_length` differs from the
/// total length of its declared arguments is rejected.
pub proof fn lemma_arity_sound(reg: Seq<InternerItem>, s: Seq<PatternElement>, i: int)
    requires
        valid_seq(reg, s),
        0 <= i < s.len(),
        s[i] is TypeConstructor,
    ensures
        ({
            let args_length = s[i]->args_length as int;
            let args = s.subrange(i + 1, i + 1 + args_length);
            &&& i + 1 + args_length <= s.len()
            &&& decl_kinds(reg, s[i]->type_id) matches Some(ks)
            &&& valid_args(reg, args, ks)
            &&& slots(args).len() == ks.len()
            &&& slots(args).flatten() == args
        }),
    decreases s.len(),
{
    let k = slot_len(s);
    let args_length = s[i]->args_length as int;
    if i < k {
        lemma_nodes_in_pattern(reg, s.take(k), i);
        assert(s.take(k).subrange(i + 1, i + 1 + args_length) =~= s.subrange(
            i + 1,
            i + 1 + args_length,
        ));
    } else {
        lemma_arity_sound(reg, s.skip(k), i - k);
        assert(s.skip(k).subrange(i - k + 1, i - k + 1 + args_length) =~= s.subrange(
            i + 1,
            i + 1 + args_length,
        ));
    }
    let ks = decl_kinds(reg, s[i]->type_id)->Some_0;
    lemma_valid_args_slots(reg, s.subrange(i + 1, i + 1 + args_length), ks);
}

proof fn lemma_nodes_in_pattern(reg: Seq<InternerItem>, p: Seq<PatternElement>, i: int)
    requires
        valid_pattern(reg, p),
        0 <= i < p.len(),
        p[i] is TypeConstructor,
    ensures
        ({
            let args_length = p[i]->args_length as int;
            &&& i + 1 + args_length <= p.len()
            &&& decl_kinds(reg, p[i]->type_id) matches Some(ks)
            &&& valid_args(reg, p.subrange(i + 1, i + 1 + args_length), ks)
        }),
    decreases p.len(), 0int,
{
    let args_length = p[i]->args_length as int;
    if i == 0 {
        assert(p.subrange(1, 1 + args_length) =~= p.skip(1));
    } else {
        let ks = decl_kinds(reg, p[0]->type_id)->Some_0;
        lemma_nodes_in_args(reg, p.skip(1), ks, i - 1);
        assert(p.skip(1).subrange(i, i + args_length) =~= p.subrange(i + 1, i + 1 + args_length));
    }
}

proof fn lemma_nodes_in_args(
    reg: Seq<InternerItem>,
    s: Seq<PatternElement>,
    ks: Seq<GenericArgType>,
    i: int,
)
    requires
        valid_args(reg, s, ks),
        0 <= i < s.len(),
        s[i] is TypeConstructor,
    ensures
        ({
            let args_length = s[i]->args_length as int;
            &&& i + 1 + args_length <= s.len()
            &&& decl_kinds(reg, s[i]->type_id) matches Some(ks)
            &&& valid_args(reg, s.subrange(i + 1, i + 1 + args_length), ks)
        }),
    decreases s.len(), 1int,
{
    let k = slot_len(s);
    let args_length = s[i]->args_length as int;
    if i < k {
        lemma_nodes_in_pattern(reg, s.take(k), i);
        assert(s.take(k).subrange(i + 1, i + 1 + args_length) =~= s.subrange(
            i + 1,
            i + 1 + args_length,
        ));
    } else {
        lemma_nodes_in_args(reg, s.skip(k), ks.skip(1), i - k);
        assert(s.skip(k).subrange(i - k + 1, i - k + 1 + args_length) =~= s.subrange(
            i + 1,
            i + 1 + args_length,
        ));
    }
}

/// Every exact pattern matches itself.
pub proof fn lemma_matches_reflexive(p: Seq<PatternElement>)
    requires
        wf_pattern(p),
        no_inferred(p),
    ensures
        pattern_matches(p, p),
    decreases p.len(), 0int,
{
    if p.len() > 1 {
        lemma_no_inferred_subrange(p, 1, p.len() as int);
        if wf_pattern(p.skip(1)) {
            lemma_pattern_is_seq(p.skip(1));
        }
        lemma_seq_matches_reflexive(p.skip(1));
    }
}

/// Every exact sequence matches itself.
pub proof fn lemma_seq_matches_reflexive(s: Seq<PatternElement>)
    requires
        wf_seq(s),
        no_inferred(s),
    ensures
        seq_matches(s, s),
    decreases s.len(), 1int,
{
    let k = slot_len(s);
    lemma_no_inferred_subrange(s, 0, k);
    lemma_matches_reflexive(s.take(k));
    if k < s.len() {
        lemma_no_inferred_subrange(s, k, s.len() as int);
        lemma_seq_matches_reflexive(s.skip(k));
    }
}

/// A pattern that is a lone placeholder matches every pattern.
pub proof fn lemma_placeholder_matches_all(p: Seq<PatternElement>, q: Seq<PatternElement>)
    requires
        p == seq![PatternElement::TypePlaceholder],
        wf_pattern(q),
    ensures
        pattern_matches(p, q),
{
}

/// No pattern is disjoint with itself.
pub proof fn lemma_disjoint_irreflexive(p: Seq<PatternElement>)
    requires
        wf_pattern(p),
    ensures
        !pattern_disjoint(p, p),
    decreases p.len(), 0int,
{
    if p.len() > 1 {
        if wf_pattern(p.skip(1)) {
            lemma_pattern_is_seq(p.skip(1));
        }
        if wf_seq(p.skip(1)) {
            lemma_seq_disjoint_irreflexive(p.skip(1));
        }
    }
}

/// No sequence is disjoint with itself.
pub proof fn lemma_seq_disjoint_irreflexive(s: Seq<PatternElement>)
    requires
        wf_seq(s),
    ensures
        !seq_disjoint(s, s),
    decreases s.len(), 1int,
{
    let k = slot_len(s);
    lemma_disjoint_irreflexive(s.take(k));
    if k < s.len() {
        lemma_seq_disjoint_irreflexive(s.skip(k));
    }
}

/// If two patterns are disjoint, no type matches both.
pub proof fn lemma_disjoint_no_common_instance(
    a: Seq<PatternElement>,
    b: Seq<PatternElement>,
    q: Seq<PatternElement>,
)
    requires
        pattern_disjoint(a, b),
    ensures
        !(pattern_matches(a, q) && pattern_matches(b, q)),
    decreases a.len(), 0int,
{
    if pattern_matches(a, q) && pattern_matches(b, q) && a.len() > 1 && b.len() > 1 {
        lemma_seq_disjoint_no_common_instance(a.skip(1), b.skip(1), q.skip(1));
    }
}

/// If two sequences are disjoint, no sequence matches both.
pub proof fn lemma_seq_disjoint_no_common_instance(
    a: Seq<PatternElement>,
    b: Seq<PatternElement>,
    q: Seq<PatternElement>,
)
    requires
        seq_disjoint(a, b),
    ensures
        !(seq_matches(a, q) && seq_matches(b, q)),
    decreases a.len(), 1int,
{
    if seq_matches(a, q) && seq_matches(b, q) {
        let ka = slot_len(a);
        let kb = slot_len(b);
        let kq = slot_len(q);
        if pattern_disjoint(a.take(ka), b.take(kb)) {
            lemma_disjoint_no_common_instance(a.take(ka), b.take(kb), q.take(kq));
        } else if ka < a.len() && kb < b.len() {
            lemma_seq_disjoint_no_common_instance(a.skip(ka), b.skip(kb), q.skip(kq));
        }
    }
}

/// Registering more items keeps every sequence that was valid valid, with
/// the same text: an interner only ever appends.
pub proof fn lemma_valid_seq_grows(
    reg: Seq<InternerItem>,
    more: Seq<InternerItem>,
    s: Seq<PatternElement>,
)
    requires
        valid_seq(reg, s),
        reg.is_prefix_of(more),
    ensures
        valid_seq(more, s),
        seq_text(more, s) == seq_text(reg, s),
    decreases s.len(),
{
    let k = slot_len(s);
    lemma_valid_pattern_grows(reg, more, s.take(k));
    if k < s.len() {
        lemma_valid_seq_grows(reg, more, s.skip(k));
    }
}

/// Registering more items keeps every pattern that was valid valid, with
/// the same text.
pub proof fn lemma_valid_pattern_grows(
    reg: Seq<InternerItem>,
    more: Seq<InternerItem>,
    p: Seq<PatternElement>,
)
    requires
        valid_pattern(reg, p),
        reg.is_prefix_of(more),
    ensures
        valid_pattern(more, p),
        pattern_text(more, p) == pattern_text(reg, p),
    decreases p.len(), 0int,
{
    if let PatternElement::TypeConstructor { type_id, .. } = p[0] {
        let ks = decl_kinds(reg, type_id)->Some_0;
        lemma_decl_kinds_grow(reg, more, type_id);
        lemma_valid_args_grow(reg, more, p.skip(1), ks);
        lemma_valid_args_wf(reg, p.skip(1), ks);
        if ks.len() == 1 {
            lemma_valid_pattern_grows(reg, more, p.skip(1));
        }
    }
}

proof fn lemma_valid_args_grow(
    reg: Seq<InternerItem>,
    more: Seq<InternerItem>,
    s: Seq<PatternElement>,
    ks: Seq<GenericArgType>,
)
    requires
        valid_args(reg, s, ks),
        reg.is_prefix_of(more),
    ensures
        valid_args(more, s, ks),
        seq_text(more, s) == seq_text(reg, s),
    decreases s.len(), 1int,
{
    if ks.len() > 0 {
        let k = slot_len(s);
        lemma_valid_pattern_grows(reg, more, s.take(k));
        lemma_valid_args_grow(reg, more, s.skip(k), ks.skip(1));
    }
}

proof fn lemma_decl_kinds_grow(reg: Seq<InternerItem>, more: Seq<InternerItem>, t: TypeId)
    requires
        decl_kinds(reg, t) is Some,
        reg.is_prefix_of(more),
    ensures
        decl_kinds(more, t) == decl_kinds(reg, t),
        t matches TypeId::Adt(id) ==> adt_name(more, id) == adt_name(reg, id),
{
    if let TypeId::Adt(id) = t {
        let i = item_index(id.0);
        assert(more.subrange(0, reg.len() as int)[i] == more[i]);
    }
}

} // verus!
