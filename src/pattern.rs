//! Validated views over a flattened pattern: construction, traversal,
//! matching and disjointness.

use vstd::prelude::*;
use vstd::slice::{slice_subrange, slice_to_vec};

use crate::element::{element_kind, PatternElement, PatternKind};
use crate::interner::{trait_kinds, NaiveInterner, TraitId};
use crate::model::{
    decl_kinds, head_fits, lemma_no_inferred_subrange, lemma_pattern_is_seq,
    lemma_valid_pattern_wf, lemma_valid_seq_wf, no_inferred, pattern_disjoint, pattern_matches,
    same_structure, seq_disjoint, seq_matches, slot_len, slots, valid_args, valid_pattern,
    valid_seq, wf_pattern, wf_seq,
};
use crate::primitives::GenericArgType;

verus! {

/// One or more patterns side by side.
#[derive(Clone, Copy, Debug)]
pub struct PatternSeq<'a> {
    elems: &'a [PatternElement],
}

/// A sequence of patterns none of which holds an inference marker.
#[derive(Clone, Copy, Debug)]
pub struct ExactPatternSeq<'a> {
    seq: PatternSeq<'a>,
}

/// Exactly one pattern.
#[derive(Clone, Copy, Debug)]
pub struct Pattern<'a> {
    elems: &'a [PatternElement],
}

/// A pattern that holds no inference marker.
#[derive(Clone, Copy, Debug)]
pub struct ExactPattern<'a> {
    pat: Pattern<'a>,
}

/// Walks the top-level patterns of a sequence, front to back.
#[derive(Clone, Copy, Debug)]
pub struct PatternSeqIter<'a>(Option<PatternSeq<'a>>);

/// Walks the top-level patterns of an exact sequence, front to back.
#[derive(Clone, Copy, Debug)]
pub struct ExactPatternSeqIter<'a>(Option<ExactPatternSeq<'a>>);

impl<'a> View for PatternSeq<'a> {
    type V = Seq<PatternElement>;

    closed spec fn view(&self) -> Seq<PatternElement> {
        self.elems@
    }
}

impl<'a> View for ExactPatternSeq<'a> {
    type V = Seq<PatternElement>;

    closed spec fn view(&self) -> Seq<PatternElement> {
        self.seq@
    }
}

impl<'a> View for Pattern<'a> {
    type V = Seq<PatternElement>;

    closed spec fn view(&self) -> Seq<PatternElement> {
        self.elems@
    }
}

impl<'a> View for ExactPattern<'a> {
    type V = Seq<PatternElement>;

    closed spec fn view(&self) -> Seq<PatternElement> {
        self.pat@
    }
}

impl<'a> View for PatternSeqIter<'a> {
    type V = Seq<Seq<PatternElement>>;

    /// The patterns still to come.
    closed spec fn view(&self) -> Seq<Seq<PatternElement>> {
        match self.0 {
            Some(s) => slots(s@),
            None => seq![],
        }
    }
}

impl<'a> View for ExactPatternSeqIter<'a> {
    type V = Seq<Seq<PatternElement>>;

    /// The patterns still to come.
    closed spec fn view(&self) -> Seq<Seq<PatternElement>> {
        match self.0 {
            Some(s) => slots(s@),
            None => seq![],
        }
    }
}

/// Splitting a sequence at its first pattern splits its list of slots.
proof fn lemma_slots_split(s: Seq<PatternElement>)
    requires
        head_fits(s),
    ensures
        slots(s)[0] == s.take(slot_len(s)),
        slots(s).skip(1) == slots(s.skip(slot_len(s))),
        slot_len(s) == s.len() ==> slots(s.skip(slot_len(s))).len() == 0,
{
    assert(slots(s).skip(1) =~= slots(s.skip(slot_len(s))));
}

impl<'a> PatternSeq<'a> {
    #[verifier::type_invariant]
    spec fn inv(self) -> bool {
        wf_seq(self.elems@)
    }

    /// Views `pattern` as a sequence without checking it against an interner.
    pub fn new_unchecked(pattern: &'a [PatternElement]) -> (r: Self)
        requires
            wf_seq(pattern@),
        ensures
            r@ == pattern@,
    {
        PatternSeq { elems: pattern }
    }

    /// Checks that `pattern` is one or more patterns valid against `interner`.
    pub fn new(interner: &NaiveInterner, pattern: &'a [PatternElement]) -> (r: Option<Self>)
        ensures
            r is Some <==> valid_seq(interner@, pattern@),
            r matches Some(seq) ==> seq@ == pattern@ && wf_seq(seq@),
    {
        if pattern.len() == 0 {
            return None;
        }
        let mut pat = pattern;
        while pat.len() > 0
            invariant
                pattern@.len() > 0,
                valid_seq(interner@, pattern@) <==> (pat@.len() == 0 || valid_seq(
                    interner@,
                    pat@,
                )),
            decreases pat@.len(),
        {
            match Pattern::new_any(interner, pat) {
                Some((_, rest)) => {
                    pat = rest;
                },
                None => {
                    return None;
                },
            }
        }
        proof {
            lemma_valid_seq_wf(interner@, pattern@);
        }
        Some(PatternSeq { elems: pattern })
    }

    /// Checks `pattern` as `new` does, and that its top-level patterns are an
    /// implementor followed by one argument for each generic parameter of the
    /// trait `trait_id`.
    pub fn new_trait_impl(
        interner: &NaiveInterner,
        pattern: &'a [PatternElement],
        trait_id: TraitId,
    ) -> (r: Option<Self>)
        requires
            trait_kinds(interner@, trait_id) is Some,
        ensures
            r is Some <==> valid_seq(interner@, pattern@) && same_structure(
                pattern@,
                seq![GenericArgType::Type] + trait_kinds(interner@, trait_id)->Some_0,
            ),
            r matches Some(seq) ==> seq@ == pattern@ && wf_seq(seq@),
    {
        let seq = match Self::new(interner, pattern) {
            Some(seq) => seq,
            None => {
                return None;
            },
        };
        let trait_data = interner.get_trait(trait_id);
        let mut kinds: Vec<GenericArgType> = Vec::new();
        kinds.push(GenericArgType::Type);
        let mut i: usize = 0;
        while i < trait_data.generic_args.len()
            invariant
                i <= trait_data.generic_args@.len(),
                kinds@ == seq![GenericArgType::Type] + trait_data.generic_args@.take(i as int),
            decreases trait_data.generic_args@.len() - i,
        {
            kinds.push(trait_data.generic_args[i]);
            i += 1;
            assert(kinds@ =~= seq![GenericArgType::Type] + trait_data.generic_args@.take(i as int));
        }
        assert(trait_data.generic_args@.take(i as int) =~= trait_data.generic_args@);
        if !seq.has_same_structure_as(kinds.as_slice()) {
            None
        } else {
            Some(seq)
        }
    }

    /// An owned copy of the elements.
    pub fn boxed(&self) -> (r: Vec<PatternElement>)
        ensures
            r@ == self@,
    {
        slice_to_vec(self.elems)
    }

    /// The elements of this sequence.
    pub fn elements(&self) -> (r: &'a [PatternElement])
        ensures
            r@ == self@,
    {
        self.elems
    }

    /// Splits off the first pattern, reading only its root.
    pub fn split_first(&self) -> (r: (Pattern<'a>, Option<PatternSeq<'a>>))
        ensures
            wf_seq(self@),
            r.0@ == self@.take(slot_len(self@)),
            r.1 is None <==> slot_len(self@) == self@.len(),
            r.1 matches Some(tail) ==> tail@ == self@.skip(slot_len(self@)) && wf_seq(tail@),
            wf_pattern(r.0@),
            slots(self@)[0] == r.0@,
            slots(self@).skip(1) == (match r.1 {
                Some(tail) => slots(tail@),
                None => seq![],
            }),
    {
        proof {
            use_type_invariant(self);
            lemma_slots_split(self@);
        }
        let first_len: usize = match self.elems[0] {
            PatternElement::TypeConstructor { args_length, .. } => 1 + args_length,
            PatternElement::TypePlaceholder | PatternElement::InferredType => 1,
        };
        let (head, tail) = self.elems.split_at(first_len);
        let rest = if first_len != self.elems.len() {
            Some(PatternSeq { elems: tail })
        } else {
            None
        };
        (Pattern { elems: head }, rest)
    }

    /// Walks the top-level patterns of this sequence.
    pub fn iter(&self) -> (r: PatternSeqIter<'a>)
        ensures
            r@ == slots(self@),
    {
        PatternSeqIter(Some(*self))
    }

    /// Whether the top-level patterns of this sequence are, one for one, of
    /// the kinds that `kinds` accepts.
    pub fn has_same_structure_as(&self, kinds: &[GenericArgType]) -> (r: bool)
        ensures
            r == same_structure(self@, kinds@),
    {
        let mut cur = *self;
        let mut i: usize = 0;
        assert(kinds@.skip(0) =~= kinds@);
        loop
            invariant
                i <= kinds@.len(),
                same_structure(self@, kinds@) == same_structure(cur@, kinds@.skip(i as int)),
            decreases cur@.len(),
        {
            let (head, tail) = cur.split_first();
            if i >= kinds.len() {
                return false;
            }
            proof {
                assert(kinds@.skip(i as int).skip(1) =~= kinds@.skip(i + 1));
                assert(kinds@.skip(i as int)[0] == kinds@[i as int]);
            }
            if head.kind() != PatternKind::from(kinds[i]) {
                return false;
            }
            i += 1;
            match tail {
                Some(t) => {
                    cur = t;
                },
                None => {
                    assert(same_structure(cur@.skip(slot_len(cur@)), kinds@.skip(i as int)) == (i
                        == kinds@.len()));
                    return i == kinds.len();
                },
            }
        }
    }

    /// Whether each top-level pattern of this sequence matches the one of
    /// `query` in the same place, with as many of them on both sides.
    pub fn matches(&self, query: &ExactPatternSeq) -> (r: bool)
        requires
            no_inferred(self@),
        ensures
            r == seq_matches(self@, query@),
        decreases self@.len(), 1int,
    {
        let mut p = *self;
        let mut q = query.seq;
        proof {
            use_type_invariant(query);
        }
        loop
            invariant
                p@.len() <= self@.len(),
                no_inferred(p@),
                no_inferred(q@),
                seq_matches(self@, query@) == seq_matches(p@, q@),
            decreases p@.len(),
        {
            let (ph, pt) = p.split_first();
            let (qh, qt) = q.split_first();
            proof {
                lemma_no_inferred_subrange(p@, 0, slot_len(p@));
                lemma_no_inferred_subrange(q@, 0, slot_len(q@));
                lemma_no_inferred_subrange(p@, slot_len(p@), p@.len() as int);
                lemma_no_inferred_subrange(q@, slot_len(q@), q@.len() as int);
            }
            let qh = ExactPattern { pat: qh };
            if !ph.matches(&qh) {
                return false;
            }
            match (pt, qt) {
                (Some(a), Some(b)) => {
                    p = a;
                    q = b;
                },
                (None, None) => {
                    return true;
                },
                _ => {
                    return false;
                },
            }
        }
    }
}

impl<'a> PatternSeqIter<'a> {
    /// The next top-level pattern, if any is left.
    pub fn next(&mut self) -> (r: Option<Pattern<'a>>)
        ensures
            old(self)@.len() == 0 ==> r is None && final(self)@.len() == 0,
            old(self)@.len() > 0 ==> (r matches Some(p) && p@ == old(self)@[0] && final(self)@
                == old(self)@.skip(1)),
    {
        match self.0 {
            Some(pat) => {
                let (head, tail) = pat.split_first();
                self.0 = tail;
                Some(head)
            },
            None => None,
        }
    }
}

impl<'a> ExactPatternSeq<'a> {
    #[verifier::type_invariant]
    spec fn inv(self) -> bool {
        no_inferred(self.seq@)
    }

    /// Views `pattern` as an exact sequence without checking it.
    pub fn new_unchecked(pattern: &'a [PatternElement]) -> (r: Self)
        requires
            wf_seq(pattern@),
            no_inferred(pattern@),
        ensures
            r@ == pattern@,
    {
        ExactPatternSeq { seq: PatternSeq { elems: pattern } }
    }

    /// The same sequence as an exact one, or `None` where it holds an
    /// inference marker.
    pub fn new(seq: &PatternSeq<'a>) -> (r: Option<Self>)
        ensures
            r is Some <==> no_inferred(seq@),
            r matches Some(e) ==> e@ == seq@,
    {
        let elems = seq.elems;
        let mut i: usize = 0;
        while i < elems.len()
            invariant
                elems@ == seq@,
                i <= elems@.len(),
                forall|j: int| 0 <= j < i ==> !(#[trigger] elems@[j] is InferredType),
            decreases elems@.len() - i,
        {
            if elems[i].is_inference_var() {
                return None;
            }
            i += 1;
        }
        Some(ExactPatternSeq { seq: *seq })
    }

    /// The same sequence, seen without its exactness.
    pub fn as_seq(&self) -> (r: PatternSeq<'a>)
        ensures
            r@ == self@,
            no_inferred(r@),
    {
        proof {
            use_type_invariant(self);
        }
        self.seq
    }

    /// An owned copy of the elements.
    pub fn boxed(&self) -> (r: Vec<PatternElement>)
        ensures
            r@ == self@,
    {
        self.seq.boxed()
    }

    /// Splits off the first pattern, reading only its root.
    pub fn split_first(&self) -> (r: (ExactPattern<'a>, Option<ExactPatternSeq<'a>>))
        ensures
            wf_seq(self@),
            r.0@ == self@.take(slot_len(self@)),
            r.1 is None <==> slot_len(self@) == self@.len(),
            r.1 matches Some(tail) ==> tail@ == self@.skip(slot_len(self@)) && wf_seq(tail@),
            wf_pattern(r.0@),
            no_inferred(self@),
            slots(self@)[0] == r.0@,
            slots(self@).skip(1) == (match r.1 {
                Some(tail) => slots(tail@),
                None => seq![],
            }),
    {
        proof {
            use_type_invariant(self);
        }
        let (head, tail) = self.seq.split_first();
        proof {
            lemma_no_inferred_subrange(self@, 0, slot_len(self@));
            lemma_no_inferred_subrange(self@, slot_len(self@), self@.len() as int);
        }
        let rest = match tail {
            Some(t) => Some(ExactPatternSeq { seq: t }),
            None => None,
        };
        (ExactPattern { pat: head }, rest)
    }

    /// Walks the top-level patterns of this sequence.
    pub fn iter(&self) -> (r: ExactPatternSeqIter<'a>)
        ensures
            r@ == slots(self@),
    {
        ExactPatternSeqIter(Some(*self))
    }

    /// Whether the two sequences can never denote the same types: some pair
    /// of top-level patterns in the same place is disjoint, or they hold
    /// different numbers of top-level patterns.
    pub fn disjoint_with(&self, other: &Self) -> (r: bool)
        ensures
            r == seq_disjoint(self@, other@),
        decreases self@.len(), 1int,
    {
        let mut a = *self;
        let mut b = *other;
        loop
            invariant
                a@.len() <= self@.len(),
                seq_disjoint(self@, other@) == seq_disjoint(a@, b@),
            decreases a@.len(),
        {
            let (ah, at) = a.split_first();
            let (bh, bt) = b.split_first();
            if ah.disjoint_with(&bh) {
                return true;
            }
            match (at, bt) {
                (Some(x), Some(y)) => {
                    a = x;
                    b = y;
                },
                (None, None) => {
                    return false;
                },
                _ => {
                    return true;
                },
            }
        }
    }
}

impl<'a> ExactPatternSeqIter<'a> {
    /// The next top-level pattern, if any is left.
    pub fn next(&mut self) -> (r: Option<ExactPattern<'a>>)
        ensures
            old(self)@.len() == 0 ==> r is None && final(self)@.len() == 0,
            old(self)@.len() > 0 ==> (r matches Some(p) && p@ == old(self)@[0] && final(self)@
                == old(self)@.skip(1)),
    {
        match self.0 {
            Some(pat) => {
                let (head, tail) = pat.split_first();
                self.0 = tail;
                Some(head)
            },
            None => None,
        }
    }
}

impl<'a> Pattern<'a> {
    #[verifier::type_invariant]
    spec fn inv(self) -> bool {
        wf_pattern(self.elems@)
    }

    /// Views `pattern` as one pattern without checking it against an interner.
    pub fn new_unchecked(pattern: &'a [PatternElement]) -> (r: Self)
        requires
            wf_pattern(pattern@),
        ensures
            r@ == pattern@,
    {
        Pattern { elems: pattern }
    }

    /// Reads one pattern, of whatever kind, from the front of `pattern`; see
    /// `new_type`.
    pub fn new_any(interner: &NaiveInterner, pattern: &'a [PatternElement]) -> (r: Option<
        (Self, &'a [PatternElement]),
    >)
        ensures
            r is Some <==> head_fits(pattern@) && valid_pattern(
                interner@,
                pattern@.take(slot_len(pattern@)),
            ),
            r matches Some((p, rest)) ==> p@ == pattern@.take(slot_len(pattern@)) && rest@
                == pattern@.skip(slot_len(pattern@)),
    {
        match pattern.first() {
            Some(_) => Self::new_type(interner, pattern),
            None => None,
        }
    }

    /// Reads one pattern of kind `kind` from the front of `pattern`; see
    /// `new_type`.
    pub fn new_of_kind(
        interner: &NaiveInterner,
        pattern: &'a [PatternElement],
        kind: PatternKind,
    ) -> (r: Option<(Self, &'a [PatternElement])>)
        ensures
            r is Some <==> head_fits(pattern@) && element_kind(pattern@[0]) == kind
                && valid_pattern(interner@, pattern@.take(slot_len(pattern@))),
            r matches Some((p, rest)) ==> p@ == pattern@.take(slot_len(pattern@)) && rest@
                == pattern@.skip(slot_len(pattern@)),
        decreases pattern@.len(), 1int,
    {
        match kind {
            PatternKind::Type => Self::new_type(interner, pattern),
        }
    }

    /// Reads one type pattern from the front of `pattern` and returns it
    /// with the elements after it. A constructor's arguments must be exactly
    /// its declared parameters, fixed for the built-ins and looked up in
    /// `interner` for an ADT, and fill its `args_length` elements exactly.
    pub fn new_type(interner: &NaiveInterner, pattern: &'a [PatternElement]) -> (r: Option<
        (Self, &'a [PatternElement]),
    >)
        ensures
            r is Some <==> head_fits(pattern@) && valid_pattern(
                interner@,
                pattern@.take(slot_len(pattern@)),
            ),
            r matches Some((p, rest)) ==> p@ == pattern@.take(slot_len(pattern@)) && rest@
                == pattern@.skip(slot_len(pattern@)),
        decreases pattern@.len(), 0int,
    {
        if pattern.len() == 0 {
            return None;
        }
        let pat_len: usize = match pattern[0] {
            PatternElement::TypeConstructor { args_length, type_id } => {
                let generic_args: &[GenericArgType] = match type_id.generic_arg_types() {
                    Ok(args) => args,
                    Err(adt_id) => match interner.get_adt_by_id(adt_id) {
                        Some(data) => data.generic_args.as_slice(),
                        None => {
                            return None;
                        },
                    },
                };
                if args_length >= pattern.len() {
                    return None;
                }
                let ghost whole = pattern@.subrange(1, args_length + 1);
                let ghost ks = generic_args@;
                assert(decl_kinds(interner@, type_id) == Some(ks));
                assert(pattern@.take(args_length + 1).skip(1) =~= whole);
                assert(ks.skip(0) =~= ks);
                let mut args_pat = slice_subrange(pattern, 1, args_length + 1);
                let mut i: usize = 0;
                while i < generic_args.len()
                    invariant
                        ks == generic_args@,
                        i <= ks.len(),
                        head_fits(pattern@),
                        slot_len(pattern@) == args_length + 1,
                        valid_pattern(interner@, pattern@.take(args_length + 1)) == valid_args(
                            interner@,
                            whole,
                            ks,
                        ),
                        args_pat@.len() <= args_length < pattern@.len(),
                        valid_args(interner@, whole, ks) == valid_args(
                            interner@,
                            args_pat@,
                            ks.skip(i as int),
                        ),
                    decreases ks.len() - i,
                {
                    proof {
                        assert(ks.skip(i as int).skip(1) =~= ks.skip(i + 1));
                        assert(ks.skip(i as int)[0] == ks[i as int]);
                    }
                    let kind = PatternKind::from(generic_args[i]);
                    match Self::new_of_kind(interner, args_pat, kind) {
                        Some((_, rest)) => {
                            args_pat = rest;
                        },
                        None => {
                            return None;
                        },
                    }
                    i += 1;
                }
                if args_pat.len() != 0 {
                    return None;
                }
                args_length + 1
            },
            PatternElement::TypePlaceholder | PatternElement::InferredType => 1,
        };
        let (head, rest) = pattern.split_at(pat_len);
        proof {
            lemma_valid_pattern_wf(interner@, head@);
        }
        Some((Pattern { elems: head }, rest))
    }

    /// The same pattern, seen as a sequence of one.
    pub fn as_seq(&self) -> (r: PatternSeq<'a>)
        ensures
            r@ == self@,
            wf_seq(r@),
            slot_len(r@) == r@.len(),
    {
        proof {
            use_type_invariant(self);
            lemma_pattern_is_seq(self@);
        }
        PatternSeq { elems: self.elems }
    }

    /// The elements of this pattern.
    pub fn elements(&self) -> (r: &'a [PatternElement])
        ensures
            r@ == self@,
    {
        self.elems
    }

    /// The kind of this pattern.
    pub fn kind(&self) -> (r: PatternKind)
        ensures
            r == element_kind(self@[0]),
    {
        self.first().kind()
    }

    /// The root of this pattern.
    pub fn first(&self) -> (r: &'a PatternElement)
        ensures
            self@.len() >= 1,
            *r == self@[0],
            wf_pattern(self@),
    {
        proof {
            use_type_invariant(self);
        }
        &self.elems[0]
    }

    /// The arguments of the root constructor, or `None` where it has none.
    pub fn args(&self) -> (r: Option<PatternSeq<'a>>)
        ensures
            r is Some <==> self@.len() > 1,
            r matches Some(args) ==> args@ == self@.skip(1) && wf_seq(args@),
    {
        proof {
            use_type_invariant(self);
        }
        if self.elems.len() != 1 {
            proof {
                if wf_pattern(self@.skip(1)) {
                    lemma_pattern_is_seq(self@.skip(1));
                }
            }
            Some(PatternSeq { elems: slice_subrange(self.elems, 1, self.elems.len()) })
        } else {
            None
        }
    }

    /// Whether the concrete type `query` is an instance of this pattern.
    pub fn matches(&self, query: &ExactPattern) -> (r: bool)
        requires
            no_inferred(self@),
        ensures
            r == pattern_matches(self@, query@),
        decreases self@.len(), 0int,
    {
        proof {
            use_type_invariant(self);
            use_type_invariant(query);
            use_type_invariant(&query.pat);
        }
        match *self.first() {
            PatternElement::TypeConstructor { type_id: first_ty, .. } => match *query.pat.first() {
                PatternElement::TypeConstructor { type_id: second_ty, .. } => {
                    if first_ty != second_ty {
                        return false;
                    }
                    match (self.args(), query.args()) {
                        (Some(args), Some(query_args)) => {
                            proof {
                                lemma_no_inferred_subrange(self@, 1, self@.len() as int);
                            }
                            args.matches(&query_args)
                        },
                        (None, None) => true,
                        _ => false,
                    }
                },
                _ => false,
            },
            PatternElement::TypePlaceholder => true,
            PatternElement::InferredType => {
                assert(self@[0] is InferredType);
                unreached()
            },
        }
    }
}

impl<'a> ExactPattern<'a> {
    #[verifier::type_invariant]
    spec fn inv(self) -> bool {
        no_inferred(self.pat@)
    }

    /// Views `pattern` as exact without checking it.
    pub fn new_unchecked(pattern: &Pattern<'a>) -> (r: Self)
        requires
            no_inferred(pattern@),
        ensures
            r@ == pattern@,
    {
        ExactPattern { pat: *pattern }
    }

    /// The same pattern as an exact one, or `None` where it holds an
    /// inference marker.
    pub fn new(pattern: &Pattern<'a>) -> (r: Option<Self>)
        ensures
            r is Some <==> no_inferred(pattern@),
            r matches Some(e) ==> e@ == pattern@,
    {
        let elems = pattern.elems;
        let mut i: usize = 0;
        while i < elems.len()
            invariant
                elems@ == pattern@,
                i <= elems@.len(),
                forall|j: int| 0 <= j < i ==> !(#[trigger] elems@[j] is InferredType),
            decreases elems@.len() - i,
        {
            if elems[i].is_inference_var() {
                return None;
            }
            i += 1;
        }
        Some(ExactPattern { pat: *pattern })
    }

    /// The same pattern, seen without its exactness.
    pub fn as_pattern(&self) -> (r: Pattern<'a>)
        ensures
            r@ == self@,
            no_inferred(r@),
    {
        proof {
            use_type_invariant(self);
        }
        self.pat
    }

    /// The arguments of the root constructor, or `None` where it has none.
    pub fn args(&self) -> (r: Option<ExactPatternSeq<'a>>)
        ensures
            r is Some <==> self@.len() > 1,
            r matches Some(args) ==> args@ == self@.skip(1) && wf_seq(args@),
    {
        proof {
            use_type_invariant(self);
        }
        match self.pat.args() {
            Some(seq) => {
                proof {
                    lemma_no_inferred_subrange(self@, 1, self@.len() as int);
                }
                Some(ExactPatternSeq { seq })
            },
            None => None,
        }
    }

    /// Whether the two patterns can never denote the same type.
    pub fn disjoint_with(&self, other: &Self) -> (r: bool)
        ensures
            r == pattern_disjoint(self@, other@),
        decreases self@.len(), 0int,
    {
        proof {
            use_type_invariant(self);
            use_type_invariant(other);
        }
        match (*self.pat.first(), *other.pat.first()) {
            (
                PatternElement::TypeConstructor { type_id: self_ty, .. },
                PatternElement::TypeConstructor { type_id: other_ty, .. },
            ) => {
                if self_ty != other_ty {
                    return true;
                }
                match (self.args(), other.args()) {
                    (Some(self_args), Some(other_args)) => self_args.disjoint_with(&other_args),
                    (None, None) => false,
                    _ => true,
                }
            },
            (PatternElement::InferredType, _) => {
                assert(self@[0] is InferredType);
                unreached()
            },
            (_, PatternElement::InferredType) => {
                assert(other@[0] is InferredType);
                unreached()
            },
            _ => false,
        }
    }
}

} // verus!
