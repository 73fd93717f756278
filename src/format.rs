//! Canonical text of patterns and of impl headers.

use vstd::prelude::*;
use vstd::slice::slice_subrange;

use crate::element::PatternElement;
use crate::interner::{trait_kinds, NaiveInterner, TraitId};
use crate::model::{
    decl_kinds, head_fits, inherent_impl_text, lemma_valid_args_wf, pattern_text, same_structure,
    seq_text, slot_len, trait_impl_text, valid_pattern, valid_seq,
};
use crate::pattern::{Pattern, PatternSeq};
use crate::primitives::{GenericArgType, PtrQual, RefQual, TypeId};

verus! {

impl<'a> Pattern<'a> {
    /// Appends the canonical text of this pattern to `f`, with ADT names
    /// taken from `interner`.
    pub fn format(&self, interner: &NaiveInterner, f: &mut String)
        requires
            valid_pattern(interner@, self@),
        ensures
            final(f)@ == old(f)@ + pattern_text(interner@, self@),
        decreases self@.len(), 0int,
    {
        let ghost reg = interner@;
        let ghost f0 = f@;
        let elems = self.elements();
        match *self.first() {
            PatternElement::TypePlaceholder => f.append("_"),
            PatternElement::InferredType => f.append("?"),
            PatternElement::TypeConstructor { args_length, type_id } => {
                proof {
                    lemma_valid_args_wf(reg, self@.skip(1), decl_kinds(reg, type_id)->Some_0);
                }
                match type_id {
                    TypeId::Scalar(ty) => ty.fmt(f),
                    TypeId::Never => f.append("!"),
                    TypeId::NonZero => {
                        let arg = Pattern::new_unchecked(slice_subrange(elems, 1, elems.len()));
                        f.append("NonZero<");
                        arg.format(interner, f);
                        f.append(">");
                        assert(f@ =~= f0 + pattern_text(reg, self@));
                    },
                    TypeId::Slice => {
                        let arg = Pattern::new_unchecked(slice_subrange(elems, 1, elems.len()));
                        f.append("[");
                        arg.format(interner, f);
                        f.append("]");
                        assert(f@ =~= f0 + pattern_text(reg, self@));
                    },
                    TypeId::Ref(qual) => {
                        let arg = Pattern::new_unchecked(slice_subrange(elems, 1, elems.len()));
                        f.append("&");
                        f.append(RefQual::repr(qual));
                        arg.format(interner, f);
                        assert(f@ =~= f0 + pattern_text(reg, self@));
                    },
                    TypeId::Ptr(qual) => {
                        let arg = Pattern::new_unchecked(slice_subrange(elems, 1, elems.len()));
                        f.append("*");
                        f.append(PtrQual::repr(qual));
                        arg.format(interner, f);
                        assert(f@ =~= f0 + pattern_text(reg, self@));
                    },
                    TypeId::Adt(adt_id) => {
                        let data = interner.get_adt(adt_id);
                        f.append(data.name.as_str());
                        if args_length != 0 {
                            let args = PatternSeq::new_unchecked(
                                slice_subrange(elems, 1, elems.len()),
                            );
                            f.append("<");
                            args.format(interner, f);
                            f.append(">");
                        }
                        assert(f@ =~= f0 + pattern_text(reg, self@));
                    },
                }
            },
        }
    }
}

impl<'a> PatternSeq<'a> {
    /// Appends the canonical text of this sequence to `f`: its top-level
    /// patterns joined by `", "`.
    pub fn format(&self, interner: &NaiveInterner, f: &mut String)
        requires
            valid_seq(interner@, self@),
        ensures
            final(f)@ == old(f)@ + seq_text(interner@, self@),
        decreases self@.len(), 1int,
    {
        let ghost reg = interner@;
        let ghost f0 = f@;
        let mut cur = *self;
        loop
            invariant
                reg == interner@,
                f0 == old(f)@,
                valid_seq(reg, cur@),
                cur@.len() <= self@.len(),
                f@ + seq_text(reg, cur@) == f0 + seq_text(reg, self@),
            decreases cur@.len(),
        {
            let (head, tail) = cur.split_first();
            let ghost before = f@;
            head.format(interner, f);
            match tail {
                Some(t) => {
                    f.append(", ");
                    assert(before + seq_text(reg, cur@) =~= f@ + seq_text(reg, t@));
                    cur = t;
                },
                None => {
                    assert(before + seq_text(reg, cur@) =~= f@);
                    return ;
                },
            }
        }
    }

    /// Appends the header of an inherent impl for the single pattern of this
    /// sequence to `f`.
    pub fn format_as_inherent_impl(&self, interner: &NaiveInterner, f: &mut String)
        requires
            valid_seq(interner@, self@),
            slot_len(self@) == self@.len(),
        ensures
            final(f)@ == old(f)@ + inherent_impl_text(interner@, self@),
    {
        let ghost f0 = f@;
        f.append("impl ");
        let (implementor, _) = self.split_first();
        assert(self@.take(self@.len() as int) =~= self@);
        implementor.format(interner, f);
        assert(f@ =~= f0 + inherent_impl_text(interner@, self@));
    }

    /// Appends the header of an impl of the trait `trait_id` to `f`: the
    /// first top-level pattern is the implementor, the others the trait's
    /// arguments.
    pub fn format_as_trait_impl(&self, interner: &NaiveInterner, trait_id: TraitId, f: &mut String)
        requires
            valid_seq(interner@, self@),
            trait_kinds(interner@, trait_id) is Some,
            same_structure(
                self@,
                seq![GenericArgType::Type] + trait_kinds(interner@, trait_id)->Some_0,
            ),
        ensures
            final(f)@ == old(f)@ + trait_impl_text(interner@, self@, trait_id),
    {
        let ghost reg = interner@;
        let ghost f0 = f@;
        let ghost ks = trait_kinds(reg, trait_id)->Some_0;
        assert((seq![GenericArgType::Type] + ks).skip(1) =~= ks);
        assert((seq![GenericArgType::Type] + ks)[0] == GenericArgType::Type);
        f.append("impl ");
        let (implementor, trait_args) = self.split_first();
        proof {
            assert(same_structure(self@.skip(slot_len(self@)), ks));
            if ks.len() > 0 {
                assert(head_fits(self@.skip(slot_len(self@))));
            }
        }
        implementor.format(interner, f);
        f.append(" as ");
        let trait_data = interner.get_trait(trait_id);
        f.append(trait_data.name.as_str());
        if trait_data.generic_args.len() != 0 {
            match trait_args {
                Some(args) => {
                    f.append("<");
                    args.format(interner, f);
                    f.append(">");
                },
                None => {
                    assert(self@.skip(slot_len(self@)).len() == 0);
                    unreached()
                },
            }
        }
        assert(f@ =~= f0 + trait_impl_text(reg, self@, trait_id));
    }
}

} // verus!
