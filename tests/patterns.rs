use impl_pattern::element::{PatternElement, PatternKind};
use impl_pattern::interner::{AdtId, NaiveInterner, TraitId};
use impl_pattern::pattern::{ExactPattern, ExactPatternSeq, Pattern, PatternSeq};
use impl_pattern::primitives::{
    FloatType, GenericArgType, IntType, PtrQual, RefQual, Scalar, TypeId, UIntType,
};

struct Items {
    interner: NaiveInterner,
    a: AdtId,
    b: AdtId,
    clone: TraitId,
    into: TraitId,
}

fn items() -> Items {
    let mut interner = NaiveInterner::new();
    let a = interner.new_adt("A".to_string(), vec![]);
    let b = interner.new_adt("B".to_string(), vec![GenericArgType::Type]);
    let clone = interner.new_trait("Clone".to_string(), vec![]);
    let into = interner.new_trait("Into".to_string(), vec![GenericArgType::Type]);
    Items {
        interner,
        a,
        b,
        clone,
        into,
    }
}

fn ctor(args_length: usize, type_id: TypeId) -> PatternElement {
    PatternElement::TypeConstructor {
        args_length,
        type_id,
    }
}

fn scalar(s: Scalar) -> PatternElement {
    ctor(0, TypeId::Scalar(s))
}

fn i32_ty() -> PatternElement {
    scalar(Scalar::Int(IntType::i32))
}

fn bool_ty() -> PatternElement {
    scalar(Scalar::bool)
}

fn text_of(interner: &NaiveInterner, elems: &[PatternElement]) -> String {
    let seq = PatternSeq::new(interner, elems).expect("valid sequence");
    let mut out = String::new();
    seq.format(interner, &mut out);
    out
}

fn exact<'a>(interner: &NaiveInterner, elems: &'a [PatternElement]) -> ExactPattern<'a> {
    let (pattern, rest) = Pattern::new_any(interner, elems).expect("valid pattern");
    assert!(rest.is_empty());
    ExactPattern::new(&pattern).expect("exact pattern")
}

#[test]
fn end_to_end_trait_impls() {
    let it = items();
    let b_any = [ctor(1, TypeId::Adt(it.b)), PatternElement::TypePlaceholder];
    let a_only = [ctor(0, TypeId::Adt(it.a))];
    let b_infer = [ctor(1, TypeId::Adt(it.b)), PatternElement::InferredType];

    let first = PatternSeq::new_trait_impl(&it.interner, &b_any, it.clone).expect("B<_> as Clone");
    let second = PatternSeq::new_trait_impl(&it.interner, &a_only, it.clone).expect("A as Clone");
    let first_exact = ExactPatternSeq::new(&first).expect("no inference marker");
    let second_exact = ExactPatternSeq::new(&second).expect("no inference marker");
    assert!(first_exact.disjoint_with(&second_exact));
    assert!(second_exact.disjoint_with(&first_exact));

    let third = PatternSeq::new_trait_impl(&it.interner, &b_infer, it.clone);
    assert!(third.is_some());
    assert!(ExactPatternSeq::new(&third.unwrap()).is_none());

    let mut out = String::new();
    second.format_as_trait_impl(&it.interner, it.clone, &mut out);
    assert_eq!(out, "impl A as Clone");
}

#[test]
fn canonical_text_of_builtins_and_adts() {
    let it = items();
    let ref_mut = [ctor(1, TypeId::Ref(Some(RefQual::Mut))), i32_ty()];
    assert_eq!(text_of(&it.interner, &ref_mut), "&mut i32");
    let non_zero = [ctor(1, TypeId::NonZero), scalar(Scalar::UInt(UIntType::u8))];
    assert_eq!(text_of(&it.interner, &non_zero), "NonZero<u8>");
    let slice = [ctor(1, TypeId::Slice), bool_ty()];
    assert_eq!(text_of(&it.interner, &slice), "[bool]");
    let b_of_a = [ctor(1, TypeId::Adt(it.b)), ctor(0, TypeId::Adt(it.a))];
    assert_eq!(text_of(&it.interner, &b_of_a), "B<A>");
}

#[test]
fn canonical_text_of_other_forms() {
    let it = items();
    let ref_drop = [ctor(1, TypeId::Ref(Some(RefQual::Drop))), PatternElement::TypePlaceholder];
    assert_eq!(text_of(&it.interner, &ref_drop), "&drop _");
    let shared = [ctor(1, TypeId::Ref(None)), ctor(0, TypeId::Never)];
    assert_eq!(text_of(&it.interner, &shared), "&!");
    let ptr = [ctor(1, TypeId::Ptr(None)), PatternElement::InferredType];
    assert_eq!(text_of(&it.interner, &ptr), "*?");
    let ptr_mut = [ctor(1, TypeId::Ptr(Some(PtrQual::Mut))), scalar(Scalar::char)];
    assert_eq!(text_of(&it.interner, &ptr_mut), "*mut char");
    let nested = [
        ctor(3, TypeId::Adt(it.b)),
        ctor(2, TypeId::Slice),
        ctor(1, TypeId::Adt(it.b)),
        scalar(Scalar::uchar),
    ];
    assert_eq!(text_of(&it.interner, &nested), "B<[B<uchar>]>");
    let three = [
        ctor(0, TypeId::Adt(it.a)),
        scalar(Scalar::UInt(UIntType::usize)),
        PatternElement::TypePlaceholder,
    ];
    assert_eq!(text_of(&it.interner, &three), "A, usize, _");
}

#[test]
fn scalar_names() {
    let mut out = String::new();
    Scalar::Int(IntType::isize).fmt(&mut out);
    assert_eq!(out, "isize");
    let mut out = String::new();
    Scalar::UInt(UIntType::u64).fmt(&mut out);
    assert_eq!(out, "u64");
    let mut out = String::new();
    Scalar::Float(FloatType::F16).fmt(&mut out);
    assert_eq!(out, ["f", "16"].concat());
    let mut out = String::new();
    Scalar::Float(FloatType::F64).fmt(&mut out);
    assert_eq!(out, ["f", "64"].concat());
    let mut out = String::new();
    Scalar::char.fmt(&mut out);
    assert_eq!(out, "char");
}

#[test]
fn qualifier_text() {
    assert_eq!(RefQual::repr(None), "");
    assert_eq!(RefQual::repr(Some(RefQual::Mut)), "mut ");
    assert_eq!(RefQual::repr(Some(RefQual::Drop)), "drop ");
    assert_eq!(PtrQual::repr(None), "");
    assert_eq!(PtrQual::repr(Some(PtrQual::Mut)), "mut ");
}

#[test]
fn disjoint_when_arguments_differ() {
    let it = items();
    let b_i32 = [ctor(1, TypeId::Adt(it.b)), i32_ty()];
    let b_bool = [ctor(1, TypeId::Adt(it.b)), bool_ty()];
    let b_i32_again = [ctor(1, TypeId::Adt(it.b)), i32_ty()];
    let x = exact(&it.interner, &b_i32);
    let y = exact(&it.interner, &b_bool);
    let z = exact(&it.interner, &b_i32_again);
    assert!(x.disjoint_with(&y));
    assert!(y.disjoint_with(&x));
    assert!(!x.disjoint_with(&z));
    assert!(!(x.as_pattern().matches(&x) && y.as_pattern().matches(&x)));
    assert!(!(x.as_pattern().matches(&y) && y.as_pattern().matches(&y)));
    assert!(x.as_pattern().matches(&z) && z.as_pattern().matches(&z));
}

#[test]
fn placeholders_never_disjoint() {
    let it = items();
    let b_any = [ctor(1, TypeId::Adt(it.b)), PatternElement::TypePlaceholder];
    let b_i32 = [ctor(1, TypeId::Adt(it.b)), i32_ty()];
    let b_any_again = [ctor(1, TypeId::Adt(it.b)), PatternElement::TypePlaceholder];
    let any = [PatternElement::TypePlaceholder];
    let x = exact(&it.interner, &b_any);
    let y = exact(&it.interner, &b_i32);
    let z = exact(&it.interner, &b_any_again);
    let w = exact(&it.interner, &any);
    assert!(!x.disjoint_with(&y));
    assert!(!y.disjoint_with(&x));
    assert!(!x.disjoint_with(&z));
    assert!(!w.disjoint_with(&y));
    assert!(!y.disjoint_with(&w));
}

#[test]
fn different_constructors_are_disjoint() {
    let it = items();
    let a = [ctor(0, TypeId::Adt(it.a))];
    let r = [ctor(1, TypeId::Ref(None)), i32_ty()];
    let r_mut = [ctor(1, TypeId::Ref(Some(RefQual::Mut))), i32_ty()];
    let x = exact(&it.interner, &a);
    let y = exact(&it.interner, &r);
    let z = exact(&it.interner, &r_mut);
    assert!(x.disjoint_with(&y));
    assert!(y.disjoint_with(&z));
    assert!(!y.as_pattern().matches(&z));
}

#[test]
fn exact_patterns_match_themselves() {
    let it = items();
    let samples: Vec<Vec<PatternElement>> = vec![
        vec![i32_ty()],
        vec![ctor(1, TypeId::Adt(it.b)), ctor(0, TypeId::Adt(it.a))],
        vec![ctor(2, TypeId::Ref(Some(RefQual::Mut))), ctor(1, TypeId::Slice), bool_ty()],
        vec![ctor(1, TypeId::Adt(it.b)), PatternElement::TypePlaceholder],
    ];
    for elems in &samples {
        let p = exact(&it.interner, elems);
        assert!(p.as_pattern().matches(&p));
        let seq = PatternSeq::new(&it.interner, elems).unwrap();
        let exact_seq = ExactPatternSeq::new(&seq).unwrap();
        assert!(seq.matches(&exact_seq));
    }
}

#[test]
fn lone_placeholder_matches_everything() {
    let it = items();
    let any_elems = [PatternElement::TypePlaceholder];
    let (any, _) = Pattern::new_any(&it.interner, &any_elems).unwrap();
    let b_a = [ctor(1, TypeId::Adt(it.b)), ctor(0, TypeId::Adt(it.a))];
    let r = [ctor(2, TypeId::Ref(Some(RefQual::Mut))), ctor(1, TypeId::Slice), bool_ty()];
    let int = [i32_ty()];
    let open = [PatternElement::TypePlaceholder];
    for elems in [&b_a[..], &r[..], &int[..], &open[..]] {
        let q = exact(&it.interner, elems);
        assert!(any.matches(&q));
    }
}

#[test]
fn constructor_does_not_match_placeholder_query() {
    let it = items();
    let int = [i32_ty()];
    let open = [PatternElement::TypePlaceholder];
    let (p, _) = Pattern::new_any(&it.interner, &int).unwrap();
    let q = exact(&it.interner, &open);
    assert!(!p.matches(&q));
    let b_i32 = [ctor(1, TypeId::Adt(it.b)), i32_ty()];
    let b_any = [ctor(1, TypeId::Adt(it.b)), PatternElement::TypePlaceholder];
    let (p, _) = Pattern::new_any(&it.interner, &b_any).unwrap();
    let q = exact(&it.interner, &b_i32);
    assert!(p.matches(&q));
    let (p, _) = Pattern::new_any(&it.interner, &b_i32).unwrap();
    let q = exact(&it.interner, &b_any);
    assert!(!p.matches(&q));
}

#[test]
fn patterns_are_not_disjoint_with_themselves() {
    let it = items();
    let samples: Vec<Vec<PatternElement>> = vec![
        vec![ctor(0, TypeId::Never)],
        vec![ctor(1, TypeId::Adt(it.b)), PatternElement::TypePlaceholder],
        vec![ctor(2, TypeId::Ptr(None)), ctor(1, TypeId::NonZero), i32_ty()],
    ];
    for elems in &samples {
        let p = exact(&it.interner, elems);
        assert!(!p.disjoint_with(&p));
        let seq = PatternSeq::new(&it.interner, elems).unwrap();
        let exact_seq = ExactPatternSeq::new(&seq).unwrap();
        assert!(!exact_seq.disjoint_with(&exact_seq));
    }
}

#[test]
fn split_first_visits_every_element_once() {
    let it = items();
    let elems = [
        ctor(0, TypeId::Adt(it.a)),
        ctor(1, TypeId::Adt(it.b)),
        i32_ty(),
        ctor(1, TypeId::Ref(None)),
        PatternElement::TypePlaceholder,
    ];
    let seq = PatternSeq::new(&it.interner, &elems).unwrap();
    let mut joined: Vec<PatternElement> = Vec::new();
    let mut lengths = Vec::new();
    let mut cur = Some(seq);
    while let Some(s) = cur {
        let (head, tail) = s.split_first();
        joined.extend_from_slice(head.elements());
        lengths.push(head.elements().len());
        cur = tail;
    }
    assert_eq!(joined, elems.to_vec());
    assert_eq!(lengths, vec![1, 2, 2]);

    let mut iter = seq.iter();
    let mut count = 0;
    let mut again: Vec<PatternElement> = Vec::new();
    while let Some(p) = iter.next() {
        again.extend_from_slice(p.elements());
        count += 1;
    }
    assert_eq!(count, 3);
    assert_eq!(again, elems.to_vec());
    assert!(iter.next().is_none());

    let exact_seq = ExactPatternSeq::new(&seq).unwrap();
    let mut iter = exact_seq.iter();
    let mut again: Vec<PatternElement> = Vec::new();
    while let Some(p) = iter.next() {
        again.extend_from_slice(p.as_pattern().elements());
    }
    assert_eq!(again, elems.to_vec());
}

#[test]
fn new_rejects_empty_and_truncated() {
    let it = items();
    assert!(PatternSeq::new(&it.interner, &[]).is_none());
    let truncated = [ctor(1, TypeId::Adt(it.b))];
    assert!(PatternSeq::new(&it.interner, &truncated).is_none());
    let trailing = [i32_ty(), ctor(2, TypeId::Ref(None)), i32_ty()];
    assert!(PatternSeq::new(&it.interner, &trailing).is_none());
    assert!(Pattern::new_any(&it.interner, &[]).is_none());
}

#[test]
fn new_rejects_args_length_mismatch() {
    let it = items();
    let slice_too_long = [ctor(2, TypeId::Slice), i32_ty(), bool_ty()];
    assert!(PatternSeq::new(&it.interner, &slice_too_long).is_none());
    let slice_empty = [ctor(0, TypeId::Slice), i32_ty()];
    assert!(PatternSeq::new(&it.interner, &slice_empty).is_none());
    let scalar_with_arg = [
        ctor(1, TypeId::Scalar(Scalar::Int(IntType::i8))),
        i32_ty(),
    ];
    assert!(PatternSeq::new(&it.interner, &scalar_with_arg).is_none());
    let b_two = [ctor(2, TypeId::Adt(it.b)), i32_ty(), bool_ty()];
    assert!(PatternSeq::new(&it.interner, &b_two).is_none());
    let b_none = [ctor(0, TypeId::Adt(it.b)), i32_ty()];
    assert!(PatternSeq::new(&it.interner, &b_none).is_none());
    let a_one = [ctor(1, TypeId::Adt(it.a)), i32_ty()];
    assert!(PatternSeq::new(&it.interner, &a_one).is_none());
    let nested_bad = [ctor(3, TypeId::Adt(it.b)), ctor(2, TypeId::NonZero), i32_ty(), bool_ty()];
    assert!(PatternSeq::new(&it.interner, &nested_bad).is_none());
    let nested_good = [ctor(2, TypeId::Adt(it.b)), ctor(1, TypeId::NonZero), i32_ty(), bool_ty()];
    let seq = PatternSeq::new(&it.interner, &nested_good).unwrap();
    assert_eq!(seq.iter().next().unwrap().elements().len(), 3);
}

#[test]
fn new_rejects_unknown_adt() {
    let it = items();
    let clone_as_adt = AdtId::new(it.clone.0);
    let elems = [ctor(0, TypeId::Adt(clone_as_adt))];
    assert!(PatternSeq::new(&it.interner, &elems).is_none());
    let other = NaiveInterner::new();
    let a = [ctor(0, TypeId::Adt(it.a))];
    assert!(PatternSeq::new(&other, &a).is_none());
}

#[test]
fn new_type_returns_the_rest() {
    let it = items();
    let elems = [ctor(1, TypeId::Adt(it.b)), i32_ty(), bool_ty()];
    let (p, rest) = Pattern::new_type(&it.interner, &elems).unwrap();
    assert_eq!(p.elements(), &elems[..2]);
    assert_eq!(rest, &elems[2..]);
    let (p, rest) = Pattern::new_of_kind(&it.interner, &elems[2..], PatternKind::Type).unwrap();
    assert_eq!(p.elements(), &elems[2..]);
    assert!(rest.is_empty());
    assert_eq!(p.kind(), PatternKind::Type);
    assert_eq!(*p.first(), bool_ty());
}

#[test]
fn trait_impl_structure() {
    let it = items();
    let a_into_i32 = [ctor(0, TypeId::Adt(it.a)), i32_ty()];
    let seq = PatternSeq::new_trait_impl(&it.interner, &a_into_i32, it.into).unwrap();
    let mut out = String::new();
    seq.format_as_trait_impl(&it.interner, it.into, &mut out);
    assert_eq!(out, "impl A as Into<i32>");
    let a_only = [ctor(0, TypeId::Adt(it.a))];
    assert!(PatternSeq::new_trait_impl(&it.interner, &a_only, it.into).is_none());
    assert!(PatternSeq::new_trait_impl(&it.interner, &a_into_i32, it.clone).is_none());
    let bad = [ctor(0, TypeId::Adt(it.b))];
    assert!(PatternSeq::new_trait_impl(&it.interner, &bad, it.clone).is_none());
}

#[test]
fn inherent_impl_text() {
    let it = items();
    let b_of_a = [ctor(1, TypeId::Adt(it.b)), ctor(0, TypeId::Adt(it.a))];
    let seq = PatternSeq::new(&it.interner, &b_of_a).unwrap();
    let mut out = String::new();
    seq.format_as_inherent_impl(&it.interner, &mut out);
    assert_eq!(out, "impl B<A>");
}

#[test]
fn structure_against_kinds() {
    let it = items();
    let elems = [ctor(0, TypeId::Adt(it.a)), ctor(1, TypeId::Slice), i32_ty()];
    let seq = PatternSeq::new(&it.interner, &elems).unwrap();
    assert!(seq.has_same_structure_as(&[GenericArgType::Type, GenericArgType::Type]));
    assert!(!seq.has_same_structure_as(&[GenericArgType::Type]));
    assert!(!seq.has_same_structure_as(&[
        GenericArgType::Type,
        GenericArgType::Type,
        GenericArgType::Type
    ]));
    assert!(!seq.has_same_structure_as(&[]));
}

#[test]
fn args_of_patterns() {
    let it = items();
    let b_i32 = [ctor(1, TypeId::Adt(it.b)), i32_ty()];
    let (p, _) = Pattern::new_any(&it.interner, &b_i32).unwrap();
    assert_eq!(p.args().unwrap().elements(), &b_i32[1..]);
    let e = exact(&it.interner, &b_i32);
    assert_eq!(e.args().unwrap().as_seq().elements(), &b_i32[1..]);
    let int = [i32_ty()];
    let (p, _) = Pattern::new_any(&it.interner, &int).unwrap();
    assert!(p.args().is_none());
    assert_eq!(p.as_seq().elements(), &int[..]);
}

#[test]
fn sequences_of_different_lengths() {
    let it = items();
    let one = [i32_ty()];
    let two = [i32_ty(), bool_ty()];
    let two_open = [PatternElement::TypePlaceholder, PatternElement::TypePlaceholder];
    let s1 = PatternSeq::new(&it.interner, &one).unwrap();
    let s2 = PatternSeq::new(&it.interner, &two).unwrap();
    let s2_open = PatternSeq::new(&it.interner, &two_open).unwrap();
    let e1 = ExactPatternSeq::new(&s1).unwrap();
    let e2 = ExactPatternSeq::new(&s2).unwrap();
    assert!(!s1.matches(&e2));
    assert!(!s2.matches(&e1));
    assert!(s2_open.matches(&e2));
    assert!(e1.disjoint_with(&e2));
    assert!(e2.disjoint_with(&e1));
}

#[test]
fn exactness_checks() {
    let it = items();
    let inferred = [ctor(1, TypeId::Slice), PatternElement::InferredType];
    let (p, _) = Pattern::new_any(&it.interner, &inferred).unwrap();
    assert!(ExactPattern::new(&p).is_none());
    let seq = PatternSeq::new(&it.interner, &inferred).unwrap();
    assert!(ExactPatternSeq::new(&seq).is_none());
    let open = [ctor(1, TypeId::Slice), PatternElement::TypePlaceholder];
    let seq = PatternSeq::new(&it.interner, &open).unwrap();
    let e = ExactPatternSeq::new(&seq).unwrap();
    assert_eq!(e.boxed(), open.to_vec());
    assert_eq!(seq.boxed(), open.to_vec());
    assert_eq!(e.as_seq().elements(), &open[..]);
}

#[test]
fn unchecked_views() {
    let it = items();
    let elems = [ctor(1, TypeId::Adt(it.b)), i32_ty(), bool_ty()];
    let seq = PatternSeq::new_unchecked(&elems);
    assert_eq!(seq.elements(), &elems[..]);
    let exact_seq = ExactPatternSeq::new_unchecked(&elems);
    let (head, tail) = exact_seq.split_first();
    assert_eq!(head.as_pattern().elements(), &elems[..2]);
    assert_eq!(tail.unwrap().as_seq().elements(), &elems[2..]);
    let p = Pattern::new_unchecked(&elems[..2]);
    let e = ExactPattern::new_unchecked(&p);
    assert!(p.matches(&e));
}

#[test]
fn element_queries() {
    let it = items();
    assert!(PatternElement::InferredType.is_inference_var());
    assert!(!PatternElement::TypePlaceholder.is_inference_var());
    assert!(!ctor(0, TypeId::Adt(it.a)).is_inference_var());
    assert_eq!(PatternElement::InferredType.kind(), PatternKind::Type);
    assert_eq!(PatternKind::from(GenericArgType::Type), PatternKind::Type);
}

#[test]
fn builtin_arities() {
    let it = items();
    assert_eq!(TypeId::Slice.generic_arg_types().unwrap(), &[GenericArgType::Type]);
    assert_eq!(TypeId::Ref(None).generic_arg_types().unwrap(), &[GenericArgType::Type]);
    assert!(TypeId::Never.generic_arg_types().unwrap().is_empty());
    assert!(TypeId::Scalar(Scalar::bool).generic_arg_types().unwrap().is_empty());
    assert_eq!(TypeId::Adt(it.b).generic_arg_types(), Err(it.b));
}
