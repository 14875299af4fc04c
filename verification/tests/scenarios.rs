use std::sync::Arc;

use ra_hir_ty::binders::{Binders, Canonical};
use ra_hir_ty::db::Generics;
use ra_hir_ty::ids::{AdtId, GenericDefId, StructId, TraitId, TypeParamId};
use ra_hir_ty::primitive::{IntBitness, IntTy, Signedness, Uncertain};
use ra_hir_ty::ty::{FnSig, GenericPredicate, Substs, TraitRef, Ty, TypeCtor};
use ra_hir_ty::walk::TypeWalk;

fn int32() -> Ty {
    Ty::simple(TypeCtor::Int(Uncertain::Known(IntTy {
        signedness: Signedness::Signed,
        bitness: IntBitness::X32,
    })))
}

fn boolean() -> Ty {
    Ty::simple(TypeCtor::Bool)
}

fn generics(n: u32) -> Generics {
    let parent = GenericDefId::AdtId(AdtId::StructId(StructId(0)));
    Generics { params: (0..n).map(|local_id| TypeParamId { parent, local_id }).collect() }
}

fn substs(tys: Vec<Ty>) -> Substs {
    Substs::build_for_generics(&generics(tys.len() as u32)).fill(tys).build()
}

#[test]
fn tuple_of_two_is_taken_apart() {
    let args = substs(vec![int32(), boolean()]);
    assert_eq!(args.len(), 2);
    let ty = Ty::apply(TypeCtor::Tuple { cardinality: 2 }, args);
    let fields = ty.as_tuple().expect("a tuple");
    assert_eq!(fields.len(), 2);
    assert_eq!(fields[0], int32());
    assert_eq!(fields[1], boolean());
    assert_ne!(fields.len(), 1);
}

#[test]
fn signature_keeps_params_and_return_apart() {
    let sig = FnSig::from_params_and_return(vec![int32(), boolean()], Ty::unit());
    assert_eq!(sig.params(), &[int32(), boolean()][..]);
    assert_eq!(*sig.ret(), Ty::unit());
}

#[test]
fn bound_vars_are_replaced_by_position() {
    let vars = Substs::bound_vars(&generics(3));
    assert_eq!(&vars[..], &[Ty::Bound(0), Ty::Bound(1), Ty::Bound(2)][..]);
    let a = int32();
    let b = boolean();
    let c = Ty::unit();
    let args = substs(vec![a.clone(), b.clone(), c.clone()]);
    let value = Ty::apply(TypeCtor::Tuple { cardinality: 3 }, vars);
    let out = Binders::new(3, value).subst(&args);
    assert_eq!(out, Ty::apply(TypeCtor::Tuple { cardinality: 3 }, substs(vec![a, b, c])));
}

#[test]
fn bound_vars_as_the_value_itself() {
    let vars = Substs::bound_vars(&generics(3));
    let args = substs(vec![int32(), boolean(), Ty::unit()]);
    let out = Binders::new(3, vars).subst(&args);
    assert_eq!(out, args);
}

fn trait_object(inner: Vec<Ty>) -> Ty {
    Ty::Dyn(Arc::new(vec![GenericPredicate::Implemented(TraitRef {
        trait_: TraitId(7),
        substs: substs(inner),
    })]))
}

#[test]
fn substitution_respects_the_binder_of_a_trait_object() {
    let dynamic = trait_object(vec![Ty::Bound(0), Ty::Bound(1), Ty::Bound(2)]);
    let out = dynamic.subst_bound_vars(&Substs::single(int32()));
    assert_eq!(out, trait_object(vec![Ty::Bound(0), int32(), Ty::Bound(1)]));
}

#[test]
fn substitution_at_the_top_counts_from_zero() {
    let value = substs(vec![Ty::Bound(0), Ty::Bound(1), Ty::Bound(2), Ty::Bound(5)]);
    let out = value.subst_bound_vars(&substs(vec![int32(), boolean()]));
    assert_eq!(out, substs(vec![int32(), boolean(), Ty::Bound(0), Ty::Bound(3)]));
}

#[test]
fn substitution_counts_every_trait_object_on_the_way() {
    let inner = trait_object(vec![Ty::Bound(0), Ty::Bound(1), Ty::Bound(2), Ty::Bound(3)]);
    let outer = Ty::Opaque(Arc::new(vec![GenericPredicate::Implemented(TraitRef {
        trait_: TraitId(1),
        substs: substs(vec![Ty::Bound(0), Ty::Bound(1), inner]),
    })]));
    let out = outer.subst_bound_vars(&Substs::single(boolean()));
    let inner_out = trait_object(vec![Ty::Bound(0), Ty::Bound(1), boolean(), Ty::Bound(2)]);
    let expected = Ty::Opaque(Arc::new(vec![GenericPredicate::Implemented(TraitRef {
        trait_: TraitId(1),
        substs: substs(vec![Ty::Bound(0), boolean(), inner_out]),
    })]));
    assert_eq!(out, expected);
}

#[test]
fn substitution_with_no_arguments_changes_nothing() {
    let value = trait_object(vec![Ty::Bound(0), Ty::Bound(4), int32()]);
    let out = value.clone().subst_bound_vars(&Substs::empty());
    assert_eq!(out, value);
}

#[test]
fn full_substitution_of_ground_arguments_leaves_no_bound_variable() {
    let value = Ty::apply(
        TypeCtor::Tuple { cardinality: 2 },
        substs(vec![
            Ty::Bound(1),
            Ty::apply_one(TypeCtor::Slice, Ty::Bound(0)),
        ]),
    );
    let out = Binders::new(2, value).subst(&substs(vec![int32(), boolean()]));
    let mut visited = Vec::new();
    ra_hir_ty::walk::TypeWalk::walk(&out, &mut visited);
    assert_eq!(visited.len(), 4);
    assert!(visited.iter().all(|ty| !matches!(ty, Ty::Bound(_))));
}

#[test]
fn prefix_substitution_renumbers_what_is_left() {
    let value = substs(vec![Ty::Bound(0), Ty::Bound(1), Ty::Bound(2)]);
    let out = Binders::new(3, value).subst_prefix(&Substs::single(int32()));
    assert_eq!(out.num_binders, 2);
    assert_eq!(out.value, substs(vec![int32(), Ty::Bound(0), Ty::Bound(1)]));
}

#[test]
fn binders_and_canonical_values_keep_what_they_are_given() {
    let binders = Binders::new(2, Ty::Bound(1));
    assert_eq!(binders.num_binders, 2);
    assert_eq!(binders.value, Ty::Bound(1));
    assert_eq!(binders, Binders { num_binders: 2, value: Ty::Bound(1) });
    let canonical = Canonical { value: substs(vec![Ty::Bound(0)]), num_vars: 1 };
    assert_eq!(canonical.clone(), canonical);
    assert_eq!(canonical.num_vars, 1);
}

#[test]
fn root_names_reach_the_main_items() {
    let sig: ra_hir_ty::PolyFnSig =
        ra_hir_ty::Binders::new(1, ra_hir_ty::FnSig::from_params_and_return(vec![], Ty::Bound(0)));
    let out = sig.subst(&ra_hir_ty::Substs::single(boolean()));
    assert_eq!(*out.ret(), boolean());
    assert_eq!(ra_hir_ty::TypeCtorId(3), ra_hir_ty::TypeCtorId(3));
}
