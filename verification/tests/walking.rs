use std::sync::Arc;

use ra_hir_ty::db::Generics;
use ra_hir_ty::ids::{AdtId, GenericDefId, Mutability, StructId, TraitId, TypeAliasId, TypeParamId};
use ra_hir_ty::ty::{
    FnSig, GenericPredicate, InferTy, ProjectionPredicate, ProjectionTy, Substs, TraitRef, Ty,
    TypeCtor, TypeVarId,
};
use ra_hir_ty::walk::TypeWalk;

fn generics(n: u32) -> Generics {
    let parent = GenericDefId::AdtId(AdtId::StructId(StructId(0)));
    Generics { params: (0..n).map(|local_id| TypeParamId { parent, local_id }).collect() }
}

fn substs(tys: Vec<Ty>) -> Substs {
    Substs::build_for_generics(&generics(tys.len() as u32)).fill(tys).build()
}

fn slice_of(ty: Ty) -> Ty {
    Ty::apply_one(TypeCtor::Slice, ty)
}

fn param(local_id: u32) -> Ty {
    Ty::Placeholder(TypeParamId {
        parent: GenericDefId::AdtId(AdtId::StructId(StructId(0))),
        local_id,
    })
}

fn nodes<T: TypeWalk>(value: &T) -> Vec<Ty> {
    let mut visited = Vec::new();
    value.walk(&mut visited);
    visited.into_iter().cloned().collect()
}

#[test]
fn walk_visits_the_inside_of_a_node_first() {
    let inner = slice_of(Ty::Bound(0));
    let ty = Ty::apply(TypeCtor::Tuple { cardinality: 2 }, substs(vec![inner.clone(), Ty::Unknown]));
    assert_eq!(nodes(&ty), vec![Ty::Bound(0), inner, Ty::Unknown, ty.clone()]);
}

#[test]
fn walk_of_a_leaf_visits_the_leaf() {
    assert_eq!(nodes(&Ty::Unknown), vec![Ty::Unknown]);
    assert_eq!(nodes(&Ty::Bound(3)), vec![Ty::Bound(3)]);
    let var = Ty::Infer(InferTy::IntVar(TypeVarId(2)));
    assert_eq!(nodes(&var), vec![var.clone()]);
    assert_eq!(nodes(&param(1)), vec![param(1)]);
}

#[test]
fn walk_appends_to_what_was_visited_before() {
    let first = Ty::Bound(9);
    let ty = slice_of(Ty::Unknown);
    let mut visited = vec![&first];
    ty.walk(&mut visited);
    assert_eq!(visited, vec![&Ty::Bound(9), &Ty::Unknown, &ty]);
}

#[test]
fn walk_goes_through_the_predicates_of_a_trait_object() {
    let projection = GenericPredicate::Projection(ProjectionPredicate {
        projection_ty: ProjectionTy { associated_ty: TypeAliasId(3), parameters: substs(vec![Ty::Bound(0)]) },
        ty: slice_of(param(0)),
    });
    let implemented = GenericPredicate::Implemented(TraitRef {
        trait_: TraitId(1),
        substs: substs(vec![Ty::Bound(0), param(1)]),
    });
    let ty = Ty::Dyn(Arc::new(vec![implemented, GenericPredicate::Error, projection]));
    assert_eq!(
        nodes(&ty),
        vec![Ty::Bound(0), param(1), Ty::Bound(0), param(0), slice_of(param(0)), ty.clone()]
    );
}

#[test]
fn walk_of_the_other_values_goes_through_their_types() {
    let list = substs(vec![Ty::Bound(0), slice_of(Ty::Bound(1))]);
    let expected = vec![Ty::Bound(0), Ty::Bound(1), slice_of(Ty::Bound(1))];
    assert_eq!(nodes(&list), expected);
    assert_eq!(nodes(&TraitRef { trait_: TraitId(0), substs: list.clone() }), expected);
    assert_eq!(
        nodes(&ProjectionTy { associated_ty: TypeAliasId(0), parameters: list.clone() }),
        expected
    );
    assert_eq!(nodes(&FnSig::from_fn_ptr_substs(&list)), expected);
    assert_eq!(nodes(&GenericPredicate::Error), Vec::<Ty>::new());
    assert_eq!(nodes(&Substs::empty()), Vec::<Ty>::new());
}

#[test]
fn walk_mut_binders_counts_trait_objects_and_opaque_types() {
    let inner = Ty::Opaque(Arc::new(vec![GenericPredicate::Implemented(TraitRef {
        trait_: TraitId(2),
        substs: substs(vec![Ty::Unknown]),
    })]));
    let mut ty = Ty::Dyn(Arc::new(vec![GenericPredicate::Implemented(TraitRef {
        trait_: TraitId(1),
        substs: substs(vec![Ty::Unknown, inner]),
    })]));
    // Marks each unknown type with the depth at which it was found.
    ty.walk_mut_binders(
        &|node: Ty, binders: usize| match node {
            Ty::Unknown => Ty::Bound(binders as u32),
            other => other,
        },
        5,
    );
    let inner = Ty::Opaque(Arc::new(vec![GenericPredicate::Implemented(TraitRef {
        trait_: TraitId(2),
        substs: substs(vec![Ty::Bound(7)]),
    })]));
    let expected = Ty::Dyn(Arc::new(vec![GenericPredicate::Implemented(TraitRef {
        trait_: TraitId(1),
        substs: substs(vec![Ty::Bound(6), inner]),
    })]));
    assert_eq!(ty, expected);
}

#[test]
fn walk_mut_binders_hands_over_nodes_whose_inside_is_rewritten() {
    let mut ty = slice_of(slice_of(Ty::Unknown));
    // Unwraps a slice of a bound variable, and turns the unknown type into one.
    ty.walk_mut_binders(
        &|node: Ty, _binders: usize| match node {
            Ty::Unknown => Ty::Bound(0),
            Ty::Apply(a) if a.parameters.len() == 1 && a.parameters[0] == Ty::Bound(0) => {
                Ty::Bound(0)
            }
            other => other,
        },
        0,
    );
    assert_eq!(ty, Ty::Bound(0));
}

#[test]
fn walk_mut_rewrites_every_value_in_place() {
    let mut reference = TraitRef { trait_: TraitId(4), substs: substs(vec![Ty::Unknown, Ty::Bound(0)]) };
    reference.walk_mut(&|node: Ty| match node {
        Ty::Unknown => param(0),
        other => other,
    });
    assert_eq!(reference, TraitRef { trait_: TraitId(4), substs: substs(vec![param(0), Ty::Bound(0)]) });
}

#[test]
fn fold_replaces_inference_variables() {
    let var = Ty::Infer(InferTy::TypeVar(TypeVarId(0)));
    let ty = Ty::apply_one(TypeCtor::Ref(Mutability::Shared), slice_of(var));
    let out = ty.fold(&|node: Ty| match node {
        Ty::Infer(_) => Ty::simple(TypeCtor::Bool),
        other => other,
    });
    assert_eq!(
        out,
        Ty::apply_one(TypeCtor::Ref(Mutability::Shared), slice_of(Ty::simple(TypeCtor::Bool)))
    );
}

#[test]
fn fold_of_a_projection_predicate_rewrites_parameters_and_type() {
    let predicate = GenericPredicate::Projection(ProjectionPredicate {
        projection_ty: ProjectionTy { associated_ty: TypeAliasId(3), parameters: substs(vec![Ty::Unknown]) },
        ty: slice_of(Ty::Unknown),
    });
    let out = predicate.fold(&|node: Ty| match node {
        Ty::Unknown => Ty::Bound(0),
        other => other,
    });
    let expected = GenericPredicate::Projection(ProjectionPredicate {
        projection_ty: ProjectionTy { associated_ty: TypeAliasId(3), parameters: substs(vec![Ty::Bound(0)]) },
        ty: slice_of(Ty::Bound(0)),
    });
    assert_eq!(out, expected);
    assert_eq!(GenericPredicate::Error.fold(&|node: Ty| node), GenericPredicate::Error);
}

#[test]
fn shift_adds_to_every_bound_variable() {
    let ty = Ty::Dyn(Arc::new(vec![GenericPredicate::Implemented(TraitRef {
        trait_: TraitId(1),
        substs: substs(vec![Ty::Bound(0), slice_of(Ty::Bound(4)), Ty::Unknown]),
    })]));
    let expected = Ty::Dyn(Arc::new(vec![GenericPredicate::Implemented(TraitRef {
        trait_: TraitId(1),
        substs: substs(vec![Ty::Bound(2), slice_of(Ty::Bound(6)), Ty::Unknown]),
    })]));
    assert_eq!(ty.shift_bound_vars(2), expected);
}

#[test]
fn shift_down_subtracts() {
    let list = substs(vec![Ty::Bound(3), Ty::Bound(1)]);
    assert_eq!(list.shift_bound_vars(-1), substs(vec![Ty::Bound(2), Ty::Bound(0)]));
}

#[test]
fn shift_up_to_the_largest_index() {
    let out = Ty::Bound(u32::MAX - 1).shift_bound_vars(1);
    assert_eq!(out, Ty::Bound(u32::MAX));
    let out = Ty::Bound(u32::MAX).shift_bound_vars(-(i32::MAX));
    assert_eq!(out, Ty::Bound(u32::MAX - i32::MAX as u32));
}

#[test]
fn shift_there_and_back_is_the_identity() {
    let sig = FnSig::from_params_and_return(
        vec![Ty::Bound(0), slice_of(Ty::Bound(7))],
        Ty::Bound(2),
    );
    let there = sig.clone().shift_bound_vars(5);
    assert_eq!(
        there,
        FnSig::from_params_and_return(vec![Ty::Bound(5), slice_of(Ty::Bound(12))], Ty::Bound(7))
    );
    assert_eq!(there.shift_bound_vars(-5), sig);
    let list = substs(vec![Ty::Bound(4), Ty::Bound(9)]);
    assert_eq!(list.clone().shift_bound_vars(-4).shift_bound_vars(4), list);
}
