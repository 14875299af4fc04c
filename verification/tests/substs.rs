use ra_hir_ty::db::{DefData, Generics, HirDatabase};
use ra_hir_ty::ids::{
    AdtId, AssocContainerId, CrateId, GenericDefId, ModuleId, StructId, TraitId, TypeParamId,
};
use ra_hir_ty::ty::{Substs, Ty, TypeCtor};

const TRAIT: GenericDefId = GenericDefId::TraitId(TraitId(6));

fn generics(n: u32) -> Generics {
    Generics { params: (0..n).map(|local_id| TypeParamId { parent: TRAIT, local_id }).collect() }
}

fn param(local_id: u32) -> Ty {
    Ty::Placeholder(TypeParamId { parent: TRAIT, local_id })
}

fn database() -> HirDatabase {
    let mut db = HirDatabase::new();
    let data = DefData {
        krate: CrateId(0),
        container: AssocContainerId::ModuleId(ModuleId { krate: CrateId(0), local_id: 0 }),
        generics: generics(3),
        signature: None,
    };
    db.declare(TRAIT, data);
    let adt = GenericDefId::AdtId(AdtId::StructId(StructId(2)));
    let data = DefData {
        krate: CrateId(0),
        container: AssocContainerId::ModuleId(ModuleId { krate: CrateId(0), local_id: 0 }),
        generics: generics(2),
        signature: None,
    };
    db.declare(adt, data);
    db
}

#[test]
fn empty_and_single() {
    assert_eq!(Substs::empty().len(), 0);
    assert!(Substs::empty().is_empty());
    let one = Substs::single(Ty::Bound(4));
    assert_eq!(&one[..], &[Ty::Bound(4)][..]);
    assert_eq!(*one.as_single(), Ty::Bound(4));
    assert_eq!(*one.at(0), Ty::Bound(4));
}

#[test]
fn prefix_takes_the_first_arguments() {
    let list = Substs::bound_vars(&generics(4));
    assert_eq!(&list.prefix(2)[..], &[Ty::Bound(0), Ty::Bound(1)][..]);
    assert_eq!(list.prefix(0), Substs::empty());
    assert_eq!(list.prefix(4), list);
}

#[test]
fn prefix_of_more_than_there_is_takes_all() {
    let list = Substs::bound_vars(&generics(2));
    assert_eq!(list.prefix(3), list);
    assert_eq!(list.prefix(usize::MAX), list);
    assert_eq!(Substs::empty().prefix(1), Substs::empty());
}

#[test]
fn type_params_stand_for_themselves() {
    let list = Substs::type_params_for_generics(&generics(3));
    assert_eq!(&list[..], &[param(0), param(1), param(2)][..]);
    assert_eq!(Substs::type_params_for_generics(&generics(0)), Substs::empty());
    let db = database();
    assert_eq!(Substs::type_params(&db, TRAIT), list);
}

#[test]
fn bound_vars_count_up_from_zero() {
    assert_eq!(Substs::bound_vars(&generics(0)), Substs::empty());
    assert_eq!(&Substs::bound_vars(&generics(1))[..], &[Ty::Bound(0)][..]);
    let five = Substs::bound_vars(&generics(5));
    assert_eq!(five.len(), 5);
    assert_eq!(five[4], Ty::Bound(4));
}

#[test]
fn builder_builds_what_was_pushed() {
    let list = Substs::build_for_generics(&generics(2)).push(Ty::Unknown).push(Ty::Bound(1)).build();
    assert_eq!(&list[..], &[Ty::Unknown, Ty::Bound(1)][..]);
    assert_eq!(Substs::build_for_generics(&generics(0)).build(), Substs::empty());
}

#[test]
fn builder_for_a_definition_takes_its_number_of_parameters() {
    let db = database();
    let list = Substs::build_for_def(&db, TRAIT).fill_with_unknown().build();
    assert_eq!(&list[..], &[Ty::Unknown, Ty::Unknown, Ty::Unknown][..]);
    let adt = GenericDefId::AdtId(AdtId::StructId(StructId(2)));
    assert_eq!(Substs::build_for_def(&db, adt).fill_with_unknown().build().len(), 2);
}

#[test]
fn builder_for_a_constructor_takes_its_number_of_arguments() {
    let db = database();
    let tuple = TypeCtor::Tuple { cardinality: 3 };
    let list = Substs::build_for_type_ctor(&db, tuple).fill_with_bound_vars(0).build();
    assert_eq!(list.len(), tuple.num_ty_params(&db));
    let adt = TypeCtor::Adt(AdtId::StructId(StructId(2)));
    let list = Substs::build_for_type_ctor(&db, adt).fill_with_unknown().build();
    assert_eq!(list.len(), 2);
    let pointer = TypeCtor::FnPtr { num_args: 1 };
    let list = Substs::build_for_type_ctor(&db, pointer).fill_with_unknown().build();
    assert_eq!(list.len(), 2);
    assert_eq!(Substs::build_for_type_ctor(&db, TypeCtor::Bool).build(), Substs::empty());
}

#[test]
fn fill_with_unknown_fills_what_is_missing() {
    let list = Substs::build_for_generics(&generics(3)).push(Ty::Bound(0)).fill_with_unknown().build();
    assert_eq!(&list[..], &[Ty::Bound(0), Ty::Unknown, Ty::Unknown][..]);
    let full = Substs::build_for_generics(&generics(1)).push(Ty::Bound(0)).fill_with_unknown().build();
    assert_eq!(&full[..], &[Ty::Bound(0)][..]);
}

#[test]
fn fill_with_bound_vars_counts_up_from_the_start() {
    let list = Substs::build_for_generics(&generics(4))
        .push(Ty::Unknown)
        .fill_with_bound_vars(7)
        .build();
    assert_eq!(&list[..], &[Ty::Unknown, Ty::Bound(7), Ty::Bound(8), Ty::Bound(9)][..]);
    let last = Substs::build_for_generics(&generics(1)).fill_with_bound_vars(u32::MAX).build();
    assert_eq!(&last[..], &[Ty::Bound(u32::MAX)][..]);
    let none = Substs::build_for_generics(&generics(0)).fill_with_bound_vars(u32::MAX).build();
    assert_eq!(none, Substs::empty());
}

#[test]
fn fill_takes_no_more_than_is_missing() {
    let filler = vec![Ty::Bound(0), Ty::Bound(1), Ty::Bound(2)];
    let list = Substs::build_for_generics(&generics(3)).push(Ty::Unknown).fill(filler).build();
    assert_eq!(&list[..], &[Ty::Unknown, Ty::Bound(0), Ty::Bound(1)][..]);
    let exact = Substs::build_for_generics(&generics(1)).fill(vec![param(0)]).build();
    assert_eq!(&exact[..], &[param(0)][..]);
    let nothing = Substs::build_for_generics(&generics(0)).fill(vec![param(0)]).build();
    assert_eq!(nothing, Substs::empty());
}

#[test]
fn parent_substs_come_first() {
    let parent = Substs::type_params_for_generics(&generics(2));
    let list = Substs::build_for_generics(&generics(3))
        .use_parent_substs(&parent)
        .push(Ty::Bound(0))
        .build();
    assert_eq!(&list[..], &[param(0), param(1), Ty::Bound(0)][..]);
    let all = Substs::build_for_generics(&generics(2)).use_parent_substs(&parent).build();
    assert_eq!(all, parent);
    let none = Substs::build_for_generics(&generics(1))
        .use_parent_substs(&Substs::empty())
        .fill_with_unknown()
        .build();
    assert_eq!(&none[..], &[Ty::Unknown][..]);
}
