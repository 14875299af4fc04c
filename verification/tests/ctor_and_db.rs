use ra_hir_ty::binders::Binders;
use ra_hir_ty::db::{DefData, Generics, HirDatabase};
use ra_hir_ty::ids::{
    AdtId, AssocContainerId, CallableDef, ConstId, CrateId, DefWithBodyId, EnumId, EnumVariantId,
    ExprId, FunctionId, GenericDefId, ModuleId, Mutability, StructId, TraitId, TypeAliasId,
    TypeParamId, UnionId,
};
use ra_hir_ty::primitive::{FloatBitness, FloatTy, IntBitness, IntTy, Signedness, Uncertain};
use ra_hir_ty::ty::{FnSig, Ty, TypeCtor};

fn module(krate: u32) -> AssocContainerId {
    AssocContainerId::ModuleId(ModuleId { krate: CrateId(krate), local_id: 0 })
}

fn generics_of(parent: GenericDefId, n: u32) -> Generics {
    Generics { params: (0..n).map(|local_id| TypeParamId { parent, local_id }).collect() }
}

fn data(def: GenericDefId, krate: u32, params: u32) -> DefData {
    DefData {
        krate: CrateId(krate),
        container: module(krate),
        generics: generics_of(def, params),
        signature: None,
    }
}

const STRUCT: GenericDefId = GenericDefId::AdtId(AdtId::StructId(StructId(1)));
const ENUM: GenericDefId = GenericDefId::AdtId(AdtId::EnumId(EnumId(2)));
const FUNCTION: GenericDefId = GenericDefId::FunctionId(FunctionId(3));
const ALIAS: GenericDefId = GenericDefId::TypeAliasId(TypeAliasId(4));
const VARIANT: EnumVariantId = EnumVariantId { parent: EnumId(2), local_id: 1 };

fn database() -> HirDatabase {
    let mut db = HirDatabase::new();
    db.declare(STRUCT, data(STRUCT, 10, 2));
    db.declare(ENUM, data(ENUM, 11, 1));
    db.declare(FUNCTION, data(FUNCTION, 12, 3));
    db.declare(ALIAS, data(ALIAS, 13, 4));
    db.declare(GenericDefId::EnumVariantId(VARIANT), data(ENUM, 11, 1));
    db
}

#[test]
fn builtin_constructors_take_a_fixed_number_of_arguments() {
    let db = HirDatabase::new();
    let int = TypeCtor::Int(Uncertain::Known(IntTy {
        signedness: Signedness::Unsigned,
        bitness: IntBitness::X8,
    }));
    let float = TypeCtor::Float(Uncertain::Known(FloatTy { bitness: FloatBitness::X64 }));
    for ctor in [
        TypeCtor::Bool,
        TypeCtor::Char,
        int,
        TypeCtor::Int(Uncertain::Unknown),
        float,
        TypeCtor::Str,
        TypeCtor::Never,
    ] {
        assert_eq!(ctor.num_ty_params(&db), 0);
    }
    let closure = TypeCtor::Closure {
        def: DefWithBodyId::FunctionId(FunctionId(0)),
        expr: ExprId(5),
    };
    for ctor in [
        TypeCtor::Slice,
        TypeCtor::Array,
        TypeCtor::RawPtr(Mutability::Mut),
        TypeCtor::Ref(Mutability::Shared),
        closure,
    ] {
        assert_eq!(ctor.num_ty_params(&db), 1);
    }
}

#[test]
fn function_pointers_count_the_return_type() {
    let db = HirDatabase::new();
    assert_eq!(TypeCtor::FnPtr { num_args: 0 }.num_ty_params(&db), 1);
    assert_eq!(TypeCtor::FnPtr { num_args: 2 }.num_ty_params(&db), 3);
    assert_eq!(TypeCtor::FnPtr { num_args: u16::MAX }.num_ty_params(&db), 65536);
}

#[test]
fn tuples_take_one_argument_for_each_field() {
    let db = HirDatabase::new();
    assert_eq!(TypeCtor::Tuple { cardinality: 0 }.num_ty_params(&db), 0);
    assert_eq!(TypeCtor::Tuple { cardinality: 2 }.num_ty_params(&db), 2);
    assert_eq!(TypeCtor::Tuple { cardinality: u16::MAX }.num_ty_params(&db), 65535);
}

#[test]
fn declarations_take_one_argument_for_each_type_parameter() {
    let db = database();
    assert_eq!(TypeCtor::Adt(AdtId::StructId(StructId(1))).num_ty_params(&db), 2);
    assert_eq!(TypeCtor::Adt(AdtId::EnumId(EnumId(2))).num_ty_params(&db), 1);
    assert_eq!(TypeCtor::FnDef(CallableDef::FunctionId(FunctionId(3))).num_ty_params(&db), 3);
    assert_eq!(TypeCtor::FnDef(CallableDef::StructId(StructId(1))).num_ty_params(&db), 2);
    assert_eq!(TypeCtor::FnDef(CallableDef::EnumVariantId(VARIANT)).num_ty_params(&db), 1);
    assert_eq!(TypeCtor::AssociatedType(TypeAliasId(4)).num_ty_params(&db), 4);
}

#[test]
fn only_declarations_have_a_crate() {
    let db = database();
    assert_eq!(TypeCtor::Adt(AdtId::StructId(StructId(1))).krate(&db), Some(CrateId(10)));
    assert_eq!(
        TypeCtor::FnDef(CallableDef::FunctionId(FunctionId(3))).krate(&db),
        Some(CrateId(12))
    );
    assert_eq!(TypeCtor::FnDef(CallableDef::StructId(StructId(1))).krate(&db), Some(CrateId(10)));
    assert_eq!(TypeCtor::AssociatedType(TypeAliasId(4)).krate(&db), Some(CrateId(13)));
    let closure = TypeCtor::Closure {
        def: DefWithBodyId::ConstId(ConstId(0)),
        expr: ExprId(5),
    };
    for ctor in [
        TypeCtor::Bool,
        TypeCtor::Str,
        TypeCtor::Never,
        TypeCtor::Slice,
        TypeCtor::Ref(Mutability::Mut),
        TypeCtor::RawPtr(Mutability::Shared),
        TypeCtor::FnPtr { num_args: 1 },
        TypeCtor::Tuple { cardinality: 3 },
        closure,
    ] {
        assert_eq!(ctor.krate(&db), None);
    }
}

#[test]
fn only_declarations_have_a_generic_definition() {
    assert_eq!(TypeCtor::Adt(AdtId::UnionId(UnionId(8))).as_generic_def(),
        Some(GenericDefId::AdtId(AdtId::UnionId(UnionId(8)))));
    assert_eq!(
        TypeCtor::FnDef(CallableDef::FunctionId(FunctionId(3))).as_generic_def(),
        Some(FUNCTION)
    );
    assert_eq!(TypeCtor::FnDef(CallableDef::StructId(StructId(1))).as_generic_def(), Some(STRUCT));
    assert_eq!(
        TypeCtor::FnDef(CallableDef::EnumVariantId(VARIANT)).as_generic_def(),
        Some(GenericDefId::EnumVariantId(VARIANT))
    );
    assert_eq!(TypeCtor::AssociatedType(TypeAliasId(4)).as_generic_def(), Some(ALIAS));
    assert_eq!(TypeCtor::Bool.as_generic_def(), None);
    assert_eq!(TypeCtor::Tuple { cardinality: 1 }.as_generic_def(), None);
    assert_eq!(TypeCtor::FnPtr { num_args: 1 }.as_generic_def(), None);
    assert_eq!(TypeCtor::Array.as_generic_def(), None);
}

#[test]
fn callable_definitions_turn_into_generic_definitions() {
    assert_eq!(GenericDefId::from(CallableDef::FunctionId(FunctionId(3))), FUNCTION);
    assert_eq!(GenericDefId::from(CallableDef::StructId(StructId(1))), STRUCT);
    assert_eq!(
        GenericDefId::from(CallableDef::EnumVariantId(VARIANT)),
        GenericDefId::EnumVariantId(VARIANT)
    );
}

#[test]
fn database_answers_for_what_was_declared() {
    let db = database();
    assert_eq!(db.generic_params(STRUCT).len(), 2);
    assert_eq!(db.generic_params(STRUCT).params[1], TypeParamId { parent: STRUCT, local_id: 1 });
    assert_eq!(db.krate(ENUM), CrateId(11));
    assert_eq!(db.container(TypeAliasId(4)), module(13));
    assert!(db.def_data(GenericDefId::TraitId(TraitId(0))).is_none());
    assert!(db.def_data(GenericDefId::FunctionId(FunctionId(4))).is_none());
    assert!(HirDatabase::new().def_data(STRUCT).is_none());
}

#[test]
fn database_keeps_the_first_declaration() {
    let mut db = database();
    db.declare(STRUCT, data(STRUCT, 99, 7));
    assert_eq!(db.krate(STRUCT), CrateId(10));
    assert_eq!(db.generic_params(STRUCT).len(), 2);
}

#[test]
fn database_hands_out_signatures() {
    let mut db = HirDatabase::new();
    let sig = FnSig::from_params_and_return(vec![Ty::Bound(0)], Ty::Bound(1));
    let mut function = data(FUNCTION, 1, 2);
    function.signature = Some(Binders::new(2, sig.clone()));
    db.declare(FUNCTION, function);
    let found = db.callable_item_signature(CallableDef::FunctionId(FunctionId(3)));
    assert_eq!(found.num_binders, 2);
    assert_eq!(found.value, sig);
}
