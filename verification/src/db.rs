//! What the type layer has to know about the declarations of a program.
//!
//! The types only carry identifiers. The questions about what an identifier
//! stands for (how many type parameters a declaration has, which crate owns
//! it, where an associated type is declared, what the signature of a
//! callable item is) are answered by a [`HirDatabase`], a table that whoever
//! analyses the declarations fills.

use vstd::prelude::*;

use crate::binders::Binders;
use crate::ids::{AssocContainerId, CallableDef, CrateId, GenericDefId, TypeAliasId, TypeParamId};
use crate::ty::{FnSig, TyView};

verus! {

/// The type parameters of a declaration, those of its parent (the trait or
/// impl around it) first.
#[derive(PartialEq, Eq, Debug)]
pub struct Generics {
    pub params: Vec<TypeParamId>,
}

impl View for Generics {
    type V = Seq<TypeParamId>;

    open spec fn view(&self) -> Seq<TypeParamId> {
        self.params@
    }
}

impl Generics {
    /// The number of type parameters.
    pub fn len(&self) -> (n: usize)
        ensures
            n == self@.len(),
    {
        self.params.len()
    }
}

/// What is known of one declaration.
#[derive(PartialEq, Eq, Debug)]
pub struct DefData {
    /// The crate that owns the declaration.
    pub krate: CrateId,
    /// Where the declaration stands: in a module, an impl or a trait.
    pub container: AssocContainerId,
    /// Its type parameters.
    pub generics: Generics,
    /// Its signature, if it can be called. The signature is generic over
    /// the type parameters.
    pub signature: Option<Binders<FnSig>>,
}

/// The model of a [`DefData`].
pub struct DefDataView {
    pub krate: CrateId,
    pub container: AssocContainerId,
    pub generics: Seq<TypeParamId>,
    pub signature: Option<Binders<Seq<TyView>>>,
}

impl View for DefData {
    type V = DefDataView;

    open spec fn view(&self) -> DefDataView {
        DefDataView {
            krate: self.krate,
            container: self.container,
            generics: self.generics@,
            signature: match self.signature {
                Some(sig) => Some(sig@),
                None => None,
            },
        }
    }
}

/// The declarations in `entries` at and after position `from`.
pub open spec fn find_from(
    entries: Seq<(GenericDefId, DefDataView)>,
    def: GenericDefId,
    from: int,
) -> Option<DefDataView>
    decreases entries.len() - from,
{
    if from < 0 || from >= entries.len() {
        None
    } else if entries[from].0 == def {
        Some(entries[from].1)
    } else {
        find_from(entries, def, from + 1)
    }
}

/// The declarations of a program, as far as the types need them.
pub struct HirDatabase {
    defs: Vec<(GenericDefId, DefData)>,
}

impl View for HirDatabase {
    type V = Seq<(GenericDefId, DefDataView)>;

    closed spec fn view(&self) -> Seq<(GenericDefId, DefDataView)> {
        Seq::new(self.defs@.len(), |i: int| (self.defs@[i].0, self.defs@[i].1@))
    }
}

impl HirDatabase {
    /// What the database holds for `def`: the entry that was declared
    /// first for it.
    pub open spec fn lookup(&self, def: GenericDefId) -> Option<DefDataView> {
        find_from(self@, def, 0)
    }

    /// Whether the database holds the declaration `def`.
    pub open spec fn declares(&self, def: GenericDefId) -> bool {
        self.lookup(def) is Some
    }

    /// Whether the database holds a signature for the callable item `def`.
    pub open spec fn has_signature(&self, def: CallableDef) -> bool {
        self.lookup(def.generic_def()) matches Some(data) && data.signature is Some
    }

    /// The signature that the database holds for the callable item `def`.
    pub open spec fn signature(&self, def: CallableDef) -> Binders<Seq<TyView>> {
        self.lookup(def.generic_def())->Some_0.signature->Some_0
    }

    /// A database without declarations.
    pub fn new() -> (db: HirDatabase)
        ensures
            db@ == Seq::<(GenericDefId, DefDataView)>::empty(),
    {
        let db = HirDatabase { defs: Vec::new() };
        assert(db@ =~= Seq::empty());
        db
    }

    /// Adds the declaration `def`. A declaration that the database holds
    /// already stays as it is.
    pub fn declare(&mut self, def: GenericDefId, data: DefData)
        ensures
            final(self)@ == old(self)@.push((def, data@)),
    {
        self.defs.push((def, data));
        assert(self@ =~= old(self)@.push((def, data@)));
    }

    /// What the database holds for `def`.
    pub fn def_data(&self, def: GenericDefId) -> (r: Option<&DefData>)
        ensures
            match r {
                Some(data) => self.lookup(def) == Some(data@),
                None => self.lookup(def) is None,
            },
    {
        let n = self.defs.len();
        let mut i: usize = 0;
        while i < n
            invariant
                n == self.defs@.len(),
                i <= n,
                self.lookup(def) == find_from(self@, def, i as int),
            decreases n - i,
        {
            if self.defs[i].0 == def {
                return Some(&self.defs[i].1);
            }
            i += 1;
        }
        None
    }

    /// The type parameters of the declaration `def`.
    pub fn generic_params(&self, def: GenericDefId) -> (r: &Generics)
        requires
            self.declares(def),
        ensures
            self.lookup(def) matches Some(data) && r@ == data.generics,
    {
        match self.def_data(def) {
            Some(data) => &data.generics,
            None => unreached(),
        }
    }

    /// The crate that owns the declaration `def`.
    pub fn krate(&self, def: GenericDefId) -> (r: CrateId)
        requires
            self.declares(def),
        ensures
            self.lookup(def) matches Some(data) && r == data.krate,
    {
        match self.def_data(def) {
            Some(data) => data.krate,
            None => unreached(),
        }
    }

    /// Where the associated type `def` is declared.
    pub fn container(&self, def: TypeAliasId) -> (r: AssocContainerId)
        requires
            self.declares(GenericDefId::TypeAliasId(def)),
        ensures
            self.lookup(GenericDefId::TypeAliasId(def)) matches Some(data) && r == data.container,
    {
        match self.def_data(GenericDefId::TypeAliasId(def)) {
            Some(data) => data.container,
            None => unreached(),
        }
    }

    /// The signature of the callable item `def`, generic over the item's
    /// type parameters.
    pub fn callable_item_signature(&self, def: CallableDef) -> (r: &Binders<FnSig>)
        requires
            self.has_signature(def),
        ensures
            r@ == self.signature(def),
    {
        match self.def_data(GenericDefId::from(def)) {
            Some(data) => match &data.signature {
                Some(sig) => sig,
                None => unreached(),
            },
            None => unreached(),
        }
    }
}

} // verus!
