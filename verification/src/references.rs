//! The result of a search for the references to a declaration.

use vstd::prelude::*;

verus! {

/// A source file.
#[derive(Clone, Copy, PartialEq, Eq, Debug, Hash, Structural)]
pub struct FileId(pub u32);

/// A range of text in a file, from the offset `start` up to the offset
/// `end`.
#[derive(Clone, Copy, PartialEq, Eq, Debug, Hash, Structural)]
pub struct TextRange {
    pub start: u32,
    pub end: u32,
}

/// A range of text in a given file.
#[derive(Clone, Copy, PartialEq, Eq, Debug, Hash, Structural)]
pub struct FileRange {
    pub file_id: FileId,
    pub range: TextRange,
}

/// A place to jump to: a declaration with the range of its whole text and,
/// where it has one, the range of its name.
#[derive(Debug, PartialEq, Eq)]
pub struct NavigationTarget {
    pub file_id: FileId,
    pub name: String,
    pub full_range: TextRange,
    pub focus_range: Option<TextRange>,
}

impl NavigationTarget {
    /// The file that the declaration stands in.
    pub fn file_id(&self) -> (r: FileId)
        ensures
            r == self.file_id,
    {
        self.file_id
    }

    /// The range to show: that of the name where there is one, else that of
    /// the whole declaration.
    pub open spec fn spec_range(&self) -> TextRange {
        match self.focus_range {
            Some(range) => range,
            None => self.full_range,
        }
    }

    /// The range to show: that of the name where there is one, else that of
    /// the whole declaration.
    pub fn range(&self) -> (r: TextRange)
        ensures
            r == self.spec_range(),
    {
        match self.focus_range {
            Some(range) => range,
            None => self.full_range,
        }
    }
}

/// Whether a reference builds a value of the struct it names.
#[derive(Debug, Clone, Copy, PartialEq, Eq, Structural)]
pub enum ReferenceKind {
    StructLiteral,
    Other,
}

/// Whether a reference reads what it names or writes to it.
#[derive(Debug, Copy, Clone, PartialEq, Eq, Structural)]
pub enum ReferenceAccess {
    Read,
    Write,
}

/// The declaration that was searched for.
#[derive(Debug)]
pub struct Declaration {
    pub nav: NavigationTarget,
    pub kind: ReferenceKind,
    pub access: Option<ReferenceAccess>,
}

/// One place that refers to the declaration.
#[derive(Debug, Clone, Copy, PartialEq, Eq)]
pub struct Reference {
    pub file_range: FileRange,
    pub kind: ReferenceKind,
    pub access: Option<ReferenceAccess>,
}

impl Declaration {
    /// The declaration seen as a reference to itself.
    pub open spec fn as_reference(&self) -> Reference {
        Reference {
            file_range: FileRange { file_id: self.nav.file_id, range: self.nav.spec_range() },
            kind: self.kind,
            access: self.access,
        }
    }
}

/// A declaration and the references to it that a search has found.
#[derive(Debug)]
pub struct ReferenceSearchResult {
    declaration: Declaration,
    references: Vec<Reference>,
}

impl ReferenceSearchResult {
    #[verifier::type_invariant]
    /// The references can be counted together with the declaration.
    spec fn counts(self) -> bool {
        self.references@.len() < usize::MAX
    }

    /// The declaration of the result.
    pub closed spec fn spec_declaration(&self) -> Declaration {
        self.declaration
    }

    /// The references of the result, in the order in which they were found.
    pub closed spec fn spec_references(&self) -> Seq<Reference> {
        self.references@
    }

    /// The result of a search that found `references` to `declaration`.
    /// None where there are too many to count the declaration with them.
    pub fn new(declaration: Declaration, references: Vec<Reference>) -> (r: Option<
        ReferenceSearchResult,
    >)
        ensures
            match r {
                Some(result) => references@.len() < usize::MAX && result.spec_declaration()
                    == declaration && result.spec_references() == references@,
                None => references@.len() >= usize::MAX,
            },
    {
        if references.len() < usize::MAX {
            Some(ReferenceSearchResult { declaration, references })
        } else {
            None
        }
    }

    /// The declaration that was searched for.
    pub fn declaration(&self) -> (r: &Declaration)
        ensures
            *r == self.spec_declaration(),
    {
        &self.declaration
    }

    /// Where the declaration stands.
    pub fn decl_target(&self) -> (r: &NavigationTarget)
        ensures
            *r == self.spec_declaration().nav,
    {
        &self.declaration.nav
    }

    /// The references that were found, without the declaration.
    pub fn references(&self) -> (r: &[Reference])
        ensures
            r@ == self.spec_references(),
    {
        self.references.as_slice()
    }

    /// Total number of references
    /// At least 1 since all valid references should
    /// Have a declaration
    pub fn len(&self) -> (n: usize)
        ensures
            n == self.spec_references().len() + 1,
    {
        proof {
            use_type_invariant(self);
        }
        self.references.len() + 1
    }

    /// The declaration, seen as a reference to itself, followed by the
    /// references.
    pub fn into_references(self) -> (v: Vec<Reference>)
        ensures
            v@ == seq![self.spec_declaration().as_reference()] + self.spec_references(),
    {
        proof {
            use_type_invariant(&self);
        }
        let mut v: Vec<Reference> = Vec::with_capacity(self.len());
        v.push(
            Reference {
                file_range: FileRange {
                    file_id: self.declaration.nav.file_id(),
                    range: self.declaration.nav.range(),
                },
                kind: self.declaration.kind,
                access: self.declaration.access,
            },
        );
        let mut references = self.references;
        v.append(&mut references);
        v
    }
}

} // verus!
