//! The packages of a project and the folders that they live in.

use std::path::PathBuf;
use vstd::prelude::*;

verus! {

/// The owned path of std, `std::path::PathBuf`. A path is carried through
/// as it is: nothing is claimed of what it holds.
#[verifier::external_type_specification]
#[verifier::external_body]
pub struct ExPathBuf(PathBuf);

/// `<PathBuf as Clone>::clone` of std: the copy is equal to the path it was
/// made from.
pub assume_specification[ <PathBuf as Clone>::clone ](path: &PathBuf) -> (r: PathBuf)
    ensures
        r == *path,
;

/// The `Cargo.toml` that was looked for at or above a path, in vain.
#[derive(Clone, PartialEq, Eq, Hash, Debug)]
pub struct CargoTomlNotFoundError(pub PathBuf);

/// `PackageRoot` describes a package root folder.
/// Which may be an external dependency, or a member of
/// the current workspace.
pub struct PackageRoot {
    /// Path to the root folder
    path: PathBuf,
    /// Is a member of the current workspace
    is_member: bool,
}

impl PackageRoot {
    /// The path to the root folder.
    pub closed spec fn spec_path(&self) -> PathBuf {
        self.path
    }

    /// Whether the folder is a member of the current workspace.
    pub closed spec fn spec_is_member(&self) -> bool {
        self.is_member
    }

    /// The package root folder at `path`.
    pub fn new(path: PathBuf, is_member: bool) -> (r: PackageRoot)
        ensures
            r.spec_path() == path,
            r.spec_is_member() == is_member,
    {
        PackageRoot { path, is_member }
    }

    /// Path to the root folder
    pub fn path(&self) -> (r: &PathBuf)
        ensures
            *r == self.spec_path(),
    {
        &self.path
    }

    /// Is a member of the current workspace
    pub fn is_member(&self) -> (r: bool)
        ensures
            r == self.spec_is_member(),
    {
        self.is_member
    }
}

/// A package that cargo knows of: a member of the workspace or one of the
/// packages that the members depend on.
#[derive(Debug, Clone)]
pub struct PackageData {
    /// The folder that holds the `Cargo.toml` of the package.
    pub root: PathBuf,
    /// Is a member of the current workspace
    pub is_member: bool,
}

/// What `cargo metadata` tells of a workspace.
#[derive(Debug, Clone)]
pub struct CargoWorkspace {
    pub packages: Vec<PackageData>,
    pub workspace_root: PathBuf,
}

/// A crate of the standard library that ships with the toolchain.
#[derive(Debug, Clone)]
pub struct SysrootCrateData {
    /// The folder of the crate.
    pub root_dir: PathBuf,
}

/// The crates of the standard library that ship with the toolchain.
#[derive(Debug, Clone)]
pub struct Sysroot {
    pub crates: Vec<SysrootCrateData>,
}

/// A folder of source files named in a `rust-project.json` file.
#[derive(Debug, Clone)]
pub struct JsonRoot {
    pub path: PathBuf,
}

/// A crate named in a `rust-project.json` file.
#[derive(Debug, Clone)]
pub struct JsonCrate {
    pub root_module: PathBuf,
}

/// A project that a `rust-project.json` file spells out.
#[derive(Debug, Clone)]
pub struct JsonProject {
    pub roots: Vec<JsonRoot>,
    pub crates: Vec<JsonCrate>,
}

/// The packages that make up a project, by the way they were found.
#[derive(Debug, Clone)]
pub enum ProjectWorkspace {
    /// Project workspace was discovered by running `cargo metadata` and `rustc --print sysroot`.
    Cargo { cargo: CargoWorkspace, sysroot: Sysroot },
    /// Project workspace was manually specified using a `rust-project.json` file.
    Json { project: JsonProject },
}

impl ProjectWorkspace {
    /// The number of folders that [`ProjectWorkspace::to_roots`] lists.
    pub open spec fn n_roots(&self) -> nat {
        match self {
            ProjectWorkspace::Json { project } => project.roots@.len(),
            ProjectWorkspace::Cargo { cargo, sysroot } => cargo.packages@.len()
                + sysroot.crates@.len(),
        }
    }

    /// The path of the folder at position `i` of those that
    /// [`ProjectWorkspace::to_roots`] lists: the roots of a project that is
    /// spelled out; else the packages, then the crates of the standard
    /// library.
    pub open spec fn root_path(&self, i: int) -> PathBuf {
        match self {
            ProjectWorkspace::Json { project } => project.roots@[i].path,
            ProjectWorkspace::Cargo { cargo, sysroot } => if i < cargo.packages@.len() {
                cargo.packages@[i].root
            } else {
                sysroot.crates@[i - cargo.packages@.len()].root_dir
            },
        }
    }

    /// Whether the folder at position `i` is a member of the workspace:
    /// every root of a project that is spelled out, the packages that cargo
    /// calls members, and no crate of the standard library.
    pub open spec fn root_is_member(&self, i: int) -> bool {
        match self {
            ProjectWorkspace::Json { project } => true,
            ProjectWorkspace::Cargo { cargo, sysroot } => i < cargo.packages@.len()
                && cargo.packages@[i].is_member,
        }
    }

    /// Returns the roots for the current `ProjectWorkspace`
    /// The return type contains the path and whether or not
    /// the root is a member of the current workspace
    pub fn to_roots(&self) -> (roots: Vec<PackageRoot>)
        ensures
            roots@.len() == self.n_roots(),
            forall|i: int|
                0 <= i < roots@.len() ==> (#[trigger] roots@[i]).spec_path() == self.root_path(i)
                    && roots@[i].spec_is_member() == self.root_is_member(i),
    {
        match self {
            ProjectWorkspace::Json { project } => {
                let mut roots: Vec<PackageRoot> = Vec::new();
                let mut i: usize = 0;
                while i < project.roots.len()
                    invariant
                        i <= project.roots@.len(),
                        roots@.len() == i,
                        *self == (ProjectWorkspace::Json { project: *project }),
                        forall|j: int|
                            0 <= j < i ==> (#[trigger] roots@[j]).spec_path() == self.root_path(j)
                                && roots@[j].spec_is_member(),
                    decreases project.roots@.len() - i,
                {
                    roots.push(PackageRoot::new(project.roots[i].path.clone(), true));
                    i += 1;
                }
                roots
            },
            ProjectWorkspace::Cargo { cargo, sysroot } => {
                let mut roots: Vec<PackageRoot> = Vec::new();
                let mut i: usize = 0;
                while i < cargo.packages.len()
                    invariant
                        i <= cargo.packages@.len(),
                        roots@.len() == i,
                        *self == (ProjectWorkspace::Cargo { cargo: *cargo, sysroot: *sysroot }),
                        forall|j: int|
                            0 <= j < i ==> (#[trigger] roots@[j]).spec_path() == self.root_path(j)
                                && roots@[j].spec_is_member() == self.root_is_member(j),
                    decreases cargo.packages@.len() - i,
                {
                    let pkg = &cargo.packages[i];
                    let root = pkg.root.clone();
                    let member = pkg.is_member;
                    roots.push(PackageRoot::new(root, member));
                    i += 1;
                }
                let mut k: usize = 0;
                while k < sysroot.crates.len()
                    invariant
                        k <= sysroot.crates@.len(),
                        roots@.len() == cargo.packages@.len() + k,
                        *self == (ProjectWorkspace::Cargo { cargo: *cargo, sysroot: *sysroot }),
                        forall|j: int|
                            0 <= j < roots@.len() ==> (#[trigger] roots@[j]).spec_path()
                                == self.root_path(j) && roots@[j].spec_is_member()
                                == self.root_is_member(j),
                    decreases sysroot.crates@.len() - k,
                {
                    let krate = &sysroot.crates[k];
                    roots.push(PackageRoot::new(krate.root_dir.clone(), false));
                    k += 1;
                }
                roots
            },
        }
    }

    /// The number of crates of a project that is spelled out; else the
    /// number of packages and crates of the standard library, which has to
    /// be one that can be counted.
    pub fn n_packages(&self) -> (n: usize)
        requires
            self matches ProjectWorkspace::Cargo { cargo, sysroot } ==> cargo.packages@.len()
                + sysroot.crates@.len() <= usize::MAX,
        ensures
            n == match self {
                ProjectWorkspace::Json { project } => project.crates@.len(),
                ProjectWorkspace::Cargo { cargo, sysroot } => cargo.packages@.len()
                    + sysroot.crates@.len(),
            },
    {
        match self {
            ProjectWorkspace::Json { project } => project.crates.len(),
            ProjectWorkspace::Cargo { cargo, sysroot } => {
                cargo.packages.len() + sysroot.crates.len()
            },
        }
    }
}

} // verus!
