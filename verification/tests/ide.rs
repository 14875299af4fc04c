use std::path::PathBuf;

use ra_hir_ty::project_model::{
    CargoTomlNotFoundError, CargoWorkspace, JsonCrate, JsonProject, JsonRoot, PackageData,
    PackageRoot, ProjectWorkspace, Sysroot, SysrootCrateData,
};
use ra_hir_ty::references::{
    Declaration, FileId, FileRange, NavigationTarget, Reference, ReferenceAccess, ReferenceKind,
    ReferenceSearchResult, TextRange,
};
use ra_hir_ty::runnables::{RunnableKind, TestId};

fn target(focus_range: Option<TextRange>) -> NavigationTarget {
    NavigationTarget {
        file_id: FileId(1),
        name: "Foo".to_string(),
        full_range: TextRange { start: 5, end: 39 },
        focus_range,
    }
}

fn reference(start: u32, kind: ReferenceKind, access: Option<ReferenceAccess>) -> Reference {
    Reference {
        file_range: FileRange { file_id: FileId(2), range: TextRange { start, end: start + 3 } },
        kind,
        access,
    }
}

fn result(references: Vec<Reference>) -> ReferenceSearchResult {
    let declaration = Declaration {
        nav: target(Some(TextRange { start: 12, end: 15 })),
        kind: ReferenceKind::Other,
        access: Some(ReferenceAccess::Write),
    };
    ReferenceSearchResult::new(declaration, references).expect("few enough references")
}

#[test]
fn navigation_target_shows_the_name_where_there_is_one() {
    let range = TextRange { start: 12, end: 15 };
    assert_eq!(target(Some(range)).range(), range);
    assert_eq!(target(None).range(), TextRange { start: 5, end: 39 });
    assert_eq!(target(None).file_id(), FileId(1));
}

#[test]
fn search_result_counts_the_declaration() {
    assert_eq!(result(vec![]).len(), 1);
    let two = result(vec![
        reference(138, ReferenceKind::StructLiteral, None),
        reference(54, ReferenceKind::Other, Some(ReferenceAccess::Read)),
    ]);
    assert_eq!(two.len(), 3);
    assert_eq!(two.references().len(), 2);
    assert_eq!(two.references()[0], reference(138, ReferenceKind::StructLiteral, None));
    assert_eq!(two.declaration().kind, ReferenceKind::Other);
    assert_eq!(two.declaration().access, Some(ReferenceAccess::Write));
    assert_eq!(*two.decl_target(), target(Some(TextRange { start: 12, end: 15 })));
}

#[test]
fn search_result_lists_the_declaration_first() {
    let found = reference(54, ReferenceKind::Other, Some(ReferenceAccess::Read));
    let all = result(vec![found]).into_references();
    let declaration = Reference {
        file_range: FileRange { file_id: FileId(1), range: TextRange { start: 12, end: 15 } },
        kind: ReferenceKind::Other,
        access: Some(ReferenceAccess::Write),
    };
    assert_eq!(all, vec![declaration, found]);
    assert_eq!(result(vec![]).into_references(), vec![declaration]);
}

#[test]
fn test_id_is_named_by_its_text() {
    assert_eq!(TestId::Name("it_works".to_string()).as_str(), "it_works");
    assert_eq!(TestId::Path("foo::tests::it_works".to_string()).as_str(), "foo::tests::it_works");
    let kind = RunnableKind::Test { test_id: TestId::Name("a".to_string()) };
    assert_ne!(kind, RunnableKind::Bench { test_id: TestId::Name("a".to_string()) });
    assert_ne!(RunnableKind::TestMod { path: "a".to_string() }, RunnableKind::Bin);
}

#[test]
fn package_root_keeps_what_it_was_made_with() {
    let root = PackageRoot::new(PathBuf::from("/work/member"), true);
    assert_eq!(root.path(), &PathBuf::from("/work/member"));
    assert!(root.is_member());
    let dependency = PackageRoot::new(PathBuf::from("/registry/dep"), false);
    assert_eq!(dependency.path(), &PathBuf::from("/registry/dep"));
    assert!(!dependency.is_member());
}

fn cargo_workspace() -> ProjectWorkspace {
    let cargo = CargoWorkspace {
        packages: vec![
            PackageData { root: PathBuf::from("/work/app"), is_member: true },
            PackageData { root: PathBuf::from("/registry/dep"), is_member: false },
        ],
        workspace_root: PathBuf::from("/work"),
    };
    let sysroot = Sysroot {
        crates: vec![
            SysrootCrateData { root_dir: PathBuf::from("/sysroot/libcore") },
            SysrootCrateData { root_dir: PathBuf::from("/sysroot/libstd") },
            SysrootCrateData { root_dir: PathBuf::from("/sysroot/liballoc") },
        ],
    };
    ProjectWorkspace::Cargo { cargo, sysroot }
}

fn json_workspace() -> ProjectWorkspace {
    let project = JsonProject {
        roots: vec![
            JsonRoot { path: PathBuf::from("/src/a") },
            JsonRoot { path: PathBuf::from("/src/b") },
        ],
        crates: vec![JsonCrate { root_module: PathBuf::from("/src/a/lib.rs") }],
    };
    ProjectWorkspace::Json { project }
}

fn listed(workspace: &ProjectWorkspace) -> Vec<(PathBuf, bool)> {
    workspace.to_roots().iter().map(|root| (root.path().clone(), root.is_member())).collect()
}

#[test]
fn roots_of_a_cargo_workspace_are_packages_then_sysroot_crates() {
    assert_eq!(
        listed(&cargo_workspace()),
        vec![
            (PathBuf::from("/work/app"), true),
            (PathBuf::from("/registry/dep"), false),
            (PathBuf::from("/sysroot/libcore"), false),
            (PathBuf::from("/sysroot/libstd"), false),
            (PathBuf::from("/sysroot/liballoc"), false),
        ]
    );
}

#[test]
fn roots_of_a_json_project_are_all_members() {
    assert_eq!(
        listed(&json_workspace()),
        vec![(PathBuf::from("/src/a"), true), (PathBuf::from("/src/b"), true)]
    );
}

#[test]
fn roots_of_an_empty_workspace() {
    let empty = ProjectWorkspace::Cargo {
        cargo: CargoWorkspace { packages: vec![], workspace_root: PathBuf::from("/") },
        sysroot: Sysroot { crates: vec![] },
    };
    assert!(empty.to_roots().is_empty());
    assert_eq!(empty.n_packages(), 0);
    let empty = ProjectWorkspace::Json { project: JsonProject { roots: vec![], crates: vec![] } };
    assert!(empty.to_roots().is_empty());
    assert_eq!(empty.n_packages(), 0);
}

#[test]
fn packages_are_counted() {
    assert_eq!(cargo_workspace().n_packages(), 5);
    assert_eq!(json_workspace().n_packages(), 1);
}

#[test]
fn missing_cargo_toml_keeps_the_path() {
    let error = CargoTomlNotFoundError(PathBuf::from("/nowhere"));
    assert_eq!(error.0, PathBuf::from("/nowhere"));
    assert_eq!(error.clone(), error);
}
