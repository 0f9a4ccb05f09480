use nixpkgs_check_by_name::attributes::AttributeDefinition;
use nixpkgs_check_by_name::containment::{PathReference, Resolution};
use nixpkgs_check_by_name::engine::{
    check_all, check_findings, collect_problems, ManualAttribute, PackageFindings, ReferenceFinding, SymlinkFinding,
};
use nixpkgs_check_by_name::nixpkgs_problem::NixpkgsProblem;
use nixpkgs_check_by_name::tree::{PackageEntry, PackageFileState, ShardEntry};

fn pkg(name: &str, file: PackageFileState) -> PackageEntry {
    PackageEntry { name: name.to_string(), is_dir: true, package_file: file }
}

fn findings(name: &str, is_derivation: bool) -> PackageFindings {
    PackageFindings {
        shard: name[..2].to_string(),
        package_name: name.to_string(),
        attribute: AttributeDefinition::ByNameFile { is_derivation },
        symlinks: vec![],
        references: vec![],
    }
}

fn broken_run() -> (Vec<ShardEntry>, Vec<PackageFindings>, Vec<ManualAttribute>) {
    let shards = vec![ShardEntry {
        name: "fo".to_string(),
        is_dir: true,
        packages: vec![pkg("foo", PackageFileState::Missing), pkg("fob", PackageFileState::File)],
    }];
    let mut fob = findings("fob", false);
    fob.symlinks.push(SymlinkFinding {
        subpath: "link".to_string(),
        resolution: Resolution::Resolved { target: "pkgs/by-name/ba/bar".to_string() },
    });
    let packages = vec![findings("foo", true), fob];
    let manual = vec![ManualAttribute {
        name: "bar".to_string(),
        definition: AttributeDefinition::InternalHelper,
        previously_by_name: false,
    }];
    (shards, packages, manual)
}

#[test]
fn conformant_run_is_clean() {
    let shards = vec![ShardEntry {
        name: "fo".to_string(),
        is_dir: true,
        packages: vec![pkg("foo", PackageFileState::File)],
    }];
    let mut foo = findings("foo", true);
    foo.references.push(ReferenceFinding {
        subpath: "package.nix".to_string(),
        reference: PathReference::Literal {
            line: 3,
            text: "./patch.diff".to_string(),
            resolution: Resolution::Resolved { target: "pkgs/by-name/fo/foo/patch.diff".to_string() },
        },
    });
    let manual = vec![ManualAttribute {
        name: "hello".to_string(),
        definition: AttributeDefinition::Other {
            file: "a.nix".to_string(),
            line: 1,
            column: 1,
            definition: "hello = 1;".to_string(),
        },
        previously_by_name: false,
    }];
    assert!(check_all(&shards, &vec![foo], &manual).is_empty());
}

#[test]
fn phases_are_collected_in_order() {
    let (shards, packages, manual) = broken_run();
    let problems = collect_problems(&shards, &packages, &manual);
    assert_eq!(problems.len(), 4);
    assert!(matches!(problems[0], NixpkgsProblem::PackageNixNonExistent { .. }));
    assert!(matches!(problems[1], NixpkgsProblem::NonDerivation { .. }));
    assert!(matches!(problems[2], NixpkgsProblem::OutsideSymlink { .. }));
    assert!(matches!(problems[3], NixpkgsProblem::InternalCallPackageUsed { .. }));
}

#[test]
fn problems_are_ordered_by_path_then_phase() {
    let (shards, packages, manual) = broken_run();
    let problems = check_all(&shards, &packages, &manual);
    assert_eq!(problems.len(), 4);
    // pkgs/by-name/ba/bar, then pkgs/by-name/fo/fob (attribute before
    // symlink), then pkgs/by-name/fo/foo.
    assert!(matches!(problems[0], NixpkgsProblem::InternalCallPackageUsed { .. }));
    assert!(matches!(problems[1], NixpkgsProblem::NonDerivation { .. }));
    assert!(matches!(problems[2], NixpkgsProblem::OutsideSymlink { .. }));
    assert!(matches!(problems[3], NixpkgsProblem::PackageNixNonExistent { .. }));
}

#[test]
fn runs_are_deterministic() {
    let (shards, packages, manual) = broken_run();
    let first = check_all(&shards, &packages, &manual);
    let second = check_all(&shards, &packages, &manual);
    assert_eq!(first, second);
    let a: Vec<String> = first.iter().map(|p| p.message()).collect();
    let b: Vec<String> = second.iter().map(|p| p.message()).collect();
    assert_eq!(a, b);
}

#[test]
fn fixing_one_problem_removes_only_it() {
    let (mut shards, packages, manual) = broken_run();
    let before = check_all(&shards, &packages, &manual);
    shards[0].packages[0].package_file = PackageFileState::File;
    let after = check_all(&shards, &packages, &manual);
    assert_eq!(after.len() + 1, before.len());
    assert_eq!(&after[..], &before[..3]);
}

#[test]
fn findings_of_one_package() {
    let mut f = findings("foo", true);
    f.symlinks.push(SymlinkFinding {
        subpath: "loop".to_string(),
        resolution: Resolution::Failed { io_error: "loop".to_string() },
    });
    f.references.push(ReferenceFinding {
        subpath: "package.nix".to_string(),
        reference: PathReference::SearchPath { line: 1, text: "<nixpkgs>".to_string() },
    });
    let problems = check_findings(&f);
    assert_eq!(problems.len(), 2);
    assert!(matches!(&problems[0], NixpkgsProblem::UnresolvableSymlink { relative_package_dir, .. }
        if relative_package_dir == "pkgs/by-name/fo/foo"));
    assert!(matches!(problems[1], NixpkgsProblem::SearchPath { line: 1, .. }));
}
