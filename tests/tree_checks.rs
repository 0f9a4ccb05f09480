use nixpkgs_check_by_name::nixpkgs_problem::NixpkgsProblem;
use nixpkgs_check_by_name::structure::{
    is_valid_package_name, is_valid_shard_name, relative_dir_for_package,
    relative_file_for_package, shard_for_package,
};
use nixpkgs_check_by_name::tree::{
    check_package, check_shard, check_tree, same_name_ignoring_case, PackageEntry,
    PackageFileState, ShardEntry,
};

fn pkg(name: &str) -> PackageEntry {
    PackageEntry { name: name.to_string(), is_dir: true, package_file: PackageFileState::File }
}

fn shard(name: &str, packages: Vec<PackageEntry>) -> ShardEntry {
    ShardEntry { name: name.to_string(), is_dir: true, packages }
}

#[test]
fn shard_names() {
    assert!(is_valid_shard_name("fo"));
    assert!(is_valid_shard_name("f"));
    assert!(is_valid_shard_name("_-"));
    assert!(!is_valid_shard_name(""));
    assert!(!is_valid_shard_name("foo"));
    assert!(!is_valid_shard_name("Fo"));
    assert!(!is_valid_shard_name("f."));
}

#[test]
fn package_names() {
    assert!(is_valid_package_name("Foo_bar-2"));
    assert!(!is_valid_package_name(""));
    assert!(!is_valid_package_name("foo.bar"));
    assert!(!is_valid_package_name("föo"));
}

#[test]
fn derived_locations() {
    assert_eq!(shard_for_package("Foo"), "fo");
    assert_eq!(shard_for_package("x"), "x");
    assert_eq!(shard_for_package("HELLO"), "he");
    assert_eq!(relative_dir_for_package("foo"), "pkgs/by-name/fo/foo");
    assert_eq!(relative_file_for_package("Foo"), "pkgs/by-name/fo/Foo/package.nix");
}

#[test]
fn names_equal_up_to_case() {
    assert!(same_name_ignoring_case("Foo", "foo"));
    assert!(same_name_ignoring_case("FOO-1", "foo-1"));
    assert!(!same_name_ignoring_case("foo", "fob"));
    assert!(!same_name_ignoring_case("foo", "fooo"));
}

#[test]
fn conformant_tree_has_no_problems() {
    let tree = vec![
        shard("fo", vec![pkg("foo"), pkg("Fob")]),
        shard("ba", vec![pkg("bar")]),
    ];
    assert!(check_tree(&tree).is_empty());
}

#[test]
fn case_insensitive_duplicate() {
    let tree = vec![shard("fo", vec![pkg("Foo"), pkg("foo")])];
    let problems = check_tree(&tree);
    assert_eq!(
        problems,
        vec![NixpkgsProblem::CaseSensitiveDuplicate {
            relative_shard_path: "pkgs/by-name/fo".to_string(),
            first: "Foo".to_string(),
            second: "foo".to_string(),
        }]
    );
}

#[test]
fn duplicate_names_are_ordered_byte_wise() {
    let tree = vec![shard("fo", vec![pkg("foo"), pkg("Foo")])];
    assert_eq!(
        check_tree(&tree),
        vec![NixpkgsProblem::CaseSensitiveDuplicate {
            relative_shard_path: "pkgs/by-name/fo".to_string(),
            first: "Foo".to_string(),
            second: "foo".to_string(),
        }]
    );
}

#[test]
fn three_way_duplicate_reports_each_extra_member() {
    let tree = vec![shard("fo", vec![pkg("FOO"), pkg("Foo"), pkg("foo")])];
    let problems = check_tree(&tree);
    assert_eq!(problems.len(), 2);
    assert!(matches!(&problems[1], NixpkgsProblem::CaseSensitiveDuplicate { first, second, .. }
        if first == "FOO" && second == "foo"));
}

#[test]
fn shard_mismatch() {
    let tree = vec![shard("ba", vec![pkg("foo")])];
    assert_eq!(
        check_tree(&tree),
        vec![NixpkgsProblem::IncorrectShard {
            relative_package_dir: "pkgs/by-name/ba/foo".to_string(),
            correct_relative_package_dir: "pkgs/by-name/fo/foo".to_string(),
        }]
    );
}

#[test]
fn missing_definition_file() {
    let mut p = pkg("foo");
    p.package_file = PackageFileState::Missing;
    assert_eq!(
        check_tree(&vec![shard("fo", vec![p])]),
        vec![NixpkgsProblem::PackageNixNonExistent {
            relative_package_dir: "pkgs/by-name/fo/foo".to_string(),
        }]
    );
}

#[test]
fn definition_file_is_directory() {
    let mut p = pkg("foo");
    p.package_file = PackageFileState::Directory;
    assert_eq!(
        check_package("fo", &p),
        vec![NixpkgsProblem::PackageNixDir { relative_package_dir: "pkgs/by-name/fo/foo".to_string() }]
    );
}

#[test]
fn package_entry_is_file() {
    let p = PackageEntry { name: "foo".to_string(), is_dir: false, package_file: PackageFileState::Missing };
    assert_eq!(
        check_package("fo", &p),
        vec![NixpkgsProblem::PackageNonDir { relative_package_dir: "pkgs/by-name/fo/foo".to_string() }]
    );
}

#[test]
fn invalid_package_name() {
    let p = pkg("fo.o");
    assert_eq!(
        check_package("fo", &p),
        vec![NixpkgsProblem::InvalidPackageName {
            relative_package_dir: "pkgs/by-name/fo/fo.o".to_string(),
            package_name: "fo.o".to_string(),
        }]
    );
}

#[test]
fn shard_is_file() {
    let s = ShardEntry { name: "fo".to_string(), is_dir: false, packages: vec![] };
    assert_eq!(
        check_shard(&s),
        vec![NixpkgsProblem::ShardNonDir { relative_shard_path: "pkgs/by-name/fo".to_string() }]
    );
}

#[test]
fn invalid_shard_name() {
    let s = shard("FOO", vec![pkg("foo")]);
    assert_eq!(
        check_shard(&s),
        vec![NixpkgsProblem::InvalidShardName {
            relative_shard_path: "pkgs/by-name/FOO".to_string(),
            shard_name: "FOO".to_string(),
        }]
    );
}

#[test]
fn empty_tree_and_empty_shard() {
    assert!(check_tree(&vec![]).is_empty());
    assert!(check_tree(&vec![shard("fo", vec![])]).is_empty());
}
