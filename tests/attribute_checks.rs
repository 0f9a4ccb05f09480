use nixpkgs_check_by_name::attributes::{
    check_by_name_attribute, check_manual_attribute, AttributeDefinition,
};
use nixpkgs_check_by_name::nixpkgs_problem::NixpkgsProblem;

fn call_package(path: Option<&str>, empty_arg: bool) -> AttributeDefinition {
    AttributeDefinition::CallPackage {
        file: "pkgs/top-level/all-packages.nix".to_string(),
        line: 12,
        column: 3,
        path: path.map(|p| p.to_string()),
        empty_arg,
        definition: "foo = callPackage ./wrong/path.nix { };".to_string(),
    }
}

#[test]
fn by_name_derivation_is_fine() {
    assert_eq!(check_by_name_attribute("foo", &AttributeDefinition::ByNameFile { is_derivation: true }), None);
}

#[test]
fn by_name_non_derivation() {
    assert_eq!(
        check_by_name_attribute("foo", &AttributeDefinition::ByNameFile { is_derivation: false }),
        Some(NixpkgsProblem::NonDerivation {
            relative_package_file: "pkgs/by-name/fo/foo/package.nix".to_string(),
            package_name: "foo".to_string(),
        })
    );
}

#[test]
fn undefined_attribute() {
    assert_eq!(
        check_by_name_attribute("foo", &AttributeDefinition::Undefined),
        Some(NixpkgsProblem::UndefinedAttr {
            relative_package_file: "pkgs/by-name/fo/foo/package.nix".to_string(),
            package_name: "foo".to_string(),
        })
    );
}

#[test]
fn unknown_location_and_internal_helper() {
    assert_eq!(
        check_by_name_attribute("foo", &AttributeDefinition::UnknownLocation),
        Some(NixpkgsProblem::CannotDetermineAttributeLocation { attr_name: "foo".to_string() })
    );
    assert_eq!(
        check_by_name_attribute("foo", &AttributeDefinition::InternalHelper),
        Some(NixpkgsProblem::InternalCallPackageUsed { attr_name: "foo".to_string() })
    );
    assert_eq!(
        check_manual_attribute("bar", &AttributeDefinition::InternalHelper, false),
        Some(NixpkgsProblem::InternalCallPackageUsed { attr_name: "bar".to_string() })
    );
}

#[test]
fn wrong_call_package_path() {
    let problem = check_by_name_attribute("foo", &call_package(Some("wrong/path.nix"), true)).unwrap();
    assert_eq!(
        problem,
        NixpkgsProblem::WrongCallPackagePath {
            package_name: "foo".to_string(),
            file: "pkgs/top-level/all-packages.nix".to_string(),
            line: 12,
            column: 3,
            actual_path: "wrong/path.nix".to_string(),
            expected_path: "pkgs/by-name/fo/foo/package.nix".to_string(),
        }
    );
}

#[test]
fn right_call_package_path_is_fine() {
    assert_eq!(
        check_by_name_attribute("foo", &call_package(Some("pkgs/by-name/fo/foo/package.nix"), false)),
        None
    );
}

#[test]
fn right_path_with_empty_argument() {
    assert_eq!(
        check_by_name_attribute("foo", &call_package(Some("pkgs/by-name/fo/foo/package.nix"), true)),
        Some(NixpkgsProblem::WrongCallPackage {
            relative_package_file: "pkgs/by-name/fo/foo/package.nix".to_string(),
            package_name: "foo".to_string(),
        })
    );
}

#[test]
fn non_syntactic_call_package() {
    let p = check_by_name_attribute("foo", &call_package(None, false)).unwrap();
    assert!(matches!(p, NixpkgsProblem::NonSyntacticCallPackage { line: 12, column: 3, .. }));
    let other = AttributeDefinition::Other {
        file: "a.nix".to_string(),
        line: 1,
        column: 1,
        definition: "foo = bar;".to_string(),
    };
    assert_eq!(
        check_by_name_attribute("foo", &other),
        Some(NixpkgsProblem::NonSyntacticCallPackage {
            package_name: "foo".to_string(),
            file: "a.nix".to_string(),
            line: 1,
            column: 1,
            definition: "foo = bar;".to_string(),
        })
    );
}

#[test]
fn moved_and_new_packages() {
    assert_eq!(
        check_manual_attribute("bar", &call_package(Some("pkgs/bar"), true), true),
        Some(NixpkgsProblem::MovedOutOfByName {
            package_name: "bar".to_string(),
            call_package_path: Some("pkgs/bar".to_string()),
            empty_arg: true,
        })
    );
    assert_eq!(
        check_manual_attribute("bar", &call_package(None, false), false),
        Some(NixpkgsProblem::NewPackageNotUsingByName {
            package_name: "bar".to_string(),
            call_package_path: None,
            empty_arg: false,
        })
    );
    assert_eq!(
        check_manual_attribute("bar", &AttributeDefinition::ByNameFile { is_derivation: true }, true),
        None
    );
}
