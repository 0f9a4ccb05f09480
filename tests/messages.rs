use nixpkgs_check_by_name::order::text_le_exec;
use nixpkgs_check_by_name::nixpkgs_problem::{create_path_expr, NixpkgsProblem};
use nixpkgs_check_by_name::problem::{ByNameErrorKind, ByNameNonDerivation};
use nixpkgs_check_by_name::text::{decimal_string, spaces_string, str_eq};

#[test]
fn decimal_text() {
    assert_eq!(decimal_string(0), "0");
    assert_eq!(decimal_string(7), "7");
    assert_eq!(decimal_string(120), "120");
    assert_eq!(decimal_string(usize::MAX), usize::MAX.to_string());
    assert_eq!(spaces_string(3), "   ");
    assert_eq!(spaces_string(0), "");
    assert!(str_eq("abc", "abc"));
    assert!(!str_eq("abc", "abd"));
}

#[test]
fn path_expression_between_files() {
    assert_eq!(
        create_path_expr("pkgs/top-level/all-packages.nix", "pkgs/by-name/fo/foo/package.nix"),
        "./../by-name/fo/foo/package.nix"
    );
    assert_eq!(create_path_expr("default.nix", "wrong/path.nix"), "./wrong/path.nix");
}

#[test]
fn non_derivation_message() {
    let p = ByNameNonDerivation::new("foo");
    assert_eq!(p.0.attribute_name, "foo");
    assert_eq!(p.0.kind, ByNameErrorKind::NonDerivation);
    assert_eq!(
        p.message(),
        "- pkgs.foo: This attribute defined by pkgs/by-name/fo/foo/package.nix is not a derivation"
    );
}

#[test]
fn simple_messages() {
    let p = NixpkgsProblem::ShardNonDir { relative_shard_path: "pkgs/by-name/fo".to_string() };
    assert_eq!(p.message(), "pkgs/by-name/fo: This is a file, but it should be a directory.");
    let p = NixpkgsProblem::CaseSensitiveDuplicate {
        relative_shard_path: "pkgs/by-name/fo".to_string(),
        first: "Foo".to_string(),
        second: "foo".to_string(),
    };
    assert_eq!(
        p.message(),
        "pkgs/by-name/fo: Duplicate case-sensitive package directories \"Foo\" and \"foo\"."
    );
    let p = NixpkgsProblem::PackageNixNonExistent { relative_package_dir: "pkgs/by-name/fo/foo".to_string() };
    assert_eq!(p.message(), "pkgs/by-name/fo/foo: Missing required \"package.nix\" file.");
    let p = NixpkgsProblem::SearchPath {
        relative_package_dir: "pkgs/by-name/fo/foo".to_string(),
        subpath: "package.nix".to_string(),
        line: 10,
        text: "<nixpkgs>".to_string(),
    };
    assert_eq!(
        p.message(),
        "pkgs/by-name/fo/foo: File package.nix at line 10 contains the nix search path expression \"<nixpkgs>\" which may point outside the directory of that package."
    );
    let p = NixpkgsProblem::UnresolvableSymlink {
        relative_package_dir: "pkgs/by-name/fo/foo".to_string(),
        subpath: "loop".to_string(),
        io_error: "too many links".to_string(),
    };
    assert_eq!(
        p.message(),
        "pkgs/by-name/fo/foo: Path loop is a symlink which cannot be resolved: too many links."
    );
}

#[test]
fn wrong_call_package_path_message() {
    let p = NixpkgsProblem::WrongCallPackagePath {
        package_name: "foo".to_string(),
        file: "pkgs/top-level/all-packages.nix".to_string(),
        line: 12,
        column: 3,
        actual_path: "pkgs/top-level/wrong/path.nix".to_string(),
        expected_path: "pkgs/by-name/fo/foo/package.nix".to_string(),
    };
    assert_eq!(
        p.message(),
        "- Because pkgs/by-name/fo/foo exists, the attribute `pkgs.foo` must be defined like\n\n    foo = callPackage ./../by-name/fo/foo/package.nix { /* ... */ };\n\n  This is however not the case: The first `callPackage` argument is the wrong path.\n  It is defined in pkgs/top-level/all-packages.nix:12:3 as\n\n    foo = callPackage ./wrong/path.nix { /* ... */ };"
    );
}

#[test]
fn non_syntactic_call_package_message() {
    let p = NixpkgsProblem::NonSyntacticCallPackage {
        package_name: "foo".to_string(),
        file: "pkgs/top-level/all-packages.nix".to_string(),
        line: 4,
        column: 3,
        definition: "foo = callPackage ./foo.nix {\n    x = 1;\n  };".to_string(),
    };
    assert_eq!(
        p.message(),
        "- Because pkgs/by-name/fo/foo exists, the attribute `pkgs.foo` must be defined like\n\n    foo = callPackage pkgs/by-name/fo/foo/package.nix { /* ... */ };\n\n  This is however not the case.\n  It is defined in pkgs/top-level/all-packages.nix:4 as\n\n    foo = callPackage ./foo.nix {\n      x = 1;\n    };"
    );
}

#[test]
fn moved_and_new_messages() {
    let p = NixpkgsProblem::MovedOutOfByName {
        package_name: "foo".to_string(),
        call_package_path: None,
        empty_arg: true,
    };
    assert_eq!(
        p.message(),
        "pkgs.foo: This top-level package was previously defined in pkgs/by-name/fo/foo/package.nix, but is now manually defined as `callPackage ... { }` (e.g. in `pkgs/top-level/all-packages.nix`). Please move the package back and remove the manual `callPackage`."
    );
    let p = NixpkgsProblem::MovedOutOfByName {
        package_name: "foo".to_string(),
        call_package_path: None,
        empty_arg: false,
    };
    assert_eq!(
        p.message(),
        "pkgs.foo: This top-level package was previously defined in pkgs/by-name/fo/foo/package.nix, but is now manually defined as `callPackage ... { ... }` (e.g. in `pkgs/top-level/all-packages.nix`). While the manual `callPackage` is still needed, the package files should be moved back to pkgs/by-name/fo/foo."
    );
    let p = NixpkgsProblem::NewPackageNotUsingByName {
        package_name: "foo".to_string(),
        call_package_path: Some("pkgs/foo".to_string()),
        empty_arg: false,
    };
    assert_eq!(
        p.message(),
        "pkgs.foo: This is a new top-level package of the form `callPackage ./pkgs/foo { }`. Please define it in pkgs/by-name/fo/foo/package.nix instead. See `pkgs/by-name/README.md` for more details. Since the second `callPackage` argument is not `{ }`, the manual `callPackage` (e.g. in `pkgs/top-level/all-packages.nix`) is still needed."
    );
}

#[test]
fn text_order_is_by_character_code() {
    assert!(text_le_exec("", ""));
    assert!(text_le_exec("a", "ab"));
    assert!(!text_le_exec("ab", "a"));
    assert!(text_le_exec("Foo", "foo"));
    assert!(text_le_exec("pkgs/by-name/fo/foo-bar", "pkgs/by-name/fo/foo/x"));
    assert!(!text_le_exec("b", "a"));
}
