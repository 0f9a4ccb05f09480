use nixpkgs_check_by_name::containment::{
    check_path_reference, check_symlink, is_within, PathReference, Resolution,
};
use nixpkgs_check_by_name::nixpkgs_problem::NixpkgsProblem;

const DIR: &str = "pkgs/by-name/fo/foo";

#[test]
fn within_is_by_component() {
    assert!(is_within("pkgs/by-name/fo/foo", DIR));
    assert!(is_within("pkgs/by-name/fo/foo/a/b", DIR));
    assert!(!is_within("pkgs/by-name/fo/foobar", DIR));
    assert!(!is_within("pkgs/by-name/fo", DIR));
}

#[test]
fn symlink_escape() {
    let r = Resolution::Resolved { target: "pkgs/by-name/ba/bar/file".to_string() };
    assert_eq!(
        check_symlink(DIR, "link", &r),
        Some(NixpkgsProblem::OutsideSymlink {
            relative_package_dir: DIR.to_string(),
            subpath: "link".to_string(),
        })
    );
    let inside = Resolution::Resolved { target: "pkgs/by-name/fo/foo/file".to_string() };
    assert_eq!(check_symlink(DIR, "link", &inside), None);
}

#[test]
fn symlink_cycle() {
    let r = Resolution::Failed { io_error: "Too many levels of symbolic links (os error 40)".to_string() };
    assert_eq!(
        check_symlink(DIR, "loop", &r),
        Some(NixpkgsProblem::UnresolvableSymlink {
            relative_package_dir: DIR.to_string(),
            subpath: "loop".to_string(),
            io_error: "Too many levels of symbolic links (os error 40)".to_string(),
        })
    );
}

#[test]
fn path_references() {
    let search = PathReference::SearchPath { line: 2, text: "<nixpkgs>".to_string() };
    assert!(matches!(check_path_reference(DIR, "package.nix", &search),
        Some(NixpkgsProblem::SearchPath { line: 2, .. })));
    let interp = PathReference::Interpolation { line: 3, text: "./${x}".to_string() };
    assert!(matches!(check_path_reference(DIR, "package.nix", &interp),
        Some(NixpkgsProblem::PathInterpolation { line: 3, .. })));
    let outside = PathReference::Literal {
        line: 4,
        text: "../bar".to_string(),
        resolution: Resolution::Resolved { target: "pkgs/by-name/fo/bar".to_string() },
    };
    assert_eq!(
        check_path_reference(DIR, "package.nix", &outside),
        Some(NixpkgsProblem::OutsidePathReference {
            relative_package_dir: DIR.to_string(),
            subpath: "package.nix".to_string(),
            line: 4,
            text: "../bar".to_string(),
        })
    );
    let missing = PathReference::Literal {
        line: 5,
        text: "./nope".to_string(),
        resolution: Resolution::Failed { io_error: "No such file or directory (os error 2)".to_string() },
    };
    assert!(matches!(check_path_reference(DIR, "package.nix", &missing),
        Some(NixpkgsProblem::UnresolvablePathReference { line: 5, .. })));
    let inside = PathReference::Literal {
        line: 6,
        text: "./patch.diff".to_string(),
        resolution: Resolution::Resolved { target: "pkgs/by-name/fo/foo/patch.diff".to_string() },
    };
    assert_eq!(check_path_reference(DIR, "package.nix", &inside), None);
}
