use nixpkgs_check_by_name::scan::{scan_line, scan_source, FoundPath, LinePath, PathSyntax};

fn found(line: &str) -> Vec<(PathSyntax, String)> {
    scan_line(line).into_iter().map(|FoundPath { kind, text }| (kind, text)).collect()
}

#[test]
fn literal_paths() {
    assert_eq!(found("  src = ./foo.patch;"), vec![(PathSyntax::Literal, "./foo.patch".to_string())]);
    assert_eq!(
        found("[ ../../foo ~/bar lib/x.nix ]"),
        vec![
            (PathSyntax::Literal, "../../foo".to_string()),
            (PathSyntax::Literal, "~/bar".to_string()),
            (PathSyntax::Literal, "lib/x.nix".to_string()),
        ]
    );
}

#[test]
fn search_paths() {
    assert_eq!(found("import <nixpkgs> {}"), vec![(PathSyntax::SearchPath, "<nixpkgs>".to_string())]);
    assert_eq!(found("<nixpkgs/lib>"), vec![(PathSyntax::SearchPath, "<nixpkgs/lib>".to_string())]);
    assert!(found("if a < b then c else d").is_empty());
    assert!(found("a<b").is_empty());
}

#[test]
fn interpolated_paths() {
    assert_eq!(
        found("import ./${name}.nix"),
        vec![(PathSyntax::Interpolation, "./${name}.nix".to_string())]
    );
}

#[test]
fn strings_comments_and_uris_are_passed_over() {
    assert!(found("url = \"https://example.org/a/b\";").is_empty());
    assert!(found("url = https://example.org/a/b;").is_empty());
    assert!(found("x = 1; # see ./other.nix").is_empty());
    assert_eq!(
        found("\"a \\\" ./in/string\" ./out"),
        vec![(PathSyntax::Literal, "./out".to_string())]
    );
    assert!(found("").is_empty());
    assert!(found("{ lib, stdenv }:").is_empty());
}

#[test]
fn source_lines_are_numbered_from_one() {
    let text = "{ lib }:\n# <nixpkgs>\nimport <nixpkgs> { src = ./a; }\r\n\n  ../b\n";
    let found: Vec<(usize, PathSyntax, String)> = scan_source(text)
        .into_iter()
        .map(|LinePath { line, found: FoundPath { kind, text } }| (line, kind, text))
        .collect();
    assert_eq!(
        found,
        vec![
            (3, PathSyntax::SearchPath, "<nixpkgs>".to_string()),
            (3, PathSyntax::Literal, "./a".to_string()),
            (5, PathSyntax::Literal, "../b".to_string()),
        ]
    );
    assert!(scan_source("").is_empty());
}
