//! Every problem that checking the package tree can report, and its
//! rendering as text.

use vstd::prelude::*;
use vstd::string::*;
use crate::structure::{
    package_dir_of, package_file_of, relative_dir_for_package, relative_file_for_package,
};
use crate::text::{decimal, decimal_string, spaces, spaces_string};

verus! {

/// Any problem that can occur when checking the package tree.
///
/// Paths are relative to the repository root; an I/O failure is kept as its
/// message.
#[derive(Clone, Debug, PartialEq, Eq)]
pub enum NixpkgsProblem {
    ShardNonDir { relative_shard_path: String },
    InvalidShardName { relative_shard_path: String, shard_name: String },
    PackageNonDir { relative_package_dir: String },
    CaseSensitiveDuplicate { relative_shard_path: String, first: String, second: String },
    InvalidPackageName { relative_package_dir: String, package_name: String },
    IncorrectShard { relative_package_dir: String, correct_relative_package_dir: String },
    PackageNixNonExistent { relative_package_dir: String },
    PackageNixDir { relative_package_dir: String },
    UndefinedAttr { relative_package_file: String, package_name: String },
    WrongCallPackage { relative_package_file: String, package_name: String },
    WrongCallPackagePath {
        package_name: String,
        file: String,
        line: usize,
        column: usize,
        actual_path: String,
        expected_path: String,
    },
    NonSyntacticCallPackage {
        package_name: String,
        file: String,
        line: usize,
        column: usize,
        definition: String,
    },
    NonDerivation { relative_package_file: String, package_name: String },
    OutsideSymlink { relative_package_dir: String, subpath: String },
    UnresolvableSymlink { relative_package_dir: String, subpath: String, io_error: String },
    PathInterpolation { relative_package_dir: String, subpath: String, line: usize, text: String },
    SearchPath { relative_package_dir: String, subpath: String, line: usize, text: String },
    OutsidePathReference {
        relative_package_dir: String,
        subpath: String,
        line: usize,
        text: String,
    },
    UnresolvablePathReference {
        relative_package_dir: String,
        subpath: String,
        line: usize,
        text: String,
        io_error: String,
    },
    MovedOutOfByName { package_name: String, call_package_path: Option<String>, empty_arg: bool },
    NewPackageNotUsingByName {
        package_name: String,
        call_package_path: Option<String>,
        empty_arg: bool,
    },
    InternalCallPackageUsed { attr_name: String },
    CannotDetermineAttributeLocation { attr_name: String },
}

/// A problem as plain values, as the contracts speak of it.
pub enum ProblemView {
    ShardNonDir { relative_shard_path: Seq<char> },
    InvalidShardName { relative_shard_path: Seq<char>, shard_name: Seq<char> },
    PackageNonDir { relative_package_dir: Seq<char> },
    CaseSensitiveDuplicate { relative_shard_path: Seq<char>, first: Seq<char>, second: Seq<char> },
    InvalidPackageName { relative_package_dir: Seq<char>, package_name: Seq<char> },
    IncorrectShard { relative_package_dir: Seq<char>, correct_relative_package_dir: Seq<char> },
    PackageNixNonExistent { relative_package_dir: Seq<char> },
    PackageNixDir { relative_package_dir: Seq<char> },
    UndefinedAttr { relative_package_file: Seq<char>, package_name: Seq<char> },
    WrongCallPackage { relative_package_file: Seq<char>, package_name: Seq<char> },
    WrongCallPackagePath { package_name: Seq<char>, file: Seq<char>, line: nat, column: nat, actual_path: Seq<char>, expected_path: Seq<char> },
    NonSyntacticCallPackage { package_name: Seq<char>, file: Seq<char>, line: nat, column: nat, definition: Seq<char> },
    NonDerivation { relative_package_file: Seq<char>, package_name: Seq<char> },
    OutsideSymlink { relative_package_dir: Seq<char>, subpath: Seq<char> },
    UnresolvableSymlink { relative_package_dir: Seq<char>, subpath: Seq<char>, io_error: Seq<char> },
    PathInterpolation { relative_package_dir: Seq<char>, subpath: Seq<char>, line: nat, text: Seq<char> },
    SearchPath { relative_package_dir: Seq<char>, subpath: Seq<char>, line: nat, text: Seq<char> },
    OutsidePathReference { relative_package_dir: Seq<char>, subpath: Seq<char>, line: nat, text: Seq<char> },
    UnresolvablePathReference { relative_package_dir: Seq<char>, subpath: Seq<char>, line: nat, text: Seq<char>, io_error: Seq<char> },
    MovedOutOfByName { package_name: Seq<char>, call_package_path: Option<Seq<char>>, empty_arg: bool },
    NewPackageNotUsingByName { package_name: Seq<char>, call_package_path: Option<Seq<char>>, empty_arg: bool },
    InternalCallPackageUsed { attr_name: Seq<char> },
    CannotDetermineAttributeLocation { attr_name: Seq<char> },
}

pub open spec fn opt_view(o: Option<String>) -> Option<Seq<char>> {
    match o {
        Some(s) => Some(s@),
        None => None,
    }
}

impl View for NixpkgsProblem {
    type V = ProblemView;

    open spec fn view(&self) -> ProblemView {
        match *self {
            NixpkgsProblem::ShardNonDir { relative_shard_path } => ProblemView::ShardNonDir { relative_shard_path: relative_shard_path@ },
            NixpkgsProblem::InvalidShardName { relative_shard_path, shard_name } => ProblemView::InvalidShardName { relative_shard_path: relative_shard_path@, shard_name: shard_name@ },
            NixpkgsProblem::PackageNonDir { relative_package_dir } => ProblemView::PackageNonDir { relative_package_dir: relative_package_dir@ },
            NixpkgsProblem::CaseSensitiveDuplicate { relative_shard_path, first, second } => ProblemView::CaseSensitiveDuplicate { relative_shard_path: relative_shard_path@, first: first@, second: second@ },
            NixpkgsProblem::InvalidPackageName { relative_package_dir, package_name } => ProblemView::InvalidPackageName { relative_package_dir: relative_package_dir@, package_name: package_name@ },
            NixpkgsProblem::IncorrectShard { relative_package_dir, correct_relative_package_dir } => ProblemView::IncorrectShard { relative_package_dir: relative_package_dir@, correct_relative_package_dir: correct_relative_package_dir@ },
            NixpkgsProblem::PackageNixNonExistent { relative_package_dir } => ProblemView::PackageNixNonExistent { relative_package_dir: relative_package_dir@ },
            NixpkgsProblem::PackageNixDir { relative_package_dir } => ProblemView::PackageNixDir { relative_package_dir: relative_package_dir@ },
            NixpkgsProblem::UndefinedAttr { relative_package_file, package_name } => ProblemView::UndefinedAttr { relative_package_file: relative_package_file@, package_name: package_name@ },
            NixpkgsProblem::WrongCallPackage { relative_package_file, package_name } => ProblemView::WrongCallPackage { relative_package_file: relative_package_file@, package_name: package_name@ },
            NixpkgsProblem::WrongCallPackagePath { package_name, file, line, column, actual_path, expected_path } => ProblemView::WrongCallPackagePath { package_name: package_name@, file: file@, line: line as nat, column: column as nat, actual_path: actual_path@, expected_path: expected_path@ },
            NixpkgsProblem::NonSyntacticCallPackage { package_name, file, line, column, definition } => ProblemView::NonSyntacticCallPackage { package_name: package_name@, file: file@, line: line as nat, column: column as nat, definition: definition@ },
            NixpkgsProblem::NonDerivation { relative_package_file, package_name } => ProblemView::NonDerivation { relative_package_file: relative_package_file@, package_name: package_name@ },
            NixpkgsProblem::OutsideSymlink { relative_package_dir, subpath } => ProblemView::OutsideSymlink { relative_package_dir: relative_package_dir@, subpath: subpath@ },
            NixpkgsProblem::UnresolvableSymlink { relative_package_dir, subpath, io_error } => ProblemView::UnresolvableSymlink { relative_package_dir: relative_package_dir@, subpath: subpath@, io_error: io_error@ },
            NixpkgsProblem::PathInterpolation { relative_package_dir, subpath, line, text } => ProblemView::PathInterpolation { relative_package_dir: relative_package_dir@, subpath: subpath@, line: line as nat, text: text@ },
            NixpkgsProblem::SearchPath { relative_package_dir, subpath, line, text } => ProblemView::SearchPath { relative_package_dir: relative_package_dir@, subpath: subpath@, line: line as nat, text: text@ },
            NixpkgsProblem::OutsidePathReference { relative_package_dir, subpath, line, text } => ProblemView::OutsidePathReference { relative_package_dir: relative_package_dir@, subpath: subpath@, line: line as nat, text: text@ },
            NixpkgsProblem::UnresolvablePathReference { relative_package_dir, subpath, line, text, io_error } => ProblemView::UnresolvablePathReference { relative_package_dir: relative_package_dir@, subpath: subpath@, line: line as nat, text: text@, io_error: io_error@ },
            NixpkgsProblem::MovedOutOfByName { package_name, call_package_path, empty_arg } => ProblemView::MovedOutOfByName { package_name: package_name@, call_package_path: opt_view(call_package_path), empty_arg: empty_arg },
            NixpkgsProblem::NewPackageNotUsingByName { package_name, call_package_path, empty_arg } => ProblemView::NewPackageNotUsingByName { package_name: package_name@, call_package_path: opt_view(call_package_path), empty_arg: empty_arg },
            NixpkgsProblem::InternalCallPackageUsed { attr_name } => ProblemView::InternalCallPackageUsed { attr_name: attr_name@ },
            NixpkgsProblem::CannotDetermineAttributeLocation { attr_name } => ProblemView::CannotDetermineAttributeLocation { attr_name: attr_name@ },
        }
    }
}

/// The views of a sequence of problems.
pub open spec fn views(s: Seq<NixpkgsProblem>) -> Seq<ProblemView> {
    s.map_values(|p: NixpkgsProblem| p@)
}

pub proof fn lemma_views_concat(a: Seq<NixpkgsProblem>, b: Seq<NixpkgsProblem>)
    ensures
        views(a + b) == views(a) + views(b),
{
    assert(views(a + b) =~= views(a) + views(b));
}

pub proof fn lemma_views_push(a: Seq<NixpkgsProblem>, p: NixpkgsProblem)
    ensures
        views(a.push(p)) == views(a) + seq![p@],
{
    assert(views(a.push(p)) =~= views(a) + seq![p@]);
}

/// Appends `more` to `problems`.
pub fn append_problems(problems: &mut Vec<NixpkgsProblem>, more: Vec<NixpkgsProblem>)
    ensures
        views(final(problems)@) == views(old(problems)@) + views(more@),
{
    let mut more = more;
    proof {
        lemma_views_concat(problems@, more@);
    }
    problems.append(&mut more);
}

/// Appends `p` to `problems`.
pub fn push_problem(problems: &mut Vec<NixpkgsProblem>, p: NixpkgsProblem)
    ensures
        views(final(problems)@) == views(old(problems)@) + seq![p@],
{
    proof {
        lemma_views_push(problems@, p);
    }
    problems.push(p);
}

/// What `{:?}` prints for a string: it depends on the characters alone.
pub uninterp spec fn debug_of(s: Seq<char>) -> Seq<char>;

/// What `RelativePath::parent` returns for a non-empty path.
pub uninterp spec fn parent_of(p: Seq<char>) -> Seq<char>;

/// What `RelativePath::relative` returns: the path that leads from `from`
/// to `to`.
pub uninterp spec fn relative_of(from: Seq<char>, to: Seq<char>) -> Seq<char>;

/// What `textwrap::dedent` returns: the text without the leading whitespace
/// common to its lines.
pub uninterp spec fn dedent_of(s: Seq<char>) -> Seq<char>;

/// What `textwrap::indent` returns: each line of the text with `prefix` put
/// before it.
pub uninterp spec fn indent_of(s: Seq<char>, prefix: Seq<char>) -> Seq<char>;

/// Relies on the `Debug` impl of `str`: the string quoted and escaped.
#[verifier::external_body]
fn debug_quoted(s: &str) -> (r: String)
    ensures
        r@ == debug_of(s@),
{
    format!("{:?}", s)
}

/// Relies on `relative_path::RelativePath::parent`: `None` exactly for the
/// empty path.
#[verifier::external_body]
fn relative_parent(p: &str) -> (r: Option<String>)
    ensures
        r is None <==> p@.len() == 0,
        r matches Some(q) ==> q@ == parent_of(p@),
{
    relative_path::RelativePath::new(p).parent().map(|q| q.as_str().to_string())
}

/// Relies on `relative_path::RelativePath::relative`.
#[verifier::external_body]
fn relative_between(from: &str, to: &str) -> (r: String)
    ensures
        r@ == relative_of(from@, to@),
{
    relative_path::RelativePath::new(from).relative(relative_path::RelativePath::new(to)).into_string()
}

/// Relies on `textwrap::dedent`.
#[verifier::external_body]
fn dedent(s: &str) -> (r: String)
    ensures
        r@ == dedent_of(s@),
{
    textwrap::dedent(s)
}

/// Relies on `textwrap::indent`.
#[verifier::external_body]
fn indent(s: &str, prefix: &str) -> (r: String)
    ensures
        r@ == indent_of(s@, prefix@),
{
    textwrap::indent(s, prefix)
}

/// The path expression that, written in `from_file`, points to `to_file`.
pub open spec fn path_expr(from_file: Seq<char>, to_file: Seq<char>) -> Seq<char> {
    "./"@ + relative_of(parent_of(from_file), to_file)
}

/// A relative path: it does not start at the root.
pub open spec fn is_relative_path(p: Seq<char>) -> bool {
    p.len() == 0 || p[0] != '/'
}

/// Creates a path expression that, written in the file `from_file`, points
/// to `to_file`; both are relative paths, and `from_file` names a file.
pub fn create_path_expr(from_file: &str, to_file: &str) -> (r: String)
    requires
        from_file@.len() > 0,
        is_relative_path(from_file@),
        is_relative_path(to_file@),
    ensures
        r@ == path_expr(from_file@, to_file@),
{
    let dir = relative_parent(from_file).unwrap();
    String::from_str("./").concat(relative_between(dir.as_str(), to_file).as_str())
}

/// The first argument of a `callPackage` call as shown in a message.
pub open spec fn call_package_arg(path: Option<String>) -> Seq<char> {
    match path {
        Some(p) => "./"@ + p@,
        None => "..."@,
    }
}

/// How a definition that is not in the expected shape is shown: at the
/// indentation it has in its file, stripped of what its lines share, and indented by
/// four spaces.
pub open spec fn shown_definition(column: nat, definition: Seq<char>) -> Seq<char> {
    indent_of(dedent_of(spaces((column - 1) as nat) + definition), "    "@)
}

pub open spec fn must_be_defined_like(package_name: Seq<char>, path: Seq<char>) -> Seq<char> {
    "- Because "@ + package_dir_of(package_name) + " exists, the attribute `pkgs."@ + package_name
        + "` must be defined like\n\n    "@ + package_name + " = callPackage "@ + path
        + " { /* ... */ };\n\n  This is however not the case"@
}

/// The text of a problem.
pub open spec fn problem_message(p: NixpkgsProblem) -> Seq<char> {
    match p {
        NixpkgsProblem::ShardNonDir { relative_shard_path } =>
            relative_shard_path@ + ": This is a file, but it should be a directory."@,
        NixpkgsProblem::InvalidShardName { relative_shard_path, shard_name } =>
            relative_shard_path@ + ": Invalid directory name \""@ + shard_name@
                + "\", must be at most 2 ASCII characters consisting of a-z, 0-9, \"-\" or \"_\"."@,
        NixpkgsProblem::PackageNonDir { relative_package_dir } =>
            relative_package_dir@ + ": This path is a file, but it should be a directory."@,
        NixpkgsProblem::CaseSensitiveDuplicate { relative_shard_path, first, second } =>
            relative_shard_path@ + ": Duplicate case-sensitive package directories "@
                + debug_of(first@) + " and "@ + debug_of(second@) + "."@,
        NixpkgsProblem::InvalidPackageName { relative_package_dir, package_name } =>
            relative_package_dir@ + ": Invalid package directory name \""@ + package_name@
                + "\", must be ASCII characters consisting of a-z, A-Z, 0-9, \"-\" or \"_\"."@,
        NixpkgsProblem::IncorrectShard { relative_package_dir, correct_relative_package_dir } =>
            relative_package_dir@ + ": Incorrect directory location, should be "@
                + correct_relative_package_dir@ + " instead."@,
        NixpkgsProblem::PackageNixNonExistent { relative_package_dir } =>
            relative_package_dir@ + ": Missing required \"package.nix\" file."@,
        NixpkgsProblem::PackageNixDir { relative_package_dir } =>
            relative_package_dir@ + ": \"package.nix\" must be a file."@,
        NixpkgsProblem::UndefinedAttr { relative_package_file, package_name } =>
            "pkgs."@ + package_name@
                + ": This attribute is not defined but it should be defined automatically as "@
                + relative_package_file@,
        NixpkgsProblem::WrongCallPackage { relative_package_file, package_name } =>
            "pkgs."@ + package_name@
                + ": This attribute is manually defined (most likely in pkgs/top-level/all-packages.nix), which is only allowed if the definition is of the form `pkgs.callPackage "@
                + relative_package_file@ + " { ... }` with a non-empty second argument."@,
        NixpkgsProblem::WrongCallPackagePath {
            package_name,
            file,
            line,
            column,
            actual_path,
            expected_path,
        } =>
            must_be_defined_like(package_name@, path_expr(file@, expected_path@))
                + ": The first `callPackage` argument is the wrong path.\n  It is defined in "@
                + file@ + ":"@ + decimal(line as nat) + ":"@ + decimal(column as nat)
                + " as\n\n    "@ + package_name@ + " = callPackage "@
                + path_expr(file@, actual_path@) + " { /* ... */ };"@,
        NixpkgsProblem::NonSyntacticCallPackage { package_name, file, line, column, definition } =>
            must_be_defined_like(package_name@, package_file_of(package_name@))
                + ".\n  It is defined in "@ + file@ + ":"@ + decimal(line as nat) + " as\n\n"@
                + shown_definition(column as nat, definition@),
        NixpkgsProblem::NonDerivation { relative_package_file, package_name } =>
            "pkgs."@ + package_name@ + ": This attribute defined by "@ + relative_package_file@
                + " is not a derivation"@,
        NixpkgsProblem::OutsideSymlink { relative_package_dir, subpath } =>
            relative_package_dir@ + ": Path "@ + subpath@
                + " is a symlink pointing to a path outside the directory of that package."@,
        NixpkgsProblem::UnresolvableSymlink { relative_package_dir, subpath, io_error } =>
            relative_package_dir@ + ": Path "@ + subpath@
                + " is a symlink which cannot be resolved: "@ + io_error@ + "."@,
        NixpkgsProblem::PathInterpolation { relative_package_dir, subpath, line, text } =>
            relative_package_dir@ + ": File "@ + subpath@ + " at line "@ + decimal(line as nat)
                + " contains the path expression \""@ + text@
                + "\", which is not yet supported and may point outside the directory of that package."@,
        NixpkgsProblem::SearchPath { relative_package_dir, subpath, line, text } =>
            relative_package_dir@ + ": File "@ + subpath@ + " at line "@ + decimal(line as nat)
                + " contains the nix search path expression \""@ + text@
                + "\" which may point outside the directory of that package."@,
        NixpkgsProblem::OutsidePathReference { relative_package_dir, subpath, line, text } =>
            relative_package_dir@ + ": File "@ + subpath@ + " at line "@ + decimal(line as nat)
                + " contains the path expression \""@ + text@
                + "\" which may point outside the directory of that package."@,
        NixpkgsProblem::UnresolvablePathReference {
            relative_package_dir,
            subpath,
            line,
            text,
            io_error,
        } =>
            relative_package_dir@ + ": File "@ + subpath@ + " at line "@ + decimal(line as nat)
                + " contains the path expression \""@ + text@ + "\" which cannot be resolved: "@
                + io_error@ + "."@,
        NixpkgsProblem::MovedOutOfByName { package_name, call_package_path, empty_arg } =>
            if empty_arg {
                "pkgs."@ + package_name@ + ": This top-level package was previously defined in "@
                    + package_file_of(package_name@) + ", but is now manually defined as `callPackage "@
                    + call_package_arg(call_package_path)
                    + " { }` (e.g. in `pkgs/top-level/all-packages.nix`). Please move the package back and remove the manual `callPackage`."@
            } else {
                "pkgs."@ + package_name@ + ": This top-level package was previously defined in "@
                    + package_file_of(package_name@) + ", but is now manually defined as `callPackage "@
                    + call_package_arg(call_package_path)
                    + " { ... }` (e.g. in `pkgs/top-level/all-packages.nix`). While the manual `callPackage` is still needed, the package files should be moved back to "@
                    + package_dir_of(package_name@) + "."@
            },
        NixpkgsProblem::NewPackageNotUsingByName { package_name, call_package_path, empty_arg } =>
            "pkgs."@ + package_name@ + ": This is a new top-level package of the form `callPackage "@
                + call_package_arg(call_package_path) + " { }`. Please define it in "@
                + package_file_of(package_name@)
                + " instead. See `pkgs/by-name/README.md` for more details. "@ + if empty_arg {
                "Since the second `callPackage` argument is `{ }`, no manual `callPackage` (e.g. in `pkgs/top-level/all-packages.nix`) is needed anymore."@
            } else {
                "Since the second `callPackage` argument is not `{ }`, the manual `callPackage` (e.g. in `pkgs/top-level/all-packages.nix`) is still needed."@
            },
        NixpkgsProblem::InternalCallPackageUsed { attr_name } =>
            "pkgs."@ + attr_name@
                + ": This attribute is defined using `_internalCallByNamePackageFile`, which is an internal function not intended for manual use."@,
        NixpkgsProblem::CannotDetermineAttributeLocation { attr_name } =>
            "pkgs."@ + attr_name@
                + ": Cannot determine the location of this attribute using `builtins.unsafeGetAttrPos`."@,
    }
}

fn call_package_arg_string(path: &Option<String>) -> (r: String)
    ensures
        r@ == call_package_arg(*path),
{
    match path {
        Some(p) => String::from_str("./").concat(p.as_str()),
        None => String::from_str("..."),
    }
}

fn must_be_defined_like_string(package_name: &str, path: &str) -> (r: String)
    ensures
        r@ == must_be_defined_like(package_name@, path@),
{
    String::from_str("- Because ").concat(relative_dir_for_package(package_name).as_str()).concat(
        " exists, the attribute `pkgs.",
    ).concat(package_name).concat("` must be defined like\n\n    ").concat(package_name).concat(
        " = callPackage ",
    ).concat(path).concat(" { /* ... */ };\n\n  This is however not the case")
}

impl NixpkgsProblem {
    /// Whether the problem's positions are well formed: a misplaced
    /// definition names a file, its paths are relative, and columns count
    /// from one.
    pub open spec fn wf(&self) -> bool {
        match *self {
            NixpkgsProblem::WrongCallPackagePath { file, actual_path, expected_path, .. } =>
                file@.len() > 0 && is_relative_path(file@) && is_relative_path(actual_path@)
                    && is_relative_path(expected_path@),
            NixpkgsProblem::NonSyntacticCallPackage { column, .. } => column >= 1,
            _ => true,
        }
    }

    /// The text of this problem, as shown to the user.
    pub fn message(&self) -> (r: String)
        requires
            self.wf(),
        ensures
            r@ == problem_message(*self),
    {
        match self {
            NixpkgsProblem::ShardNonDir { relative_shard_path } =>
                relative_shard_path.clone().concat(": This is a file, but it should be a directory."),
            NixpkgsProblem::InvalidShardName { relative_shard_path, shard_name } =>
                relative_shard_path.clone().concat(": Invalid directory name \"").concat(
                    shard_name.as_str(),
                ).concat(
                    "\", must be at most 2 ASCII characters consisting of a-z, 0-9, \"-\" or \"_\".",
                ),
            NixpkgsProblem::PackageNonDir { relative_package_dir } =>
                relative_package_dir.clone().concat(
                    ": This path is a file, but it should be a directory.",
                ),
            NixpkgsProblem::CaseSensitiveDuplicate { relative_shard_path, first, second } =>
                relative_shard_path.clone().concat(
                    ": Duplicate case-sensitive package directories ",
                ).concat(debug_quoted(first.as_str()).as_str()).concat(" and ").concat(
                    debug_quoted(second.as_str()).as_str(),
                ).concat("."),
            NixpkgsProblem::InvalidPackageName { relative_package_dir, package_name } =>
                relative_package_dir.clone().concat(": Invalid package directory name \"").concat(
                    package_name.as_str(),
                ).concat(
                    "\", must be ASCII characters consisting of a-z, A-Z, 0-9, \"-\" or \"_\".",
                ),
            NixpkgsProblem::IncorrectShard { relative_package_dir, correct_relative_package_dir } =>
                relative_package_dir.clone().concat(
                    ": Incorrect directory location, should be ",
                ).concat(correct_relative_package_dir.as_str()).concat(" instead."),
            NixpkgsProblem::PackageNixNonExistent { relative_package_dir } =>
                relative_package_dir.clone().concat(": Missing required \"package.nix\" file."),
            NixpkgsProblem::PackageNixDir { relative_package_dir } =>
                relative_package_dir.clone().concat(": \"package.nix\" must be a file."),
            NixpkgsProblem::UndefinedAttr { relative_package_file, package_name } =>
                String::from_str("pkgs.").concat(package_name.as_str()).concat(
                    ": This attribute is not defined but it should be defined automatically as ",
                ).concat(relative_package_file.as_str()),
            NixpkgsProblem::WrongCallPackage { relative_package_file, package_name } =>
                String::from_str("pkgs.").concat(package_name.as_str()).concat(
                    ": This attribute is manually defined (most likely in pkgs/top-level/all-packages.nix), which is only allowed if the definition is of the form `pkgs.callPackage ",
                ).concat(relative_package_file.as_str()).concat(
                    " { ... }` with a non-empty second argument.",
                ),
            NixpkgsProblem::WrongCallPackagePath {
                package_name,
                file,
                line,
                column,
                actual_path,
                expected_path,
            } => {
                let expected = create_path_expr(file.as_str(), expected_path.as_str());
                let actual = create_path_expr(file.as_str(), actual_path.as_str());
                must_be_defined_like_string(package_name.as_str(), expected.as_str()).concat(
                    ": The first `callPackage` argument is the wrong path.\n  It is defined in ",
                ).concat(file.as_str()).concat(":").concat(decimal_string(*line).as_str()).concat(
                    ":",
                ).concat(decimal_string(*column).as_str()).concat(" as\n\n    ").concat(
                    package_name.as_str(),
                ).concat(" = callPackage ").concat(actual.as_str()).concat(" { /* ... */ };")
            },
            NixpkgsProblem::NonSyntacticCallPackage {
                package_name,
                file,
                line,
                column,
                definition,
            } => {
                let at_column = spaces_string(*column - 1).concat(definition.as_str());
                let shown = indent(dedent(at_column.as_str()).as_str(), "    ");
                let expected = relative_file_for_package(package_name.as_str());
                must_be_defined_like_string(package_name.as_str(), expected.as_str()).concat(
                    ".\n  It is defined in ",
                ).concat(file.as_str()).concat(":").concat(decimal_string(*line).as_str()).concat(
                    " as\n\n",
                ).concat(shown.as_str())
            },
            NixpkgsProblem::NonDerivation { relative_package_file, package_name } =>
                String::from_str("pkgs.").concat(package_name.as_str()).concat(
                    ": This attribute defined by ",
                ).concat(relative_package_file.as_str()).concat(" is not a derivation"),
            NixpkgsProblem::OutsideSymlink { relative_package_dir, subpath } =>
                relative_package_dir.clone().concat(": Path ").concat(subpath.as_str()).concat(
                    " is a symlink pointing to a path outside the directory of that package.",
                ),
            NixpkgsProblem::UnresolvableSymlink { relative_package_dir, subpath, io_error } =>
                relative_package_dir.clone().concat(": Path ").concat(subpath.as_str()).concat(
                    " is a symlink which cannot be resolved: ",
                ).concat(io_error.as_str()).concat("."),
            NixpkgsProblem::PathInterpolation { relative_package_dir, subpath, line, text } =>
                relative_package_dir.clone().concat(": File ").concat(subpath.as_str()).concat(
                    " at line ",
                ).concat(decimal_string(*line).as_str()).concat(
                    " contains the path expression \"",
                ).concat(text.as_str()).concat(
                    "\", which is not yet supported and may point outside the directory of that package.",
                ),
            NixpkgsProblem::SearchPath { relative_package_dir, subpath, line, text } =>
                relative_package_dir.clone().concat(": File ").concat(subpath.as_str()).concat(
                    " at line ",
                ).concat(decimal_string(*line).as_str()).concat(
                    " contains the nix search path expression \"",
                ).concat(text.as_str()).concat(
                    "\" which may point outside the directory of that package.",
                ),
            NixpkgsProblem::OutsidePathReference { relative_package_dir, subpath, line, text } =>
                relative_package_dir.clone().concat(": File ").concat(subpath.as_str()).concat(
                    " at line ",
                ).concat(decimal_string(*line).as_str()).concat(
                    " contains the path expression \"",
                ).concat(text.as_str()).concat(
                    "\" which may point outside the directory of that package.",
                ),
            NixpkgsProblem::UnresolvablePathReference {
                relative_package_dir,
                subpath,
                line,
                text,
                io_error,
            } =>
                relative_package_dir.clone().concat(": File ").concat(subpath.as_str()).concat(
                    " at line ",
                ).concat(decimal_string(*line).as_str()).concat(
                    " contains the path expression \"",
                ).concat(text.as_str()).concat("\" which cannot be resolved: ").concat(
                    io_error.as_str(),
                ).concat("."),
            NixpkgsProblem::MovedOutOfByName { package_name, call_package_path, empty_arg } => {
                let arg = call_package_arg_string(call_package_path);
                let head = String::from_str("pkgs.").concat(package_name.as_str()).concat(
                    ": This top-level package was previously defined in ",
                ).concat(relative_file_for_package(package_name.as_str()).as_str()).concat(
                    ", but is now manually defined as `callPackage ",
                ).concat(arg.as_str());
                if *empty_arg {
                    head.concat(
                        " { }` (e.g. in `pkgs/top-level/all-packages.nix`). Please move the package back and remove the manual `callPackage`.",
                    )
                } else {
                    head.concat(
                        " { ... }` (e.g. in `pkgs/top-level/all-packages.nix`). While the manual `callPackage` is still needed, the package files should be moved back to ",
                    ).concat(relative_dir_for_package(package_name.as_str()).as_str()).concat(".")
                }
            },
            NixpkgsProblem::NewPackageNotUsingByName { package_name, call_package_path, empty_arg } => {
                let arg = call_package_arg_string(call_package_path);
                let extra = if *empty_arg {
                    "Since the second `callPackage` argument is `{ }`, no manual `callPackage` (e.g. in `pkgs/top-level/all-packages.nix`) is needed anymore."
                } else {
                    "Since the second `callPackage` argument is not `{ }`, the manual `callPackage` (e.g. in `pkgs/top-level/all-packages.nix`) is still needed."
                };
                String::from_str("pkgs.").concat(package_name.as_str()).concat(
                    ": This is a new top-level package of the form `callPackage ",
                ).concat(arg.as_str()).concat(" { }`. Please define it in ").concat(
                    relative_file_for_package(package_name.as_str()).as_str(),
                ).concat(" instead. See `pkgs/by-name/README.md` for more details. ").concat(extra)
            },
            NixpkgsProblem::InternalCallPackageUsed { attr_name } =>
                String::from_str("pkgs.").concat(attr_name.as_str()).concat(
                    ": This attribute is defined using `_internalCallByNamePackageFile`, which is an internal function not intended for manual use.",
                ),
            NixpkgsProblem::CannotDetermineAttributeLocation { attr_name } =>
                String::from_str("pkgs.").concat(attr_name.as_str()).concat(
                    ": Cannot determine the location of this attribute using `builtins.unsafeGetAttrPos`.",
                ),
        }
    }
}

} // verus!
