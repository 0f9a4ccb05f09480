//! The containment phase: symlinks and path references inside a package
//! directory must stay inside it.

use vstd::prelude::*;
use vstd::string::*;
use crate::nixpkgs_problem::{NixpkgsProblem, ProblemView};
use crate::attributes::opt_problem_view;

verus! {

/// Where a symlink or a path reference led, relative to the repository
/// root after canonicalisation, or the I/O failure that stopped it.
#[derive(Clone, Debug)]
pub enum Resolution {
    Resolved { target: String },
    Failed { io_error: String },
}

/// A path-like expression found at `line` (counted from one) of a source
/// file, with its text.
#[derive(Clone, Debug)]
pub enum PathReference {
    /// A search path, `<...>`.
    SearchPath { line: usize, text: String },
    /// A path built by interpolation.
    Interpolation { line: usize, text: String },
    /// A literal path, resolved against the file's directory.
    Literal { line: usize, text: String, resolution: Resolution },
}

/// `target` is `dir` or lies below it, component by component.
pub open spec fn path_within(target: Seq<char>, dir: Seq<char>) -> bool {
    target == dir || (dir.len() < target.len() && target.take(dir.len() as int) == dir
        && target[dir.len() as int] == '/')
}

/// Whether `target` is `dir` or lies below it.
pub fn is_within(target: &str, dir: &str) -> (r: bool)
    ensures
        r == path_within(target@, dir@),
{
    let n = dir.unicode_len();
    let m = target.unicode_len();
    if m < n {
        return false;
    }
    let mut i: usize = 0;
    while i < n
        invariant
            n == dir@.len(),
            m == target@.len(),
            n <= m,
            i <= n,
            forall|j: int| 0 <= j < i ==> target@[j] == dir@[j],
        decreases n - i,
    {
        if target.get_char(i) != dir.get_char(i) {
            assert(target@.take(n as int)[i as int] != dir@[i as int]);
            return false;
        }
        i = i + 1;
    }
    assert(target@.take(n as int) =~= dir@);
    if m == n {
        assert(target@ =~= dir@);
        true
    } else {
        target.get_char(n) == '/'
    }
}

/// The problem with the symlink `subpath` of the package directory
/// `package_dir`, if any.
pub open spec fn symlink_problem(package_dir: Seq<char>, subpath: Seq<char>, r: Resolution) -> Option<
    ProblemView,
> {
    match r {
        Resolution::Resolved { target } => if path_within(target@, package_dir) {
            None
        } else {
            Some(ProblemView::OutsideSymlink { relative_package_dir: package_dir, subpath })
        },
        Resolution::Failed { io_error } => Some(
            ProblemView::UnresolvableSymlink {
                relative_package_dir: package_dir,
                subpath,
                io_error: io_error@,
            },
        ),
    }
}

/// The problem with a path reference in the file `subpath` of the package
/// directory `package_dir`, if any: search paths and interpolations always
/// are one; a literal path is one when it cannot be resolved or leads
/// outside the directory.
pub open spec fn reference_problem(
    package_dir: Seq<char>,
    subpath: Seq<char>,
    r: PathReference,
) -> Option<ProblemView> {
    match r {
        PathReference::SearchPath { line, text } => Some(
            ProblemView::SearchPath {
                relative_package_dir: package_dir,
                subpath,
                line: line as nat,
                text: text@,
            },
        ),
        PathReference::Interpolation { line, text } => Some(
            ProblemView::PathInterpolation {
                relative_package_dir: package_dir,
                subpath,
                line: line as nat,
                text: text@,
            },
        ),
        PathReference::Literal { line, text, resolution } => match resolution {
            Resolution::Resolved { target } => if path_within(target@, package_dir) {
                None
            } else {
                Some(
                    ProblemView::OutsidePathReference {
                        relative_package_dir: package_dir,
                        subpath,
                        line: line as nat,
                        text: text@,
                    },
                )
            },
            Resolution::Failed { io_error } => Some(
                ProblemView::UnresolvablePathReference {
                    relative_package_dir: package_dir,
                    subpath,
                    line: line as nat,
                    text: text@,
                    io_error: io_error@,
                },
            ),
        },
    }
}

/// Checks the symlink `subpath` of the package directory `package_dir`.
pub fn check_symlink(package_dir: &str, subpath: &str, r: &Resolution) -> (p: Option<
    NixpkgsProblem,
>)
    ensures
        opt_problem_view(p) == symlink_problem(package_dir@, subpath@, *r),
{
    match r {
        Resolution::Resolved { target } => if is_within(target.as_str(), package_dir) {
            None
        } else {
            Some(
                NixpkgsProblem::OutsideSymlink {
                    relative_package_dir: package_dir.to_owned(),
                    subpath: subpath.to_owned(),
                },
            )
        },
        Resolution::Failed { io_error } => Some(
            NixpkgsProblem::UnresolvableSymlink {
                relative_package_dir: package_dir.to_owned(),
                subpath: subpath.to_owned(),
                io_error: io_error.clone(),
            },
        ),
    }
}

/// Checks a path reference found in the file `subpath` of the package
/// directory `package_dir`.
pub fn check_path_reference(package_dir: &str, subpath: &str, r: &PathReference) -> (p: Option<
    NixpkgsProblem,
>)
    ensures
        opt_problem_view(p) == reference_problem(package_dir@, subpath@, *r),
{
    match r {
        PathReference::SearchPath { line, text } => Some(
            NixpkgsProblem::SearchPath {
                relative_package_dir: package_dir.to_owned(),
                subpath: subpath.to_owned(),
                line: *line,
                text: text.clone(),
            },
        ),
        PathReference::Interpolation { line, text } => Some(
            NixpkgsProblem::PathInterpolation {
                relative_package_dir: package_dir.to_owned(),
                subpath: subpath.to_owned(),
                line: *line,
                text: text.clone(),
            },
        ),
        PathReference::Literal { line, text, resolution } => match resolution {
            Resolution::Resolved { target } => if is_within(target.as_str(), package_dir) {
                None
            } else {
                Some(
                    NixpkgsProblem::OutsidePathReference {
                        relative_package_dir: package_dir.to_owned(),
                        subpath: subpath.to_owned(),
                        line: *line,
                        text: text.clone(),
                    },
                )
            },
            Resolution::Failed { io_error } => Some(
                NixpkgsProblem::UnresolvablePathReference {
                    relative_package_dir: package_dir.to_owned(),
                    subpath: subpath.to_owned(),
                    line: *line,
                    text: text.clone(),
                    io_error: io_error.clone(),
                },
            ),
        },
    }
}

} // verus!
