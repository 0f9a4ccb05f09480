//! The cross-reference phase: how each attribute is defined, as the
//! evaluator reports it, against what the by-name tree expects.

use vstd::prelude::*;
use vstd::string::*;
use crate::nixpkgs_problem::{opt_view, NixpkgsProblem, ProblemView};
use crate::structure::{package_file_of, relative_file_for_package};
use crate::text::str_eq;

verus! {

/// How the evaluator found an attribute to be defined.
#[derive(Clone, Debug)]
pub enum AttributeDefinition {
    /// The attribute does not exist.
    Undefined,
    /// The attribute exists, but its source position cannot be found.
    UnknownLocation,
    /// Defined through the evaluator's internal by-name helper.
    InternalHelper,
    /// Defined by the package's own definition file alone.
    ByNameFile { is_derivation: bool },
    /// Defined as `callPackage <path> { ... }` at `file:line:column`; `path`
    /// is relative to the repository root and absent when it is not a literal
    /// path; `empty_arg` says whether the second argument is `{ }`.
    CallPackage {
        file: String,
        line: usize,
        column: usize,
        path: Option<String>,
        empty_arg: bool,
        definition: String,
    },
    /// Defined at `file:line:column` by some other expression, shown as
    /// `definition`.
    Other { file: String, line: usize, column: usize, definition: String },
}

/// The problem with the attribute of the by-name package `name`, if any. A
/// manual `callPackage` of the package's own file is allowed only with a
/// second argument other than `{ }`.
pub open spec fn by_name_attribute_problem(name: Seq<char>, d: AttributeDefinition) -> Option<
    ProblemView,
> {
    match d {
        AttributeDefinition::Undefined => Some(
            ProblemView::UndefinedAttr { relative_package_file: package_file_of(name), package_name: name },
        ),
        AttributeDefinition::UnknownLocation => Some(
            ProblemView::CannotDetermineAttributeLocation { attr_name: name },
        ),
        AttributeDefinition::InternalHelper => Some(
            ProblemView::InternalCallPackageUsed { attr_name: name },
        ),
        AttributeDefinition::ByNameFile { is_derivation } => if is_derivation {
            None
        } else {
            Some(
                ProblemView::NonDerivation {
                    relative_package_file: package_file_of(name),
                    package_name: name,
                },
            )
        },
        AttributeDefinition::CallPackage { file, line, column, path, empty_arg, definition } =>
            match path {
            Some(p) => if p@ == package_file_of(name) {
                if empty_arg {
                    Some(
                        ProblemView::WrongCallPackage {
                            relative_package_file: package_file_of(name),
                            package_name: name,
                        },
                    )
                } else {
                    None
                }
            } else {
                Some(
                    ProblemView::WrongCallPackagePath {
                        package_name: name,
                        file: file@,
                        line: line as nat,
                        column: column as nat,
                        actual_path: p@,
                        expected_path: package_file_of(name),
                    },
                )
            },
            None => Some(
                ProblemView::NonSyntacticCallPackage {
                    package_name: name,
                    file: file@,
                    line: line as nat,
                    column: column as nat,
                    definition: definition@,
                },
            ),
        },
        AttributeDefinition::Other { file, line, column, definition } => Some(
            ProblemView::NonSyntacticCallPackage {
                package_name: name,
                file: file@,
                line: line as nat,
                column: column as nat,
                definition: definition@,
            },
        ),
    }
}

/// The problem with the attribute `name` that no by-name directory backs,
/// given whether the package was in the by-name tree before.
pub open spec fn manual_attribute_problem(
    name: Seq<char>,
    d: AttributeDefinition,
    previously_by_name: bool,
) -> Option<ProblemView> {
    match d {
        AttributeDefinition::InternalHelper => Some(
            ProblemView::InternalCallPackageUsed { attr_name: name },
        ),
        AttributeDefinition::CallPackage { path, empty_arg, .. } => if previously_by_name {
            Some(
                ProblemView::MovedOutOfByName {
                    package_name: name,
                    call_package_path: opt_view(path),
                    empty_arg,
                },
            )
        } else {
            Some(
                ProblemView::NewPackageNotUsingByName {
                    package_name: name,
                    call_package_path: opt_view(path),
                    empty_arg,
                },
            )
        },
        _ => None,
    }
}

pub open spec fn opt_problem_view(p: Option<NixpkgsProblem>) -> Option<ProblemView> {
    match p {
        Some(q) => Some(q@),
        None => None,
    }
}

/// Checks the attribute of the by-name package `package_name`.
pub fn check_by_name_attribute(package_name: &str, d: &AttributeDefinition) -> (r: Option<
    NixpkgsProblem,
>)
    ensures
        opt_problem_view(r) == by_name_attribute_problem(package_name@, *d),
{
    let name = package_name.to_owned();
    match d {
        AttributeDefinition::Undefined => Some(
            NixpkgsProblem::UndefinedAttr {
                relative_package_file: relative_file_for_package(package_name),
                package_name: name,
            },
        ),
        AttributeDefinition::UnknownLocation => Some(
            NixpkgsProblem::CannotDetermineAttributeLocation { attr_name: name },
        ),
        AttributeDefinition::InternalHelper => Some(
            NixpkgsProblem::InternalCallPackageUsed { attr_name: name },
        ),
        AttributeDefinition::ByNameFile { is_derivation } => if *is_derivation {
            None
        } else {
            Some(
                NixpkgsProblem::NonDerivation {
                    relative_package_file: relative_file_for_package(package_name),
                    package_name: name,
                },
            )
        },
        AttributeDefinition::CallPackage { file, line, column, path, empty_arg, definition } =>
            match path {
            Some(p) => {
                let expected = relative_file_for_package(package_name);
                if str_eq(p.as_str(), expected.as_str()) {
                    if *empty_arg {
                        Some(
                            NixpkgsProblem::WrongCallPackage {
                                relative_package_file: expected,
                                package_name: name,
                            },
                        )
                    } else {
                        None
                    }
                } else {
                    Some(
                        NixpkgsProblem::WrongCallPackagePath {
                            package_name: name,
                            file: file.clone(),
                            line: *line,
                            column: *column,
                            actual_path: p.clone(),
                            expected_path: expected,
                        },
                    )
                }
            },
            None => Some(
                NixpkgsProblem::NonSyntacticCallPackage {
                    package_name: name,
                    file: file.clone(),
                    line: *line,
                    column: *column,
                    definition: definition.clone(),
                },
            ),
        },
        AttributeDefinition::Other { file, line, column, definition } => Some(
            NixpkgsProblem::NonSyntacticCallPackage {
                package_name: name,
                file: file.clone(),
                line: *line,
                column: *column,
                definition: definition.clone(),
            },
        ),
    }
}

fn clone_path(path: &Option<String>) -> (r: Option<String>)
    ensures
        opt_view(r) == opt_view(*path),
{
    match path {
        Some(p) => Some(p.clone()),
        None => None,
    }
}

/// Checks the attribute `attr_name` that no by-name directory backs;
/// `previously_by_name` is the history's answer for it.
pub fn check_manual_attribute(
    attr_name: &str,
    d: &AttributeDefinition,
    previously_by_name: bool,
) -> (r: Option<NixpkgsProblem>)
    ensures
        opt_problem_view(r) == manual_attribute_problem(attr_name@, *d, previously_by_name),
{
    let name = attr_name.to_owned();
    match d {
        AttributeDefinition::InternalHelper => Some(
            NixpkgsProblem::InternalCallPackageUsed { attr_name: name },
        ),
        AttributeDefinition::CallPackage { path, empty_arg, .. } => if previously_by_name {
            Some(
                NixpkgsProblem::MovedOutOfByName {
                    package_name: name,
                    call_package_path: clone_path(path),
                    empty_arg: *empty_arg,
                },
            )
        } else {
            Some(
                NixpkgsProblem::NewPackageNotUsingByName {
                    package_name: name,
                    call_package_path: clone_path(path),
                    empty_arg: *empty_arg,
                },
            )
        },
        _ => None,
    }
}

} // verus!
