//! Problems with attributes of packages in the by-name tree.

use vstd::prelude::*;
use vstd::string::*;
use crate::structure::{package_file_of, relative_file_for_package};

verus! {

/// What is wrong with an attribute of a by-name package.
#[derive(Clone, Copy, PartialEq, Eq, Debug)]
pub enum ByNameErrorKind {
    /// The attribute does not evaluate to a derivation.
    NonDerivation,
}

/// An attribute of a by-name package, with what is wrong with it.
#[derive(Clone)]
pub struct ByNameError {
    pub attribute_name: String,
    pub kind: ByNameErrorKind,
}

/// A by-name attribute that does not evaluate to a derivation.
#[derive(Clone)]
pub struct ByNameNonDerivation(pub ByNameError);

impl ByNameNonDerivation {
    pub fn new(attribute_name: &str) -> (r: Self)
        ensures
            r.0.attribute_name@ == attribute_name@,
            r.0.kind == ByNameErrorKind::NonDerivation,
    {
        ByNameNonDerivation(
            ByNameError { attribute_name: attribute_name.to_owned(), kind: ByNameErrorKind::NonDerivation },
        )
    }

    /// The text of this problem, as shown to the user.
    pub fn message(&self) -> (r: String)
        ensures
            r@ == "- pkgs."@ + self.0.attribute_name@ + ": This attribute defined by "@
                + package_file_of(self.0.attribute_name@) + " is not a derivation"@,
    {
        let name = self.0.attribute_name.as_str();
        String::from_str("- pkgs.").concat(name).concat(": This attribute defined by ").concat(
            relative_file_for_package(name).as_str(),
        ).concat(" is not a derivation")
    }
}

} // verus!
