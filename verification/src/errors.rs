//! Errors of the code-list container and its metadata operations.

use vstd::prelude::*;
use vstd::string::*;

verus! {

/// An error of a code-list or metadata operation.
#[derive(Debug)]
pub enum CodeListError {
    /// A contributor that was asked to be removed is not recorded.
    ContributorNotFound { contributor: String },
}

/// The stable human-readable rendering of a code-list error.
pub open spec fn spec_render_codelist_error(e: &CodeListError) -> Seq<char> {
    match e {
        CodeListError::ContributorNotFound { contributor } => "Contributor "@ + contributor@
            + " not found"@,
    }
}

impl CodeListError {
    /// A `ContributorNotFound` error for the given contributor.
    pub fn contributor_not_found(contributor: String) -> (e: Self)
        ensures
            e matches CodeListError::ContributorNotFound { contributor: c } && c == contributor,
    {
        CodeListError::ContributorNotFound { contributor }
    }

    /// Render this error as its stable human-readable string.
    pub fn render(&self) -> (out: String)
        ensures
            out@ == spec_render_codelist_error(self),
    {
        match self {
            CodeListError::ContributorNotFound { contributor } => {
                let mut out = String::from_str("Contributor ");
                out.append(contributor.as_str());
                out.append(" not found");
                out
            },
        }
    }
}

} // verus!
