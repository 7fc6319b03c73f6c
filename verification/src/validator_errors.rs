//! The closed set of validation failures a code-system grammar can report.
//!
//! `InvalidCodeLength` and `InvalidCodeContents` describe a single offending
//! code; `InvalidCodelist` aggregates one `(code, reason)` pair per invalid
//! entry of a whole list, in scan order. Rendering to a human-readable string
//! is a verified method (`render`) whose output is pinned down, character for
//! character, by `spec_render`.

use vstd::prelude::*;
use vstd::string::*;

verus! {

/// A validation failure: either a single code broke a rule (and which rule),
/// or a whole list contains one or more invalid codes.
#[derive(Debug)]
pub enum CodeListValidatorError {
    /// The code's length is outside the coding system's bounds.
    InvalidCodeLength { code: String, reason: String },
    /// The code's length is in bounds but its shape breaks the grammar.
    InvalidCodeContents { code: String, reason: String },
    /// Aggregate failure over a list: one `(code, reason)` pair per invalid
    /// entry, in the order the list was scanned. Never empty: an empty set of
    /// failures is represented as success, not as an empty aggregate.
    InvalidCodelist { reasons: Vec<(String, String)> },
}

/// The rendering of a failure of a single code's length.
pub open spec fn spec_render_length(code: Seq<char>, reason: Seq<char>) -> Seq<char> {
    "Code "@ + code + " is an invalid length. Reason: "@ + reason
}

/// The rendering of a failure of a single code's shape.
pub open spec fn spec_render_contents(code: Seq<char>, reason: Seq<char>) -> Seq<char> {
    "Code "@ + code + " contents is invalid. Reason: "@ + reason
}

/// The reason lines of an aggregate failure, each on a line of its own.
pub open spec fn spec_render_reason_lines(reasons: Seq<Seq<char>>) -> Seq<char>
    decreases reasons.len(),
{
    if reasons.len() == 0 {
        Seq::<char>::empty()
    } else {
        spec_render_reason_lines(reasons.drop_last()) + "\n"@ + reasons.last()
    }
}

/// The view of each reason string of an aggregate failure.
pub open spec fn reason_views(reasons: Seq<(String, String)>) -> Seq<Seq<char>> {
    reasons.map_values(|p: (String, String)| p.1@)
}

/// The stable human-readable rendering of a validation failure.
pub open spec fn spec_render(e: &CodeListValidatorError) -> Seq<char> {
    match e {
        CodeListValidatorError::InvalidCodeLength { code, reason } => spec_render_length(
            code@,
            reason@,
        ),
        CodeListValidatorError::InvalidCodeContents { code, reason } => spec_render_contents(
            code@,
            reason@,
        ),
        CodeListValidatorError::InvalidCodelist { reasons } => "Invalid codelist. Reasons:"@
            + spec_render_reason_lines(reason_views(reasons@)),
    }
}

impl CodeListValidatorError {
    /// A length failure for `code`, explained by `reason`.
    pub fn invalid_code_length(code: &str, reason: String) -> (e: Self)
        ensures
            e matches CodeListValidatorError::InvalidCodeLength { code: c, reason: r } && c@
                == code@ && r == reason,
    {
        CodeListValidatorError::InvalidCodeLength { code: code.to_owned(), reason }
    }

    /// A structural failure for `code`, explained by `reason`.
    pub fn invalid_code_contents(code: &str, reason: String) -> (e: Self)
        ensures
            e matches CodeListValidatorError::InvalidCodeContents { code: c, reason: r } && c@
                == code@ && r == reason,
    {
        CodeListValidatorError::InvalidCodeContents { code: code.to_owned(), reason }
    }

    /// An aggregate failure carrying every invalid entry of a scanned list.
    /// An empty list of failures is success and may not be wrapped here.
    pub fn invalid_codelist(reasons: Vec<(String, String)>) -> (e: Self)
        requires
            reasons@.len() > 0,
        ensures
            e matches CodeListValidatorError::InvalidCodelist { reasons: r } && r == reasons,
    {
        CodeListValidatorError::InvalidCodelist { reasons }
    }

    /// Render this failure as its stable human-readable string.
    pub fn render(&self) -> (out: String)
        ensures
            out@ == spec_render(self),
    {
        match self {
            CodeListValidatorError::InvalidCodeLength { code, reason } => {
                let mut out = String::from_str("Code ");
                out.append(code.as_str());
                out.append(" is an invalid length. Reason: ");
                out.append(reason.as_str());
                out
            },
            CodeListValidatorError::InvalidCodeContents { code, reason } => {
                let mut out = String::from_str("Code ");
                out.append(code.as_str());
                out.append(" contents is invalid. Reason: ");
                out.append(reason.as_str());
                out
            },
            CodeListValidatorError::InvalidCodelist { reasons } => {
                let mut out = String::from_str("Invalid codelist. Reasons:");
                let mut i: usize = 0;
                while i < reasons.len()
                    invariant
                        i <= reasons@.len(),
                        out@ == "Invalid codelist. Reasons:"@ + spec_render_reason_lines(
                            reason_views(reasons@.take(i as int)),
                        ),
                    decreases reasons@.len() - i,
                {
                    out.append("\n");
                    out.append(reasons[i].1.as_str());
                    proof {
                        let full = reason_views(reasons@.take(i as int + 1));
                        assert(full.drop_last() =~= reason_views(reasons@.take(i as int)));
                        assert(full.last() == reasons@[i as int].1@);
                    }
                    i = i + 1;
                }
                proof {
                    assert(reasons@.take(reasons@.len() as int) =~= reasons@);
                }
                out
            },
        }
    }
}

} // verus!
