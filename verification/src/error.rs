//! Construction-time errors of the term model.

use vstd::prelude::*;

verus! {

/// Why a checked constructor refused its input.
///
/// Each variant carries the offending text, so a failure that escapes to the
/// top still names the input that was rejected.
#[derive(Clone, Debug)]
pub enum TermError {
    /// The text is not a syntactically valid resource identifier.
    MalformedIri(String),
    /// The text is not a valid language tag.
    MalformedLangTag(String),
    /// The text is not a valid variable name.
    MalformedVariableName(String),
}

impl TermError {
    /// The offending text carried by this error.
    pub fn offending_text(&self) -> (r: &str)
        ensures
            r@ == self.offending(),
    {
        match self {
            TermError::MalformedIri(s) => s.as_str(),
            TermError::MalformedLangTag(s) => s.as_str(),
            TermError::MalformedVariableName(s) => s.as_str(),
        }
    }

    /// The offending text, as a sequence of characters.
    pub open spec fn offending(&self) -> Seq<char> {
        match self {
            TermError::MalformedIri(s) => s@,
            TermError::MalformedLangTag(s) => s@,
            TermError::MalformedVariableName(s) => s@,
        }
    }
}

} // verus!
