//! What can go wrong while source text is generated.

use vstd::prelude::*;

verus! {

/// A failure of code generation. Both variants report an inconsistency in
/// the input that an earlier stage should have ruled out.
#[derive(Clone, Copy, Debug, PartialEq, Eq, Structural)]
pub enum CodegenError {
    /// A base or array type was handed to the emitter of type declarations.
    NonBaseType,
    /// The raw quantifier and the raw return shape did not come together.
    UnexpectedRawQuantifier,
}

impl CodegenError {
    /// The text that describes the failure.
    pub open spec fn message_text(self) -> Seq<char> {
        match self {
            CodegenError::NonBaseType =>
                "Got base or array type while generating custom types. This is a bug."@,
            CodegenError::UnexpectedRawQuantifier =>
                "Got raw quantifier while generating non-raw return type. This is a bug."@,
        }
    }

    /// Describes the failure in words.
    pub fn message(&self) -> (res: String)
        ensures
            res@ == self.message_text(),
    {
        match self {
            CodegenError::NonBaseType => String::from_str(
                "Got base or array type while generating custom types. This is a bug.",
            ),
            CodegenError::UnexpectedRawQuantifier => String::from_str(
                "Got raw quantifier while generating non-raw return type. This is a bug.",
            ),
        }
    }
}

} // verus!
