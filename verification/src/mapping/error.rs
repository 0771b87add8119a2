//! What a lookup in the mapping can fail with.

use crate::text::{from_chars, push_str_chars};
use vstd::prelude::*;

verus! {

/// A name that the mapping does not hold.
#[derive(Debug, PartialEq, Eq)]
pub enum MappingError {
    /// No method is listed under this name.
    MethodNotFound(String),
    /// Methods are listed under the name, but none with the signature.
    SignatureNotFound { name: String, signature: String },
    /// No field is listed under this name.
    FieldNotFound(String),
    /// No class is listed under this name.
    ClassNotFound(String),
}

/// What a `MappingError` holds.
pub enum MappingErrorView {
    MethodNotFound(Seq<char>),
    SignatureNotFound { name: Seq<char>, signature: Seq<char> },
    FieldNotFound(Seq<char>),
    ClassNotFound(Seq<char>),
}

impl View for MappingError {
    type V = MappingErrorView;

    open spec fn view(&self) -> MappingErrorView {
        match self {
            MappingError::MethodNotFound(name) => MappingErrorView::MethodNotFound(name@),
            MappingError::SignatureNotFound { name, signature } => {
                MappingErrorView::SignatureNotFound { name: name@, signature: signature@ }
            },
            MappingError::FieldNotFound(name) => MappingErrorView::FieldNotFound(name@),
            MappingError::ClassNotFound(name) => MappingErrorView::ClassNotFound(name@),
        }
    }
}

/// The text that `MappingError::message` gives.
pub open spec fn mapping_error_text(error: MappingErrorView) -> Seq<char> {
    match error {
        MappingErrorView::MethodNotFound(name) => name + " method not found"@,
        MappingErrorView::SignatureNotFound { name, signature } => name
            + " method with signature "@ + signature + " not found"@,
        MappingErrorView::FieldNotFound(name) => name + " field not found"@,
        MappingErrorView::ClassNotFound(name) => name + " java class not found"@,
    }
}

impl MappingError {
    /// A line that says which name was not found, and as what.
    pub fn message(&self) -> (text: String)
        ensures
            text@ == mapping_error_text(self@),
    {
        let mut out: Vec<char> = Vec::new();
        match self {
            MappingError::MethodNotFound(name) => {
                push_str_chars(&mut out, name.as_str());
                push_str_chars(&mut out, " method not found");
            },
            MappingError::SignatureNotFound { name, signature } => {
                push_str_chars(&mut out, name.as_str());
                push_str_chars(&mut out, " method with signature ");
                push_str_chars(&mut out, signature.as_str());
                push_str_chars(&mut out, " not found");
            },
            MappingError::FieldNotFound(name) => {
                push_str_chars(&mut out, name.as_str());
                push_str_chars(&mut out, " field not found");
            },
            MappingError::ClassNotFound(name) => {
                push_str_chars(&mut out, name.as_str());
                push_str_chars(&mut out, " java class not found");
            },
        }
        let n = out.len();
        let text = from_chars(&out, 0, n);
        assert(out@.subrange(0, n as int) == out@);
        assert(out@ =~= mapping_error_text(self@));
        text
    }
}

} // verus!
