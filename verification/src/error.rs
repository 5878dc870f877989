//! The one error type of the library.

use vstd::prelude::*;

verus! {

/// Why an operation on a session failed.
#[derive(Debug, Clone, PartialEq, Eq)]
pub enum ErrorCode {
    /// A text could not be given the bounded form that the native engine
    /// reads. Raised by this library alone, before any native call.
    Unhandled,
    /// The native engine refused a call; the text is its message.
    CompilationError(String),
}

/// What an [`ErrorCode`] is, with its message as a sequence of characters.
pub enum ErrorCodeView {
    Unhandled,
    CompilationError(Seq<char>),
}

impl View for ErrorCode {
    type V = ErrorCodeView;

    open spec fn view(&self) -> ErrorCodeView {
        match self {
            ErrorCode::Unhandled => ErrorCodeView::Unhandled,
            ErrorCode::CompilationError(message) => ErrorCodeView::CompilationError(message@),
        }
    }
}

} // verus!
