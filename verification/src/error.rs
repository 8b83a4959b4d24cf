//! The failures that a buffer reports to script.
use vstd::prelude::*;

verus! {

/// Why an operation on a buffer failed.
#[derive(Debug, Clone, PartialEq, Eq)]
pub enum Error {
    /// The operation is not valid in the buffer's state, or its arguments are
    /// misaligned or out of bounds.
    Operation,
    /// A byte length is larger than script can address. The text names the
    /// limit that was passed.
    Range(String),
    /// A pending request was cut short.
    Abort,
}

/// An [`Error`] with its text as a sequence of characters.
pub enum ErrorView {
    Operation,
    Range(Seq<char>),
    Abort,
}

impl View for Error {
    type V = ErrorView;

    open spec fn view(&self) -> ErrorView {
        match self {
            Error::Operation => ErrorView::Operation,
            Error::Range(text) => ErrorView::Range(text@),
            Error::Abort => ErrorView::Abort,
        }
    }
}

/// The text of the range error for a length above [`crate::limits::MAX_SAFE_INTEGER`].
pub open spec fn over_max_safe_integer() -> Seq<char> {
    "Over MAX_SAFE_INTEGER"@
}

/// The text of the range error for a length that `usize` cannot hold.
pub open spec fn over_usize() -> Seq<char> {
    "Over usize"@
}

impl Error {
    /// The range error for a length above [`crate::limits::MAX_SAFE_INTEGER`].
    pub fn range_over_max_safe_integer() -> (error: Error)
        ensures
            error@ == ErrorView::Range(over_max_safe_integer()),
    {
        Error::Range("Over MAX_SAFE_INTEGER".to_string())
    }

    /// The range error for a length that `usize` cannot hold.
    pub fn range_over_usize() -> (error: Error)
        ensures
            error@ == ErrorView::Range(over_usize()),
    {
        Error::Range("Over usize".to_string())
    }
}

/// An error that is reported to the device instead of being returned to the
/// caller.
#[derive(Debug, Clone, PartialEq, Eq)]
pub struct ValidationError {
    pub message: String,
}

/// The text of the validation error for a map mode that is neither read nor
/// write.
pub open spec fn invalid_map_mode_flags() -> Seq<char> {
    "Invalid MapModeFlags"@
}

} // verus!
