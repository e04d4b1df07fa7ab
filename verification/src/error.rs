//! The error taxonomy of the marshalling and call boundary.
//!
//! Every failure is detected eagerly, aborts the whole call, and names the
//! offending field or tag where one exists.

use vstd::prelude::*;

verus! {

/// A failure of conversion or of the remote call.
#[derive(Clone, PartialEq, Debug)]
pub enum Error {
    /// An input matches no primitive and carries no recognizable type tag.
    UnsupportedHostType,
    /// A type tag or event variant string is present but not recognized.
    InvalidVariantTag(String),
    /// A fixed-size field has the wrong element count.
    ArrayLengthMismatch { field: String, actual: usize },
    /// Conversion of the reserved `BlockSeq` variant was requested.
    UnimplementedConversion,
    /// A procedure produced a value with no host representation.
    UnsupportedOutputValue,
    /// An attribute or element could not be read with its mandated type.
    InvalidField(String),
    /// The external procedure itself failed; the payload is its message.
    ToolCallError(String),
}

/// The mathematical model of an [`Error`].
pub ghost enum ErrorView {
    UnsupportedHostType,
    InvalidVariantTag(Seq<char>),
    ArrayLengthMismatch { field: Seq<char>, actual: nat },
    UnimplementedConversion,
    UnsupportedOutputValue,
    InvalidField(Seq<char>),
    ToolCallError(Seq<char>),
}

impl View for Error {
    type V = ErrorView;

    open spec fn view(&self) -> ErrorView {
        match self {
            Error::UnsupportedHostType => ErrorView::UnsupportedHostType,
            Error::InvalidVariantTag(tag) => ErrorView::InvalidVariantTag(tag@),
            Error::ArrayLengthMismatch { field, actual } => ErrorView::ArrayLengthMismatch {
                field: field@,
                actual: *actual as nat,
            },
            Error::UnimplementedConversion => ErrorView::UnimplementedConversion,
            Error::UnsupportedOutputValue => ErrorView::UnsupportedOutputValue,
            Error::InvalidField(field) => ErrorView::InvalidField(field@),
            Error::ToolCallError(msg) => ErrorView::ToolCallError(msg@),
        }
    }
}

} // verus!
