//! Crate-wide error types.

use vstd::prelude::*;
use crate::openapi::StatusCode;

verus! {

/// Errors during documentation generation.
///
/// In some cases there is not enough contextual information to determine
/// whether an error is indeed an error; in these cases the error is
/// reported anyway, just to be sure.
#[derive(Debug)]
pub enum Error {
    /// The named parameter does not exist for the operation.
    ParameterNotExists(String),
    /// The default response already exists for the operation.
    DefaultResponseExists,
    /// The response for the given status already exists for the operation.
    ResponseExists(StatusCode),
    /// The named operation already exists for the path.
    OperationExists(String, &'static str),
    /// Duplicate request body for the operation.
    DuplicateRequestBody,
    /// Duplicate parameter for the operation.
    DuplicateParameter(String),
}

/// The view of an [`Error`].
pub ghost enum ErrorView {
    ParameterNotExists(Seq<char>),
    DefaultResponseExists,
    ResponseExists(StatusCode),
    OperationExists(Seq<char>, Seq<char>),
    DuplicateRequestBody,
    DuplicateParameter(Seq<char>),
}

impl View for Error {
    type V = ErrorView;

    open spec fn view(&self) -> ErrorView {
        match self {
            Error::ParameterNotExists(name) => ErrorView::ParameterNotExists(name@),
            Error::DefaultResponseExists => ErrorView::DefaultResponseExists,
            Error::ResponseExists(code) => ErrorView::ResponseExists(*code),
            Error::OperationExists(path, op) => ErrorView::OperationExists(path@, op@),
            Error::DuplicateRequestBody => ErrorView::DuplicateRequestBody,
            Error::DuplicateParameter(name) => ErrorView::DuplicateParameter(name@),
        }
    }
}

} // verus!
