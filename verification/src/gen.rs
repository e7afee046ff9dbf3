//! The generation context: it gathers the non-fatal errors that the
//! transform helpers record, behind a switchable filter.

use vstd::prelude::*;
use crate::error::{Error, ErrorView};
use crate::transform::filter_no_duplicate_response;

verus! {

/// Which recorded errors the context keeps.
#[derive(Debug, Clone, Copy, PartialEq, Eq, Structural)]
pub enum ErrorFilter {
    /// Keep every error.
    All,
    /// Drop the errors that say a response already exists; kept for the
    /// bulk helpers that add a default response wherever one is missing.
    NoDuplicateResponse,
}

/// Whether the filter lets an error through.
pub open spec fn filter_allows(filter: ErrorFilter, err: ErrorView) -> bool {
    match filter {
        ErrorFilter::All => true,
        ErrorFilter::NoDuplicateResponse => !(err is DefaultResponseExists
            || err is ResponseExists),
    }
}

/// A context passed through a chain of transforms.  Errors are recorded
/// here rather than aborting the chain.
#[derive(Debug)]
pub struct GenContext {
    pub errors: Vec<Error>,
    pub show_error: ErrorFilter,
}

/// The view of a [`GenContext`].
#[verifier::ext_equal]
pub ghost struct GenContextView {
    pub errors: Seq<ErrorView>,
    pub show_error: ErrorFilter,
}

impl View for GenContext {
    type V = GenContextView;

    open spec fn view(&self) -> GenContextView {
        GenContextView {
            errors: Seq::new(self.errors@.len(), |i: int| self.errors@[i]@),
            show_error: self.show_error,
        }
    }
}

/// The context after recording one optional error: the error is appended
/// when the filter lets it through, and dropped otherwise.
pub open spec fn context_record(ctx: GenContextView, err: Option<ErrorView>) -> GenContextView {
    match err {
        None => ctx,
        Some(e) => if filter_allows(ctx.show_error, e) {
            GenContextView { errors: ctx.errors.push(e), show_error: ctx.show_error }
        } else {
            ctx
        },
    }
}

impl GenContext {
    /// Create a context with no errors and the filter that keeps all of
    /// them.
    pub fn new() -> (r: Self)
        ensures
            r@.errors == Seq::<ErrorView>::empty(),
            r@.show_error == ErrorFilter::All,
    {
        let r = GenContext { errors: Vec::new(), show_error: ErrorFilter::All };
        proof {
            assert(r@.errors =~= Seq::<ErrorView>::empty());
        }
        r
    }

    /// Record an error.  The current filter decides whether it is kept.
    pub fn error(&mut self, error: Error)
        ensures
            final(self)@ == context_record(old(self)@, Some(error@)),
    {
        let ghost v0 = self@;
        let keep = match self.show_error {
            ErrorFilter::All => true,
            ErrorFilter::NoDuplicateResponse => filter_no_duplicate_response(&error),
        };
        if keep {
            self.errors.push(error);
            proof {
                assert(self@.errors =~= v0.errors.push(error@));
                assert(self@ =~= context_record(v0, Some(error@)));
            }
        }
    }

    /// Put the filter back to keeping every error.
    pub fn reset_error_filter(&mut self)
        ensures
            final(self)@.errors == old(self)@.errors,
            final(self)@.show_error == ErrorFilter::All,
    {
        self.show_error = ErrorFilter::All;
    }
}

} // verus!
