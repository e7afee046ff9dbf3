//! A fluent, type-driven builder layer for editing in-memory OpenAPI
//! documents (paths, operations, parameters, responses).
//!
//! Transform helpers wrap a part of, or the entirety of, an [`openapi::OpenApi`]
//! document and enable modifications with method chaining in a declarative
//! way.  Non-fatal problems (a duplicate response code, a missing parameter)
//! are recorded into a [`gen::GenContext`] rather than aborting the chain.

pub mod error;
pub mod gen;
pub mod openapi;
pub mod transform;

