//! Typed, validated client core for the OpenDART financial-disclosure registry:
//! validated primitives, response-envelope resolution and bulk registry ingestion.
//!
//! - [`types`] holds the validated primitives: values that exist only if
//!   they passed their constructor's test.
//! - [`endpoints::envelope`] tells a successful response from a business
//!   failure by the shape of its JSON.
//! - [`endpoints::ingest`] turns the registry's bulk dump, a ZIP archive
//!   with one XML document, into validated records.
//! - [`validate`] holds the checks on the raw text of request fields.

pub mod endpoints;
pub mod error;
pub mod json;
pub mod text;
pub mod types;
pub mod validate;

pub use error::OpenDartError;
