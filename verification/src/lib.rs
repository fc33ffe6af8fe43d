//! Request validation and ride-mode transition resolution.
//!
//! A raw request document is checked against the field schema of its record
//! type, turned into a typed request, and resolved into the number of forward
//! steps that lead from the bike's current ride mode to the requested one.
//!
//! - [`schema`]: the required fields of a record type, derived from its
//!   declaration, and the registry of the derived schemas.
//! - [`document`]: a raw JSON document, as far as it is read.
//! - [`validate`]: which required fields a document misses.
//! - [`request`]: the typed request, its schema and its declaration.
//! - [`modes`]: the circular ordering of ride modes and the forward distance
//!   on it.
//! - [`pipeline`]: the request pipeline as a state machine that says what it
//!   waits for and takes the results as events.
//! - [`driver`]: what holds of every run of the pipeline.
//! - [`response`], [`wire`]: the responses and their JSON texts.
//! - [`error`], [`text`]: error types and string helpers.

pub mod document;
pub mod driver;
pub mod error;
pub mod modes;
pub mod pipeline;
pub mod request;
pub mod response;
pub mod schema;
pub mod text;
pub mod validate;
pub mod wire;

pub use crate::validate::{
    handle_json_request, validate_and_deserialize, validate_json_for_type, MissingFieldsError,
    ValidateFields,
};
