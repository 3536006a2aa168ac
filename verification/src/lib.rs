//! Generation engine for an incremental builder pattern.
//!
//! Given a declarative description of a record type's fields (names, type
//! shapes, and per-field annotations), the engine classifies each field into a
//! construction strategy and emits an abstract bundle of code fragments: the
//! auxiliary builder type, its initializer, one setter or appender per field,
//! and a validating finalizer. A host front end supplies the field
//! descriptions and renders the fragments back into source text; the engine
//! itself is a pure function from descriptions to fragments.

pub mod classify;
pub mod descriptor;
pub mod fragments;
pub mod generate;
pub mod laws;
pub mod runtime;
pub mod synthesize;
pub mod validate;
