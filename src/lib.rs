//! Analysis and code-shape generation for deriving a metric-point conversion
//! from an annotated record type.
//!
//! The host reads a record definition into [`model::RecordDefinition`]; this
//! crate classifies its fields, resolves the measurement name, propagates the
//! generic bounds and produces the ordered statements of the conversion body.
mod text;

pub mod model;
pub mod classify;
pub mod measurement;
pub mod generate;
pub mod point;
