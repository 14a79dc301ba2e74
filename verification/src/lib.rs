//! A schema-driven command-line argument parser: a schema of field
//! descriptors is compiled into a parser plan with its help text, and the
//! plan is matched against raw tokens to give a typed record.
pub mod text;
pub mod schema;
pub mod names;
pub mod help;
pub mod error;
pub mod dedupe;
pub mod plan;
pub mod compile;
pub mod record;
pub mod coerce;
pub mod matcher;
pub mod laws;

pub use crate::compile::derive_parser;
pub use crate::dedupe::dedupe;
pub use crate::error::{ParseError, SchemaError};
pub use crate::help::{get_max_width, to_help, ArgView};
pub use crate::names::to_arg_name;
pub use crate::plan::{DerivedArgument, ParserPlan};
pub use crate::record::{Outcome, ParsedRecord, Value};
pub use crate::schema::{ArgType, ElementType, FieldDescriptor, Schema, ValueKind};
