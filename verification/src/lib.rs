//! A generator for error-info lookups. An enum of errors carries, as metadata,
//! a carrier type and a code prefix on the type and a short code, a carrier
//! code and a client message on each variant. From that the generator writes
//! the implementation of `ToErrorInfo` for the enum: one match arm per
//! variant, each building the `ErrorInfo` record of that variant.
//!
//! The work is done in three steps, each a function with a proved contract:
//! [`schema::SchemaModel::from_definition`] validates the definition,
//! [`dispatch::Dispatch::synthesize`] builds the arms as data, and
//! [`dispatch::Dispatch::render`] writes them out.
//! [`error_info::process_error_info`] runs the three in turn.

pub mod definition;
pub mod dispatch;
pub mod error_info;
pub mod literal;
pub mod render;
pub mod schema;
