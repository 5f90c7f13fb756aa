//! Resolution of an application's configuration from two competing providers:
//! the command line and a layered configuration source.
//!
//! Every field of a configuration type declares how it may be supplied:
//! whether the command line may give it, whether it is mandatory, and whether
//! the merged source stands in where the command line is silent.
//!
//! - [`descriptor`] holds such a declaration, and [`policy`] turns it into one
//!   of five canonical policies.
//! - [`schema`] collects the fields of a configuration type with their
//!   policies, and [`surface`] says what the command line offers for them.
//! - [`cli`] and [`source`] are the two providers as the engine sees them.
//! - [`resolve`](mod@resolve) applies each field's policy to what the
//!   providers hold, and yields the configuration or every error at once.
//! - [`declaration`], [`analysis`] and [`derive`] lead from the declaration of
//!   a struct, with its attributes, to its schema and command line struct.
//! - [`builder`] is the entry point of an application.
//! - [`laws`] states what holds of all of these together.

pub mod analysis;
pub mod builder;
pub mod cli;
pub mod declaration;
pub mod derive;
pub mod descriptor;
pub mod laws;
pub mod policy;
pub mod resolve;
pub mod schema;
pub mod source;
pub mod surface;

pub use crate::analysis::analyze_field;
pub use crate::analysis::FieldInfo;
pub use crate::builder::PlatformConfigBuilder;
pub use crate::cli::CliValues;
pub use crate::derive::platformconfig;
pub use crate::descriptor::FieldDescriptor;
pub use crate::policy::classify;
pub use crate::policy::ClassificationError;
pub use crate::policy::FieldPolicy;
pub use crate::resolve::resolve;
pub use crate::resolve::AggregatedResolutionError;
pub use crate::resolve::ResolutionContext;
pub use crate::resolve::ResolutionError;
pub use crate::resolve::ResolvedConfiguration;
pub use crate::schema::Schema;
pub use crate::schema::SchemaError;
pub use crate::surface::surface;
