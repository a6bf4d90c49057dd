//! Directive-driven resolver binding for GraphQL schemas: a typed configuration
//! model read from schema text, a registry of named resolvers, and a static
//! detector of unbatched resolvers in list context.

pub mod config;
pub mod context;
pub mod directive;
pub mod document;
pub mod engine;
pub mod error;
pub mod json;
pub mod n1;
pub mod parser;
pub mod reader;
pub mod registry;
pub mod server;
pub mod tables;
pub mod text;

pub use config::{
    ArgumentConfig, ArgumentMapping, FieldConfig, FieldType, GraphQLConfig, ResolverConfig,
    TypeConfig,
};
pub use context::ResolverContext;
pub use error::{N1Error, ResolverError};
pub use n1::N1Detector;
pub use parser::{parse_sdl, ParseError};
pub use registry::{BatchResolverRegistration, ResolverRegistration, TraitRegistry};
pub use server::{GraphQLServerBuilder, ServerError, ValidatedServerBuilder};
