//! Metadata resolution for a federated query engine.
//!
//! The engine sits in front of several heterogeneous data connectors,
//! each reachable through a uniform query/mutation protocol. Users
//! declare their domain model (object types, scalar types,
//! filter-predicate "boolean-expression" types, data connectors) in a
//! declarative schema; this library cross-validates every reference,
//! reconciles the declared logical semantics with each connector's
//! capabilities, and emits resolved metadata that a schema builder and
//! a query executor consume.
//!
//! The boolean-expression (filter-predicate) resolution stage is
//! specified and proved in depth in [`boolean_expressions`]; connector
//! request preparation and response handling are in [`ndc`].

pub mod boolean_expressions;
pub mod errors;
pub mod graphql_names;
pub mod metadata;
pub mod names;
pub mod ndc;
pub mod qmap;

pub use boolean_expressions::object::resolve_object_boolean_expression_type;
pub use boolean_expressions::output::BooleanExpressionGraphqlConfig;
pub use boolean_expressions::output::ComparisonExpressionInfo;
pub use boolean_expressions::output::ResolvedObjectBooleanExpressionType;
pub use errors::BooleanExpressionError;
pub use errors::Error;
pub use names::QualifiedName;
pub use names::QualifiedNameView;
pub use ndc::DataConnectorLink;
pub use qmap::QualifiedMap;
