//! The resolution error surface. Every error carries the qualified names
//! of the offending entities, enough to render a precise diagnostic
//! without re-deriving source positions. Connector transport errors are a
//! separate family (see [`crate::ndc`]): they occur at request time, not
//! at resolution time.

use vstd::prelude::*;

use crate::names::{QualifiedName, QualifiedNameView};

verus! {

/// What can go wrong while resolving a boolean-expression type.
#[derive(Debug, Clone, PartialEq, Eq)]
pub enum BooleanExpressionError {
    /// The operand names an object type that the object-type stage did
    /// not produce.
    UnknownTypeInObjectBooleanExpressionType { object_type_name: QualifiedName },
    /// A comparable field names a field the underlying object type does
    /// not declare.
    UnknownFieldInObjectBooleanExpressionType {
        field_name: String,
        object_boolean_expression_type: QualifiedName,
    },
    /// A comparable field references a boolean-expression type absent
    /// from the raw declarations.
    BooleanExpressionCouldNotBeFound {
        parent_boolean_expression: QualifiedName,
        child_boolean_expression: QualifiedName,
    },
    /// The underlying object type maps to a connector for which a
    /// comparable scalar field's type carries no operator mapping.
    DataConnectorMappingMissingForField {
        field: String,
        boolean_expression_name: QualifiedName,
        data_connector_name: QualifiedName,
    },
}

#[verifier::ext_equal]
pub enum BooleanExpressionErrorView {
    UnknownTypeInObjectBooleanExpressionType { object_type_name: QualifiedNameView },
    UnknownFieldInObjectBooleanExpressionType {
        field_name: Seq<char>,
        object_boolean_expression_type: QualifiedNameView,
    },
    BooleanExpressionCouldNotBeFound {
        parent_boolean_expression: QualifiedNameView,
        child_boolean_expression: QualifiedNameView,
    },
    DataConnectorMappingMissingForField {
        field: Seq<char>,
        boolean_expression_name: QualifiedNameView,
        data_connector_name: QualifiedNameView,
    },
}

impl DeepView for BooleanExpressionError {
    type V = BooleanExpressionErrorView;

    open spec fn deep_view(&self) -> BooleanExpressionErrorView {
        match self {
            BooleanExpressionError::UnknownTypeInObjectBooleanExpressionType {
                object_type_name,
            } => BooleanExpressionErrorView::UnknownTypeInObjectBooleanExpressionType {
                object_type_name: object_type_name@,
            },
            BooleanExpressionError::UnknownFieldInObjectBooleanExpressionType {
                field_name,
                object_boolean_expression_type,
            } => BooleanExpressionErrorView::UnknownFieldInObjectBooleanExpressionType {
                field_name: field_name@,
                object_boolean_expression_type: object_boolean_expression_type@,
            },
            BooleanExpressionError::BooleanExpressionCouldNotBeFound {
                parent_boolean_expression,
                child_boolean_expression,
            } => BooleanExpressionErrorView::BooleanExpressionCouldNotBeFound {
                parent_boolean_expression: parent_boolean_expression@,
                child_boolean_expression: child_boolean_expression@,
            },
            BooleanExpressionError::DataConnectorMappingMissingForField {
                field,
                boolean_expression_name,
                data_connector_name,
            } => BooleanExpressionErrorView::DataConnectorMappingMissingForField {
                field: field@,
                boolean_expression_name: boolean_expression_name@,
                data_connector_name: data_connector_name@,
            },
        }
    }
}

/// What can go wrong with the global GraphQL configuration.
#[derive(Debug, Clone, PartialEq, Eq)]
pub enum GraphqlConfigError {
    /// The global filter-input configuration is absent, so no filter
    /// surface can be synthesized.
    MissingFilterInputFieldInGraphqlConfig,
}

#[verifier::ext_equal]
pub enum GraphqlConfigErrorView {
    MissingFilterInputFieldInGraphqlConfig,
}

impl DeepView for GraphqlConfigError {
    type V = GraphqlConfigErrorView;

    open spec fn deep_view(&self) -> GraphqlConfigErrorView {
        match self {
            GraphqlConfigError::MissingFilterInputFieldInGraphqlConfig =>
                GraphqlConfigErrorView::MissingFilterInputFieldInGraphqlConfig,
        }
    }
}

/// A resolution error: reference and consistency errors from the
/// boolean-expression stage, configuration errors, and rejected
/// GraphQL-exposed names.
#[derive(Debug, Clone, PartialEq, Eq)]
pub enum Error {
    BooleanExpressionError { boolean_expression_error: BooleanExpressionError },
    GraphqlConfigError { graphql_config_error: GraphqlConfigError },
    /// A declared GraphQL-exposed name is not a legal GraphQL identifier.
    InvalidGraphQlName { name: String },
}

#[verifier::ext_equal]
pub enum ErrorView {
    BooleanExpressionError { boolean_expression_error: BooleanExpressionErrorView },
    GraphqlConfigError { graphql_config_error: GraphqlConfigErrorView },
    InvalidGraphQlName { name: Seq<char> },
}

impl DeepView for Error {
    type V = ErrorView;

    open spec fn deep_view(&self) -> ErrorView {
        match self {
            Error::BooleanExpressionError { boolean_expression_error } =>
                ErrorView::BooleanExpressionError {
                    boolean_expression_error: boolean_expression_error.deep_view(),
                },
            Error::GraphqlConfigError { graphql_config_error } => ErrorView::GraphqlConfigError {
                graphql_config_error: graphql_config_error.deep_view(),
            },
            Error::InvalidGraphQlName { name } => ErrorView::InvalidGraphQlName { name: name@ },
        }
    }
}

} // verus!
