//! The slice of declarative metadata that the boolean-expression stage
//! consumes, together with the finalized outputs of the earlier stages it
//! reads: resolved object types, resolved scalar boolean-expression types,
//! and the raw (not yet fully resolved) boolean-expression declarations
//! used for existence-only forward references.

use vstd::prelude::*;

use crate::names::{QualifiedName, QualifiedNameView};
use crate::qmap::QualifiedMap;

verus! {

// ---------------------------------------------------------------------
// Object types (output of the object-type stage, read-only here)
// ---------------------------------------------------------------------

/// One field of a resolved object type: its name and the name of its type.
#[derive(Debug, Clone, PartialEq, Eq)]
pub struct FieldDefinition {
    pub name: String,
    pub field_type: String,
}

#[verifier::ext_equal]
pub struct FieldDefinitionView {
    pub name: Seq<char>,
    pub field_type: Seq<char>,
}

impl DeepView for FieldDefinition {
    type V = FieldDefinitionView;

    open spec fn deep_view(&self) -> FieldDefinitionView {
        FieldDefinitionView { name: self.name@, field_type: self.field_type@ }
    }
}

/// A resolved object type: its field definitions and the data connectors
/// its physical mapping names.
#[derive(Debug, Clone, PartialEq, Eq)]
pub struct ObjectTypeRepresentation {
    pub fields: Vec<FieldDefinition>,
    pub data_connectors: Vec<QualifiedName>,
}

#[verifier::ext_equal]
pub struct ObjectTypeRepresentationView {
    pub fields: Seq<FieldDefinitionView>,
    pub data_connectors: Seq<QualifiedNameView>,
}

impl DeepView for ObjectTypeRepresentation {
    type V = ObjectTypeRepresentationView;

    open spec fn deep_view(&self) -> ObjectTypeRepresentationView {
        ObjectTypeRepresentationView {
            fields: self.fields.deep_view(),
            data_connectors: self.data_connectors.deep_view(),
        }
    }
}

/// Whether an object type declares a field of the given name.
pub open spec fn object_type_has_field(
    object_type: ObjectTypeRepresentationView,
    field_name: Seq<char>,
) -> bool {
    exists|i: int|
        0 <= i < object_type.fields.len() && object_type.fields[i].name == field_name
}

// ---------------------------------------------------------------------
// Scalar boolean-expression types (output of the scalar stage)
// ---------------------------------------------------------------------

/// A comparison operator a scalar boolean-expression type declares:
/// the logical operator name and the (unqualified) name of its argument
/// type.
#[derive(Debug, Clone, PartialEq, Eq)]
pub struct ComparisonOperator {
    pub name: String,
    pub argument_type: String,
}

#[verifier::ext_equal]
pub struct ComparisonOperatorView {
    pub name: Seq<char>,
    pub argument_type: Seq<char>,
}

impl DeepView for ComparisonOperator {
    type V = ComparisonOperatorView;

    open spec fn deep_view(&self) -> ComparisonOperatorView {
        ComparisonOperatorView { name: self.name@, argument_type: self.argument_type@ }
    }
}

/// One translation of a logical operator name to the physical name a
/// connector understands.
#[derive(Debug, Clone, PartialEq, Eq)]
pub struct OperatorNamePair {
    pub logical: String,
    pub physical: String,
}

#[verifier::ext_equal]
pub struct OperatorNamePairView {
    pub logical: Seq<char>,
    pub physical: Seq<char>,
}

impl DeepView for OperatorNamePair {
    type V = OperatorNamePairView;

    open spec fn deep_view(&self) -> OperatorNamePairView {
        OperatorNamePairView { logical: self.logical@, physical: self.physical@ }
    }
}

/// A connector's operator translation table.
#[derive(Debug, Clone, PartialEq, Eq)]
pub struct DataConnectorOperatorMapping {
    pub operator_mapping: Vec<OperatorNamePair>,
}

#[verifier::ext_equal]
pub struct DataConnectorOperatorMappingView {
    pub operator_mapping: Seq<OperatorNamePairView>,
}

impl DeepView for DataConnectorOperatorMapping {
    type V = DataConnectorOperatorMappingView;

    open spec fn deep_view(&self) -> DataConnectorOperatorMappingView {
        DataConnectorOperatorMappingView { operator_mapping: self.operator_mapping.deep_view() }
    }
}

/// A resolved scalar boolean-expression type: its optional GraphQL-exposed
/// type name, the comparison operators it offers, and its per-connector
/// operator translation tables.
#[derive(Debug, Clone, PartialEq, Eq)]
pub struct ResolvedScalarBooleanExpressionType {
    pub graphql_name: Option<String>,
    pub comparison_operators: Vec<ComparisonOperator>,
    pub data_connector_operator_mappings: QualifiedMap<DataConnectorOperatorMapping>,
}

#[verifier::ext_equal]
pub struct ResolvedScalarBooleanExpressionTypeView {
    pub graphql_name: Option<Seq<char>>,
    pub comparison_operators: Seq<ComparisonOperatorView>,
    pub data_connector_operator_mappings: Seq<
        (QualifiedNameView, DataConnectorOperatorMappingView),
    >,
}

impl DeepView for ResolvedScalarBooleanExpressionType {
    type V = ResolvedScalarBooleanExpressionTypeView;

    open spec fn deep_view(&self) -> ResolvedScalarBooleanExpressionTypeView {
        ResolvedScalarBooleanExpressionTypeView {
            graphql_name: self.graphql_name.deep_view(),
            comparison_operators: self.comparison_operators.deep_view(),
            data_connector_operator_mappings: self.data_connector_operator_mappings.deep_view(),
        }
    }
}

// ---------------------------------------------------------------------
// Raw boolean-expression declarations (existence-only forward references)
// ---------------------------------------------------------------------

/// A comparable field as declared: the field it names on the underlying
/// object type, and the (unqualified) boolean-expression type that governs
/// comparisons on it.
#[derive(Debug, Clone, PartialEq, Eq)]
pub struct ComparableFieldDeclaration {
    pub field_name: String,
    pub boolean_expression_type: String,
}

#[verifier::ext_equal]
pub struct ComparableFieldDeclarationView {
    pub field_name: Seq<char>,
    pub boolean_expression_type: Seq<char>,
}

impl DeepView for ComparableFieldDeclaration {
    type V = ComparableFieldDeclarationView;

    open spec fn deep_view(&self) -> ComparableFieldDeclarationView {
        ComparableFieldDeclarationView {
            field_name: self.field_name@,
            boolean_expression_type: self.boolean_expression_type@,
        }
    }
}

/// The object-flavored operand of a boolean-expression declaration.
#[derive(Debug, Clone, PartialEq, Eq)]
pub struct BooleanExpressionObjectOperand {
    pub object_type: String,
    pub comparable_fields: Vec<ComparableFieldDeclaration>,
}

#[verifier::ext_equal]
pub struct BooleanExpressionObjectOperandView {
    pub object_type: Seq<char>,
    pub comparable_fields: Seq<ComparableFieldDeclarationView>,
}

impl DeepView for BooleanExpressionObjectOperand {
    type V = BooleanExpressionObjectOperandView;

    open spec fn deep_view(&self) -> BooleanExpressionObjectOperandView {
        BooleanExpressionObjectOperandView {
            object_type: self.object_type@,
            comparable_fields: self.comparable_fields.deep_view(),
        }
    }
}

/// The scalar-flavored operand of a boolean-expression declaration.
#[derive(Debug, Clone, PartialEq, Eq)]
pub struct BooleanExpressionScalarOperand {
    pub scalar_type: String,
}

#[verifier::ext_equal]
pub struct BooleanExpressionScalarOperandView {
    pub scalar_type: Seq<char>,
}

impl DeepView for BooleanExpressionScalarOperand {
    type V = BooleanExpressionScalarOperandView;

    open spec fn deep_view(&self) -> BooleanExpressionScalarOperandView {
        BooleanExpressionScalarOperandView { scalar_type: self.scalar_type@ }
    }
}

/// The operand of a boolean-expression declaration, in its two flavors.
#[derive(Debug, Clone, PartialEq, Eq)]
pub enum BooleanExpressionOperand {
    Object(BooleanExpressionObjectOperand),
    Scalar(BooleanExpressionScalarOperand),
}

#[verifier::ext_equal]
pub enum BooleanExpressionOperandView {
    Object(BooleanExpressionObjectOperandView),
    Scalar(BooleanExpressionScalarOperandView),
}

impl DeepView for BooleanExpressionOperand {
    type V = BooleanExpressionOperandView;

    open spec fn deep_view(&self) -> BooleanExpressionOperandView {
        match self {
            BooleanExpressionOperand::Object(o) => BooleanExpressionOperandView::Object(
                o.deep_view(),
            ),
            BooleanExpressionOperand::Scalar(s) => BooleanExpressionOperandView::Scalar(
                s.deep_view(),
            ),
        }
    }
}

/// The GraphQL exposure a boolean-expression declaration asks for: the
/// type name under which it is to appear in the schema.
#[derive(Debug, Clone, PartialEq, Eq)]
pub struct BooleanExpressionTypeGraphQlConfiguration {
    pub graphql_type_name: String,
}

#[verifier::ext_equal]
pub struct BooleanExpressionTypeGraphQlConfigurationView {
    pub graphql_type_name: Seq<char>,
}

impl DeepView for BooleanExpressionTypeGraphQlConfiguration {
    type V = BooleanExpressionTypeGraphQlConfigurationView;

    open spec fn deep_view(&self) -> BooleanExpressionTypeGraphQlConfigurationView {
        BooleanExpressionTypeGraphQlConfigurationView { graphql_type_name: self.graphql_type_name@ }
    }
}

/// A raw boolean-expression declaration, before resolution: its operand
/// and its optional GraphQL exposure.
#[derive(Debug, Clone, PartialEq, Eq)]
pub struct BooleanExpressionTypeDeclaration {
    pub operand: BooleanExpressionOperand,
    pub graphql: Option<BooleanExpressionTypeGraphQlConfiguration>,
}

#[verifier::ext_equal]
pub struct BooleanExpressionTypeDeclarationView {
    pub operand: BooleanExpressionOperandView,
    pub graphql: Option<BooleanExpressionTypeGraphQlConfigurationView>,
}

impl DeepView for BooleanExpressionTypeDeclaration {
    type V = BooleanExpressionTypeDeclarationView;

    open spec fn deep_view(&self) -> BooleanExpressionTypeDeclarationView {
        BooleanExpressionTypeDeclarationView {
            operand: self.operand.deep_view(),
            graphql: self.graphql.deep_view(),
        }
    }
}

/// An entry of the raw-declaration index: the declaration together with
/// the subgraph that declared it.
#[derive(Debug, Clone, PartialEq, Eq)]
pub struct RawBooleanExpressionType {
    pub subgraph: String,
    pub declaration: BooleanExpressionTypeDeclaration,
}

#[verifier::ext_equal]
pub struct RawBooleanExpressionTypeView {
    pub subgraph: Seq<char>,
    pub declaration: BooleanExpressionTypeDeclarationView,
}

impl DeepView for RawBooleanExpressionType {
    type V = RawBooleanExpressionTypeView;

    open spec fn deep_view(&self) -> RawBooleanExpressionTypeView {
        RawBooleanExpressionTypeView {
            subgraph: self.subgraph@,
            declaration: self.declaration.deep_view(),
        }
    }
}

// ---------------------------------------------------------------------
// Global GraphQL filter configuration
// ---------------------------------------------------------------------

/// The globally configured names of the filter-input surface: the `where`
/// field and the and/or/not/is-null operator field names.
#[derive(Debug, Clone, PartialEq, Eq)]
pub struct FilterInputGraphqlConfig {
    pub where_field_name: String,
    pub and_operator_name: String,
    pub or_operator_name: String,
    pub not_operator_name: String,
    pub is_null_operator_name: String,
}

#[verifier::ext_equal]
pub struct FilterInputGraphqlConfigView {
    pub where_field_name: Seq<char>,
    pub and_operator_name: Seq<char>,
    pub or_operator_name: Seq<char>,
    pub not_operator_name: Seq<char>,
    pub is_null_operator_name: Seq<char>,
}

impl DeepView for FilterInputGraphqlConfig {
    type V = FilterInputGraphqlConfigView;

    open spec fn deep_view(&self) -> FilterInputGraphqlConfigView {
        FilterInputGraphqlConfigView {
            where_field_name: self.where_field_name@,
            and_operator_name: self.and_operator_name@,
            or_operator_name: self.or_operator_name@,
            not_operator_name: self.not_operator_name@,
            is_null_operator_name: self.is_null_operator_name@,
        }
    }
}

/// The global GraphQL configuration slice this stage reads: the filter
/// input configuration, if any was supplied.
#[derive(Debug, Clone, PartialEq, Eq)]
pub struct GraphqlConfig {
    pub filter_input_config: Option<FilterInputGraphqlConfig>,
}

#[verifier::ext_equal]
pub struct GraphqlConfigView {
    pub filter_input_config: Option<FilterInputGraphqlConfigView>,
}

impl DeepView for GraphqlConfig {
    type V = GraphqlConfigView;

    open spec fn deep_view(&self) -> GraphqlConfigView {
        GraphqlConfigView { filter_input_config: self.filter_input_config.deep_view() }
    }
}

} // verus!
