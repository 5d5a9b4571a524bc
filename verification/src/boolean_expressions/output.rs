//! The immutable values the boolean-expression stage produces.

use vstd::prelude::*;

use crate::names::{QualifiedName, QualifiedNameView};
use crate::qmap::QualifiedMap;
use crate::metadata::{OperatorNamePair, OperatorNamePairView};

verus! {

/// A comparison operator after resolution: its logical name and its
/// argument type qualified with the owning subgraph.
#[derive(Debug, Clone, PartialEq, Eq)]
pub struct ResolvedComparisonOperator {
    pub name: String,
    pub argument_type: QualifiedName,
}

#[verifier::ext_equal]
pub struct ResolvedComparisonOperatorView {
    pub name: Seq<char>,
    pub argument_type: QualifiedNameView,
}

impl DeepView for ResolvedComparisonOperator {
    type V = ResolvedComparisonOperatorView;

    open spec fn deep_view(&self) -> ResolvedComparisonOperatorView {
        ResolvedComparisonOperatorView { name: self.name@, argument_type: self.argument_type@ }
    }
}

/// The GraphQL comparison surface of one scalar comparable field: the
/// exposed type name, the operators it offers, the per-connector
/// operator-name translation, and the shared is-null operator name.
#[derive(Debug, Clone, PartialEq, Eq)]
pub struct ComparisonExpressionInfo {
    pub graphql_type_name: String,
    pub operators: Vec<ResolvedComparisonOperator>,
    pub operator_mapping: QualifiedMap<Vec<OperatorNamePair>>,
    pub is_null_operator_name: String,
}

#[verifier::ext_equal]
pub struct ComparisonExpressionInfoView {
    pub graphql_type_name: Seq<char>,
    pub operators: Seq<ResolvedComparisonOperatorView>,
    pub operator_mapping: Seq<(QualifiedNameView, Seq<OperatorNamePairView>)>,
    pub is_null_operator_name: Seq<char>,
}

impl DeepView for ComparisonExpressionInfo {
    type V = ComparisonExpressionInfoView;

    open spec fn deep_view(&self) -> ComparisonExpressionInfoView {
        ComparisonExpressionInfoView {
            graphql_type_name: self.graphql_type_name@,
            operators: self.operators.deep_view(),
            operator_mapping: self.operator_mapping.deep_view(),
            is_null_operator_name: self.is_null_operator_name@,
        }
    }
}

/// The GraphQL comparison surface of one object-flavored comparable
/// field: the boolean-expression type it targets, that type's underlying
/// object type, and the exposed GraphQL type name.
#[derive(Debug, Clone, PartialEq, Eq)]
pub struct ObjectComparisonExpressionInfo {
    pub object_type_name: QualifiedName,
    pub underlying_object_type_name: QualifiedName,
    pub graphql_type_name: String,
}

#[verifier::ext_equal]
pub struct ObjectComparisonExpressionInfoView {
    pub object_type_name: QualifiedNameView,
    pub underlying_object_type_name: QualifiedNameView,
    pub graphql_type_name: Seq<char>,
}

impl DeepView for ObjectComparisonExpressionInfo {
    type V = ObjectComparisonExpressionInfoView;

    open spec fn deep_view(&self) -> ObjectComparisonExpressionInfoView {
        ObjectComparisonExpressionInfoView {
            object_type_name: self.object_type_name@,
            underlying_object_type_name: self.underlying_object_type_name@,
            graphql_type_name: self.graphql_type_name@,
        }
    }
}

/// The and/or/not/where field names the filter surface uses, taken from
/// the global filter-input configuration.
#[derive(Debug, Clone, PartialEq, Eq)]
pub struct BooleanExpressionGraphqlFieldConfig {
    pub where_field_name: String,
    pub and_operator_name: String,
    pub or_operator_name: String,
    pub not_operator_name: String,
}

#[verifier::ext_equal]
pub struct BooleanExpressionGraphqlFieldConfigView {
    pub where_field_name: Seq<char>,
    pub and_operator_name: Seq<char>,
    pub or_operator_name: Seq<char>,
    pub not_operator_name: Seq<char>,
}

impl DeepView for BooleanExpressionGraphqlFieldConfig {
    type V = BooleanExpressionGraphqlFieldConfigView;

    open spec fn deep_view(&self) -> BooleanExpressionGraphqlFieldConfigView {
        BooleanExpressionGraphqlFieldConfigView {
            where_field_name: self.where_field_name@,
            and_operator_name: self.and_operator_name@,
            or_operator_name: self.or_operator_name@,
            not_operator_name: self.not_operator_name@,
        }
    }
}

/// The resolved GraphQL exposure of an object boolean-expression type:
/// the exposed type name, the scalar and object comparison fields, and
/// the filter field names.
#[derive(Debug, Clone, PartialEq, Eq)]
pub struct BooleanExpressionGraphqlConfig {
    pub graphql_type_name: String,
    pub scalar_fields: Vec<(String, ComparisonExpressionInfo)>,
    pub object_fields: Vec<(String, ObjectComparisonExpressionInfo)>,
    pub field_config: BooleanExpressionGraphqlFieldConfig,
}

#[verifier::ext_equal]
pub struct BooleanExpressionGraphqlConfigView {
    pub graphql_type_name: Seq<char>,
    pub scalar_fields: Seq<(Seq<char>, ComparisonExpressionInfoView)>,
    pub object_fields: Seq<(Seq<char>, ObjectComparisonExpressionInfoView)>,
    pub field_config: BooleanExpressionGraphqlFieldConfigView,
}

impl DeepView for BooleanExpressionGraphqlConfig {
    type V = BooleanExpressionGraphqlConfigView;

    open spec fn deep_view(&self) -> BooleanExpressionGraphqlConfigView {
        BooleanExpressionGraphqlConfigView {
            graphql_type_name: self.graphql_type_name@,
            scalar_fields: self.scalar_fields.deep_view(),
            object_fields: self.object_fields.deep_view(),
            field_config: self.field_config.deep_view(),
        }
    }
}

/// A resolved object boolean-expression type: its own name, its
/// underlying object type, and its optional GraphQL surface. Without a
/// GraphQL surface the type is still usable internally, e.g. for
/// permission predicates.
#[derive(Debug, Clone, PartialEq, Eq)]
pub struct ResolvedObjectBooleanExpressionType {
    pub name: QualifiedName,
    pub object_type: QualifiedName,
    pub graphql: Option<BooleanExpressionGraphqlConfig>,
}

#[verifier::ext_equal]
pub struct ResolvedObjectBooleanExpressionTypeView {
    pub name: QualifiedNameView,
    pub object_type: QualifiedNameView,
    pub graphql: Option<BooleanExpressionGraphqlConfigView>,
}

impl DeepView for ResolvedObjectBooleanExpressionType {
    type V = ResolvedObjectBooleanExpressionTypeView;

    open spec fn deep_view(&self) -> ResolvedObjectBooleanExpressionTypeView {
        ResolvedObjectBooleanExpressionTypeView {
            name: self.name@,
            object_type: self.object_type@,
            graphql: self.graphql.deep_view(),
        }
    }
}

} // verus!
