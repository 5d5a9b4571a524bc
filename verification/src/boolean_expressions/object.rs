//! Executable resolution of object-flavored boolean-expression types.
//!
//! Every function is proved to return exactly what the corresponding
//! function of [`super::model`] says of its inputs' views.

use vstd::prelude::*;

use crate::errors::{BooleanExpressionError, Error, ErrorView, GraphqlConfigError};
use crate::graphql_names::mk_graphql_name;
use crate::metadata::{
    BooleanExpressionObjectOperand, BooleanExpressionOperand,
    BooleanExpressionTypeGraphQlConfiguration, ComparableFieldDeclaration, ComparisonOperator,
    DataConnectorOperatorMapping, GraphqlConfig, ObjectTypeRepresentation, OperatorNamePair,
    RawBooleanExpressionType, ResolvedScalarBooleanExpressionType, object_type_has_field,
};
use crate::names::{QualifiedName, QualifiedNameView};
use crate::qmap::{QualifiedMap, assoc_get};
use crate::boolean_expressions::model::{
    ComparableFieldsView, first_connector_gap, lemma_comparable_fields_error_persists,
    lemma_connector_gap_persists, lemma_data_connector_error_persists,
    lemma_graphql_fields_error_persists, resolve_comparable_fields_model,
    resolve_data_connector_types_model,
    resolve_graphql_fields_model, resolve_object_boolean_expression_type_model,
    resolve_object_boolean_graphql_model, resolve_operator_mapping_model,
    resolve_operators_model,
};
use crate::boolean_expressions::output::{
    BooleanExpressionGraphqlConfig, BooleanExpressionGraphqlFieldConfig, ComparisonExpressionInfo,
    ObjectComparisonExpressionInfo, ResolvedComparisonOperator,
    ResolvedObjectBooleanExpressionType,
};

verus! {

/// Whether the object type declares a field of this name.
fn object_type_declares_field(
    object_type: &ObjectTypeRepresentation,
    field_name: &String,
) -> (r: bool)
    ensures
        r == object_type_has_field(object_type.deep_view(), field_name@),
{
    let ghost fields = object_type.deep_view().fields;
    let mut i: usize = 0;
    while i < object_type.fields.len()
        invariant
            i <= object_type.fields.len(),
            fields == object_type.deep_view().fields,
            fields.len() == object_type.fields.len(),
            forall|j: int| 0 <= j < i ==> (#[trigger] fields[j]).name != field_name@,
        decreases object_type.fields.len() - i,
    {
        if object_type.fields[i].name == *field_name {
            proof {
                assert(0 <= i < fields.len() && fields[i as int].name == field_name@);
            }
            return true;
        }
        i = i + 1;
    }
    false
}

/// Look a referenced boolean-expression type up among the raw
/// declarations; its absence is the not-found reference error naming
/// both the referring and the missing type.
pub fn lookup_raw_boolean_expression<'a>(
    parent_boolean_expression_name: &QualifiedName,
    boolean_expression_name: &QualifiedName,
    raw_boolean_expression_types: &'a QualifiedMap<RawBooleanExpressionType>,
) -> (r: Result<&'a RawBooleanExpressionType, Error>)
    ensures
        match r {
            Ok(raw) => assoc_get(raw_boolean_expression_types.deep_view(), boolean_expression_name@)
                == Some(raw.deep_view()),
            Err(e) => {
                &&& assoc_get(
                    raw_boolean_expression_types.deep_view(),
                    boolean_expression_name@,
                ) is None
                &&& e.deep_view() == (ErrorView::BooleanExpressionError {
                    boolean_expression_error:
                        crate::errors::BooleanExpressionErrorView::BooleanExpressionCouldNotBeFound {
                        parent_boolean_expression: parent_boolean_expression_name@,
                        child_boolean_expression: boolean_expression_name@,
                    },
                })
            },
        },
{
    match raw_boolean_expression_types.get(boolean_expression_name) {
        Some(raw) => Ok(raw),
        None => Err(
            Error::BooleanExpressionError {
                boolean_expression_error:
                    BooleanExpressionError::BooleanExpressionCouldNotBeFound {
                    parent_boolean_expression: parent_boolean_expression_name.clone(),
                    child_boolean_expression: boolean_expression_name.clone(),
                },
            },
        ),
    }
}

/// Resolve the declared comparable fields: each must name a field of the
/// underlying object type and reference a boolean-expression type that
/// exists among the raw declarations (existence only).
pub fn resolve_comparable_fields(
    comparable_fields: &Vec<ComparableFieldDeclaration>,
    object_type_representation: &ObjectTypeRepresentation,
    boolean_expression_type_name: &QualifiedName,
    subgraph: &str,
    raw_boolean_expression_types: &QualifiedMap<RawBooleanExpressionType>,
) -> (r: Result<Vec<(String, QualifiedName)>, Error>)
    ensures
        match r {
            Ok(v) => resolve_comparable_fields_model(
                comparable_fields.deep_view(),
                object_type_representation.deep_view(),
                boolean_expression_type_name@,
                subgraph@,
                raw_boolean_expression_types.deep_view(),
            ) == Ok::<ComparableFieldsView, ErrorView>(v.deep_view()),
            Err(e) => resolve_comparable_fields_model(
                comparable_fields.deep_view(),
                object_type_representation.deep_view(),
                boolean_expression_type_name@,
                subgraph@,
                raw_boolean_expression_types.deep_view(),
            ) == Err::<ComparableFieldsView, ErrorView>(e.deep_view()),
        },
{
    let ghost fields_v = comparable_fields.deep_view();
    let ghost object_v = object_type_representation.deep_view();
    let ghost name_v = boolean_expression_type_name@;
    let ghost subgraph_v = subgraph@;
    let ghost raws_v = raw_boolean_expression_types.deep_view();

    let mut resolved: Vec<(String, QualifiedName)> = Vec::new();
    let mut i: usize = 0;
    proof {
        assert(fields_v.take(0) =~= Seq::<crate::metadata::ComparableFieldDeclarationView>::empty());
        assert(resolved.deep_view() =~= Seq::<(Seq<char>, QualifiedNameView)>::empty());
    }
    while i < comparable_fields.len()
        invariant
            i <= comparable_fields.len(),
            fields_v == comparable_fields.deep_view(),
            object_v == object_type_representation.deep_view(),
            name_v == boolean_expression_type_name@,
            subgraph_v == subgraph@,
            raws_v == raw_boolean_expression_types.deep_view(),
            fields_v.len() == comparable_fields.len(),
            resolve_comparable_fields_model(
                fields_v.take(i as int),
                object_v,
                name_v,
                subgraph_v,
                raws_v,
            ) == Ok::<ComparableFieldsView, ErrorView>(resolved.deep_view()),
        decreases comparable_fields.len() - i,
    {
        let ghost prefix = resolved.deep_view();
        proof {
            assert(fields_v.take(i + 1).drop_last() =~= fields_v.take(i as int));
            assert(fields_v.take(i + 1).last() == fields_v[i as int]);
        }
        let field = &comparable_fields[i];
        if !object_type_declares_field(object_type_representation, &field.field_name) {
            let err = Error::BooleanExpressionError {
                boolean_expression_error:
                    BooleanExpressionError::UnknownFieldInObjectBooleanExpressionType {
                    field_name: field.field_name.clone(),
                    object_boolean_expression_type: boolean_expression_type_name.clone(),
                },
            };
            proof {
                lemma_comparable_fields_error_persists(
                    fields_v,
                    object_v,
                    name_v,
                    subgraph_v,
                    raws_v,
                    i + 1,
                );
            }
            return Err(err);
        }
        let target = QualifiedName::new(subgraph, field.boolean_expression_type.as_str());
        match lookup_raw_boolean_expression(
            boolean_expression_type_name,
            &target,
            raw_boolean_expression_types,
        ) {
            Ok(_) => {},
            Err(err) => {
                proof {
                    lemma_comparable_fields_error_persists(
                        fields_v,
                        object_v,
                        name_v,
                        subgraph_v,
                        raws_v,
                        i + 1,
                    );
                }
                return Err(err);
            },
        }
        resolved.push((field.field_name.clone(), target));
        proof {
            assert(resolved.deep_view() =~= prefix.push(
                (fields_v[i as int].field_name, target@),
            ));
        }
        i = i + 1;
    }
    proof {
        assert(fields_v.take(i as int) =~= fields_v);
    }
    Ok(resolved)
}

/// The first comparable field, in declaration order, whose target is a
/// scalar boolean-expression type lacking an operator mapping for this
/// connector.
fn find_connector_gap(
    connector: &QualifiedName,
    comparable_fields: &Vec<(String, QualifiedName)>,
    scalar_boolean_expression_types: &QualifiedMap<ResolvedScalarBooleanExpressionType>,
) -> (r: Option<String>)
    ensures
        match r {
            Some(field) => first_connector_gap(
                connector@,
                comparable_fields.deep_view(),
                scalar_boolean_expression_types.deep_view(),
            ) == Some(field@),
            None => first_connector_gap(
                connector@,
                comparable_fields.deep_view(),
                scalar_boolean_expression_types.deep_view(),
            ) is None,
        },
{
    let ghost fields_v = comparable_fields.deep_view();
    let ghost scalars_v = scalar_boolean_expression_types.deep_view();
    let mut i: usize = 0;
    proof {
        assert(fields_v.take(0) =~= Seq::<(Seq<char>, QualifiedNameView)>::empty());
    }
    while i < comparable_fields.len()
        invariant
            i <= comparable_fields.len(),
            fields_v == comparable_fields.deep_view(),
            scalars_v == scalar_boolean_expression_types.deep_view(),
            fields_v.len() == comparable_fields.len(),
            first_connector_gap(connector@, fields_v.take(i as int), scalars_v) is None,
        decreases comparable_fields.len() - i,
    {
        proof {
            assert(fields_v.take(i + 1).drop_last() =~= fields_v.take(i as int));
            assert(fields_v.take(i + 1).last() == fields_v[i as int]);
        }
        let field = &comparable_fields[i];
        match scalar_boolean_expression_types.get(&field.1) {
            Some(scalar) => {
                if !scalar.data_connector_operator_mappings.contains_key(connector) {
                    let gap = field.0.clone();
                    proof {
                        lemma_connector_gap_persists(connector@, fields_v, scalars_v, i + 1);
                    }
                    return Some(gap);
                }
            },
            None => {},
        }
        i = i + 1;
    }
    proof {
        assert(fields_v.take(i as int) =~= fields_v);
    }
    None
}

/// Cross-check connector coverage: for every connector the underlying
/// object type's physical mapping names, every comparable scalar field's
/// type must carry an operator mapping for it; a gap is a hard error
/// naming the field, the owning type and the connector. The connectors
/// that pass are collected.
pub fn resolve_data_connector_types(
    boolean_expression_type_name: &QualifiedName,
    object_type_representation: &ObjectTypeRepresentation,
    scalar_boolean_expression_types: &QualifiedMap<ResolvedScalarBooleanExpressionType>,
    comparable_fields: &Vec<(String, QualifiedName)>,
) -> (r: Result<Vec<QualifiedName>, Error>)
    ensures
        match r {
            Ok(v) => resolve_data_connector_types_model(
                object_type_representation.deep_view().data_connectors,
                boolean_expression_type_name@,
                comparable_fields.deep_view(),
                scalar_boolean_expression_types.deep_view(),
            ) == Ok::<Seq<QualifiedNameView>, ErrorView>(v.deep_view()),
            Err(e) => resolve_data_connector_types_model(
                object_type_representation.deep_view().data_connectors,
                boolean_expression_type_name@,
                comparable_fields.deep_view(),
                scalar_boolean_expression_types.deep_view(),
            ) == Err::<Seq<QualifiedNameView>, ErrorView>(e.deep_view()),
        },
{
    let ghost connectors_v = object_type_representation.deep_view().data_connectors;
    let ghost name_v = boolean_expression_type_name@;
    let ghost fields_v = comparable_fields.deep_view();
    let ghost scalars_v = scalar_boolean_expression_types.deep_view();

    let mut working_data_connectors: Vec<QualifiedName> = Vec::new();
    let mut i: usize = 0;
    proof {
        assert(connectors_v.take(0) =~= Seq::<QualifiedNameView>::empty());
        assert(working_data_connectors.deep_view() =~= Seq::<QualifiedNameView>::empty());
    }
    while i < object_type_representation.data_connectors.len()
        invariant
            i <= object_type_representation.data_connectors.len(),
            connectors_v == object_type_representation.deep_view().data_connectors,
            name_v == boolean_expression_type_name@,
            fields_v == comparable_fields.deep_view(),
            scalars_v == scalar_boolean_expression_types.deep_view(),
            connectors_v.len() == object_type_representation.data_connectors.len(),
            resolve_data_connector_types_model(
                connectors_v.take(i as int),
                name_v,
                fields_v,
                scalars_v,
            ) == Ok::<Seq<QualifiedNameView>, ErrorView>(working_data_connectors.deep_view()),
        decreases object_type_representation.data_connectors.len() - i,
    {
        let ghost prefix = working_data_connectors.deep_view();
        proof {
            assert(connectors_v.take(i + 1).drop_last() =~= connectors_v.take(i as int));
            assert(connectors_v.take(i + 1).last() == connectors_v[i as int]);
        }
        let data_connector_name = &object_type_representation.data_connectors[i];
        match find_connector_gap(
            data_connector_name,
            comparable_fields,
            scalar_boolean_expression_types,
        ) {
            Some(field) => {
                let err = Error::BooleanExpressionError {
                    boolean_expression_error:
                        BooleanExpressionError::DataConnectorMappingMissingForField {
                        field,
                        boolean_expression_name: boolean_expression_type_name.clone(),
                        data_connector_name: data_connector_name.clone(),
                    },
                };
                proof {
                    lemma_data_connector_error_persists(
                        connectors_v,
                        name_v,
                        fields_v,
                        scalars_v,
                        i + 1,
                    );
                }
                return Err(err);
            },
            None => {},
        }
        working_data_connectors.push(data_connector_name.clone());
        proof {
            assert(working_data_connectors.deep_view() =~= prefix.push(connectors_v[i as int]));
        }
        i = i + 1;
    }
    proof {
        assert(connectors_v.take(i as int) =~= connectors_v);
    }
    Ok(working_data_connectors)
}

/// Copy a connector's logical-to-physical operator pairs.
fn clone_operator_pairs(pairs: &Vec<OperatorNamePair>) -> (r: Vec<OperatorNamePair>)
    ensures
        r.deep_view() == pairs.deep_view(),
{
    let ghost pairs_v = pairs.deep_view();
    let mut out: Vec<OperatorNamePair> = Vec::new();
    let mut i: usize = 0;
    proof {
        assert(out.deep_view() =~= pairs_v.take(0));
    }
    while i < pairs.len()
        invariant
            i <= pairs.len(),
            pairs_v == pairs.deep_view(),
            pairs_v.len() == pairs.len(),
            out.deep_view() == pairs_v.take(i as int),
        decreases pairs.len() - i,
    {
        let ghost prefix = out.deep_view();
        out.push(
            OperatorNamePair {
                logical: pairs[i].logical.clone(),
                physical: pairs[i].physical.clone(),
            },
        );
        proof {
            assert(out.deep_view() =~= prefix.push(pairs_v[i as int]));
            assert(pairs_v.take(i + 1) =~= pairs_v.take(i as int).push(pairs_v[i as int]));
        }
        i = i + 1;
    }
    proof {
        assert(pairs_v.take(i as int) =~= pairs_v);
    }
    out
}

/// Flatten the per-connector operator translation tables of a scalar
/// type into the shape the resolved comparison field carries: each
/// connector keeps its pairs unchanged.
pub fn resolve_operator_mapping_for_scalar_type(
    data_connector_operator_mappings: &QualifiedMap<DataConnectorOperatorMapping>,
) -> (r: QualifiedMap<Vec<OperatorNamePair>>)
    ensures
        r.deep_view() == resolve_operator_mapping_model(
            data_connector_operator_mappings.deep_view(),
        ),
{
    let ghost mappings_v = data_connector_operator_mappings.deep_view();
    let mut operator_mapping: QualifiedMap<Vec<OperatorNamePair>> = QualifiedMap::new();
    let mut i: usize = 0;
    let n = data_connector_operator_mappings.len();
    proof {
        assert(mappings_v.take(0)
            =~= Seq::<(QualifiedNameView, crate::metadata::DataConnectorOperatorMappingView)>::empty());
    }
    while i < n
        invariant
            i <= n,
            mappings_v == data_connector_operator_mappings.deep_view(),
            n == mappings_v.len(),
            operator_mapping.deep_view() == resolve_operator_mapping_model(
                mappings_v.take(i as int),
            ),
        decreases n - i,
    {
        proof {
            assert(mappings_v.take(i + 1).drop_last() =~= mappings_v.take(i as int));
            assert(mappings_v.take(i + 1).last() == mappings_v[i as int]);
        }
        let entry = data_connector_operator_mappings.entry_at(i);
        let pairs = clone_operator_pairs(&entry.1.operator_mapping);
        operator_mapping.insert(entry.0.clone(), pairs);
        i = i + 1;
    }
    proof {
        assert(mappings_v.take(i as int) =~= mappings_v);
    }
    operator_mapping
}

/// Qualify the argument type of each comparison operator with the
/// subgraph owning the type under resolution.
fn resolve_operators(
    comparison_operators: &Vec<ComparisonOperator>,
    subgraph: &str,
) -> (r: Vec<ResolvedComparisonOperator>)
    ensures
        r.deep_view() == resolve_operators_model(comparison_operators.deep_view(), subgraph@),
{
    let ghost operators_v = comparison_operators.deep_view();
    let mut out: Vec<ResolvedComparisonOperator> = Vec::new();
    let mut i: usize = 0;
    proof {
        assert(operators_v.take(0) =~= Seq::<crate::metadata::ComparisonOperatorView>::empty());
        assert(out.deep_view()
            =~= Seq::<crate::boolean_expressions::output::ResolvedComparisonOperatorView>::empty());
    }
    while i < comparison_operators.len()
        invariant
            i <= comparison_operators.len(),
            operators_v == comparison_operators.deep_view(),
            operators_v.len() == comparison_operators.len(),
            out.deep_view() == resolve_operators_model(operators_v.take(i as int), subgraph@),
        decreases comparison_operators.len() - i,
    {
        let ghost prefix = out.deep_view();
        proof {
            assert(operators_v.take(i + 1).drop_last() =~= operators_v.take(i as int));
            assert(operators_v.take(i + 1).last() == operators_v[i as int]);
        }
        let op = &comparison_operators[i];
        out.push(
            ResolvedComparisonOperator {
                name: op.name.clone(),
                argument_type: QualifiedName::new(subgraph, op.argument_type.as_str()),
            },
        );
        proof {
            assert(out.deep_view() =~= prefix.push(
                resolve_operators_model(operators_v.take(i + 1), subgraph@).last(),
            ));
        }
        i = i + 1;
    }
    proof {
        assert(operators_v.take(i as int) =~= operators_v);
    }
    out
}

/// Resolve the GraphQL exposure of an object boolean-expression type:
/// validate the exposed type name, require the global filter-input
/// configuration, and classify every comparable field as a scalar or an
/// object comparison field.
pub fn resolve_object_boolean_graphql(
    boolean_expression_type_name: &QualifiedName,
    boolean_expression_graphql_config: &BooleanExpressionTypeGraphQlConfiguration,
    comparable_fields: &Vec<(String, QualifiedName)>,
    scalar_boolean_expression_types: &QualifiedMap<ResolvedScalarBooleanExpressionType>,
    raw_boolean_expression_types: &QualifiedMap<RawBooleanExpressionType>,
    subgraph: &str,
    graphql_config: &GraphqlConfig,
) -> (r: Result<BooleanExpressionGraphqlConfig, Error>)
    ensures
        match r {
            Ok(v) => resolve_object_boolean_graphql_model(
                boolean_expression_type_name@,
                boolean_expression_graphql_config.deep_view(),
                comparable_fields.deep_view(),
                scalar_boolean_expression_types.deep_view(),
                raw_boolean_expression_types.deep_view(),
                subgraph@,
                graphql_config.deep_view(),
            ) == Ok::<
                crate::boolean_expressions::output::BooleanExpressionGraphqlConfigView,
                ErrorView,
            >(v.deep_view()),
            Err(e) => resolve_object_boolean_graphql_model(
                boolean_expression_type_name@,
                boolean_expression_graphql_config.deep_view(),
                comparable_fields.deep_view(),
                scalar_boolean_expression_types.deep_view(),
                raw_boolean_expression_types.deep_view(),
                subgraph@,
                graphql_config.deep_view(),
            ) == Err::<
                crate::boolean_expressions::output::BooleanExpressionGraphqlConfigView,
                ErrorView,
            >(e.deep_view()),
        },
{
    let ghost name_v = boolean_expression_type_name@;
    let ghost fields_v = comparable_fields.deep_view();
    let ghost scalars_v = scalar_boolean_expression_types.deep_view();
    let ghost raws_v = raw_boolean_expression_types.deep_view();
    let ghost subgraph_v = subgraph@;

    let boolean_expression_graphql_name = match mk_graphql_name(
        boolean_expression_graphql_config.graphql_type_name.as_str(),
    ) {
        Ok(n) => n,
        Err(e) => {
            return Err(e);
        },
    };

    let filter_graphql_config = match &graphql_config.filter_input_config {
        Some(filter) => filter,
        None => {
            return Err(
                Error::GraphqlConfigError {
                    graphql_config_error:
                        GraphqlConfigError::MissingFilterInputFieldInGraphqlConfig,
                },
            );
        },
    };
    let ghost filter_v = filter_graphql_config.deep_view();

    let mut scalar_fields: Vec<(String, ComparisonExpressionInfo)> = Vec::new();
    let mut object_fields: Vec<(String, ObjectComparisonExpressionInfo)> = Vec::new();
    let mut i: usize = 0;
    proof {
        assert(fields_v.take(0) =~= Seq::<(Seq<char>, QualifiedNameView)>::empty());
        assert(scalar_fields.deep_view() =~= Seq::<
            (Seq<char>, crate::boolean_expressions::output::ComparisonExpressionInfoView),
        >::empty());
        assert(object_fields.deep_view() =~= Seq::<
            (Seq<char>, crate::boolean_expressions::output::ObjectComparisonExpressionInfoView),
        >::empty());
    }
    while i < comparable_fields.len()
        invariant
            i <= comparable_fields.len(),
            name_v == boolean_expression_type_name@,
            fields_v == comparable_fields.deep_view(),
            scalars_v == scalar_boolean_expression_types.deep_view(),
            raws_v == raw_boolean_expression_types.deep_view(),
            subgraph_v == subgraph@,
            fields_v.len() == comparable_fields.len(),
            resolve_graphql_fields_model(
                fields_v.take(i as int),
                name_v,
                scalars_v,
                raws_v,
                subgraph_v,
                filter_v,
            ) == Ok::<_, ErrorView>((scalar_fields.deep_view(), object_fields.deep_view())),
            filter_v == filter_graphql_config.deep_view(),
            graphql_config.deep_view().filter_input_config == Some(filter_v),
            crate::graphql_names::is_valid_graphql_name(
                boolean_expression_graphql_config.deep_view().graphql_type_name,
            ),
            boolean_expression_graphql_name@
                == boolean_expression_graphql_config.deep_view().graphql_type_name,
        decreases comparable_fields.len() - i,
    {
        let ghost scalar_prefix = scalar_fields.deep_view();
        let ghost object_prefix = object_fields.deep_view();
        proof {
            assert(fields_v.take(i + 1).drop_last() =~= fields_v.take(i as int));
            assert(fields_v.take(i + 1).last() == fields_v[i as int]);
        }
        let comparable_field = &comparable_fields[i];
        match scalar_boolean_expression_types.get(&comparable_field.1) {
            Some(scalar_boolean_expression_type) => {
                match &scalar_boolean_expression_type.graphql_name {
                    Some(graphql_name) => {
                        let graphql_type_name = match mk_graphql_name(graphql_name.as_str()) {
                            Ok(n) => n,
                            Err(e) => {
                                proof {
                                    lemma_graphql_fields_error_persists(
                                        fields_v,
                                        name_v,
                                        scalars_v,
                                        raws_v,
                                        subgraph_v,
                                        filter_v,
                                        i + 1,
                                    );
                                }
                                return Err(e);
                            },
                        };
                        // A scalar comparison field is registered only if it
                        // offers at least one operator.
                        if scalar_boolean_expression_type.comparison_operators.len() > 0 {
                            let operators = resolve_operators(
                                &scalar_boolean_expression_type.comparison_operators,
                                subgraph,
                            );
                            let operator_mapping = resolve_operator_mapping_for_scalar_type(
                                &scalar_boolean_expression_type.data_connector_operator_mappings,
                            );
                            scalar_fields.push(
                                (
                                    comparable_field.0.clone(),
                                    ComparisonExpressionInfo {
                                        graphql_type_name,
                                        operators,
                                        operator_mapping,
                                        is_null_operator_name:
                                            filter_graphql_config.is_null_operator_name.clone(),
                                    },
                                ),
                            );
                            proof {
                                assert(scalar_fields.deep_view() =~= scalar_prefix.push(
                                    scalar_fields.deep_view().last(),
                                ));
                            }
                        }
                    },
                    None => {},
                }
            },
            None => {
                // Not a scalar: the field must reference a raw declaration,
                // which yields an object comparison entry only if it both
                // declares a GraphQL type name and is object-flavored.
                let raw = match lookup_raw_boolean_expression(
                    boolean_expression_type_name,
                    &comparable_field.1,
                    raw_boolean_expression_types,
                ) {
                    Ok(raw) => raw,
                    Err(e) => {
                        proof {
                            lemma_graphql_fields_error_persists(
                                fields_v,
                                name_v,
                                scalars_v,
                                raws_v,
                                subgraph_v,
                                filter_v,
                                i + 1,
                            );
                        }
                        return Err(e);
                    },
                };
                match (&raw.declaration.graphql, &raw.declaration.operand) {
                    (Some(graphql_decl), BooleanExpressionOperand::Object(object_operand)) => {
                        let graphql_type_name = match mk_graphql_name(
                            graphql_decl.graphql_type_name.as_str(),
                        ) {
                            Ok(n) => n,
                            Err(e) => {
                                proof {
                                    lemma_graphql_fields_error_persists(
                                        fields_v,
                                        name_v,
                                        scalars_v,
                                        raws_v,
                                        subgraph_v,
                                        filter_v,
                                        i + 1,
                                    );
                                }
                                return Err(e);
                            },
                        };
                        object_fields.push(
                            (
                                comparable_field.0.clone(),
                                ObjectComparisonExpressionInfo {
                                    object_type_name: comparable_field.1.clone(),
                                    underlying_object_type_name: QualifiedName::new(
                                        raw.subgraph.as_str(),
                                        object_operand.object_type.as_str(),
                                    ),
                                    graphql_type_name,
                                },
                            ),
                        );
                        proof {
                            assert(object_fields.deep_view() =~= object_prefix.push(
                                object_fields.deep_view().last(),
                            ));
                        }
                    },
                    _ => {},
                }
            },
        }
        i = i + 1;
    }
    proof {
        assert(fields_v.take(i as int) =~= fields_v);
    }

    Ok(
        BooleanExpressionGraphqlConfig {
            graphql_type_name: boolean_expression_graphql_name,
            scalar_fields,
            object_fields,
            field_config: BooleanExpressionGraphqlFieldConfig {
                where_field_name: filter_graphql_config.where_field_name.clone(),
                and_operator_name: filter_graphql_config.and_operator_name.clone(),
                or_operator_name: filter_graphql_config.or_operator_name.clone(),
                not_operator_name: filter_graphql_config.not_operator_name.clone(),
            },
        },
    )
}

/// Resolve an object-flavored boolean-expression type: look up the
/// underlying object type, resolve the comparable fields, cross-check
/// connector coverage, and resolve the optional GraphQL exposure. The
/// output is an immutable value; no partially built state escapes.
pub fn resolve_object_boolean_expression_type(
    boolean_expression_type_name: &QualifiedName,
    object_boolean_expression_operand: &BooleanExpressionObjectOperand,
    subgraph: &str,
    graphql: &Option<BooleanExpressionTypeGraphQlConfiguration>,
    object_types: &QualifiedMap<ObjectTypeRepresentation>,
    scalar_boolean_expression_types: &QualifiedMap<ResolvedScalarBooleanExpressionType>,
    raw_boolean_expression_types: &QualifiedMap<RawBooleanExpressionType>,
    graphql_config: &GraphqlConfig,
) -> (r: Result<ResolvedObjectBooleanExpressionType, Error>)
    ensures
        match r {
            Ok(v) => resolve_object_boolean_expression_type_model(
                boolean_expression_type_name@,
                object_boolean_expression_operand.deep_view(),
                subgraph@,
                graphql.deep_view(),
                object_types.deep_view(),
                scalar_boolean_expression_types.deep_view(),
                raw_boolean_expression_types.deep_view(),
                graphql_config.deep_view(),
            ) == Ok::<
                crate::boolean_expressions::output::ResolvedObjectBooleanExpressionTypeView,
                ErrorView,
            >(v.deep_view()),
            Err(e) => resolve_object_boolean_expression_type_model(
                boolean_expression_type_name@,
                object_boolean_expression_operand.deep_view(),
                subgraph@,
                graphql.deep_view(),
                object_types.deep_view(),
                scalar_boolean_expression_types.deep_view(),
                raw_boolean_expression_types.deep_view(),
                graphql_config.deep_view(),
            ) == Err::<
                crate::boolean_expressions::output::ResolvedObjectBooleanExpressionTypeView,
                ErrorView,
            >(e.deep_view()),
        },
{
    let qualified_object_type_name = QualifiedName::new(
        subgraph,
        object_boolean_expression_operand.object_type.as_str(),
    );

    let object_type_representation = match object_types.get(&qualified_object_type_name) {
        Some(object_type_representation) => object_type_representation,
        None => {
            return Err(
                Error::BooleanExpressionError {
                    boolean_expression_error:
                        BooleanExpressionError::UnknownTypeInObjectBooleanExpressionType {
                        object_type_name: qualified_object_type_name,
                    },
                },
            );
        },
    };

    let comparable_fields = match resolve_comparable_fields(
        &object_boolean_expression_operand.comparable_fields,
        object_type_representation,
        boolean_expression_type_name,
        subgraph,
        raw_boolean_expression_types,
    ) {
        Ok(comparable_fields) => comparable_fields,
        Err(e) => {
            return Err(e);
        },
    };

    match resolve_data_connector_types(
        boolean_expression_type_name,
        object_type_representation,
        scalar_boolean_expression_types,
        &comparable_fields,
    ) {
        Ok(_allowed_data_connectors) => {},
        Err(e) => {
            return Err(e);
        },
    }

    let resolved_graphql = match graphql {
        None => None,
        Some(object_boolean_graphql_config) => {
            match resolve_object_boolean_graphql(
                boolean_expression_type_name,
                object_boolean_graphql_config,
                &comparable_fields,
                scalar_boolean_expression_types,
                raw_boolean_expression_types,
                subgraph,
                graphql_config,
            ) {
                Ok(config) => Some(config),
                Err(e) => {
                    return Err(e);
                },
            }
        },
    };

    Ok(
        ResolvedObjectBooleanExpressionType {
            name: boolean_expression_type_name.clone(),
            object_type: qualified_object_type_name,
            graphql: resolved_graphql,
        },
    )
}

} // verus!
