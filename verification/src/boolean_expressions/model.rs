//! The mathematical model of the boolean-expression stage: a pure
//! function from the stage's inputs to its result. The executable
//! functions in [`super::object`] are proved to return exactly what
//! these functions say, so resolution is deterministic by construction.
//!
//! Each list-shaped input is consumed back to front by structural
//! recursion; since an error found at an earlier element propagates
//! outward unchanged, the model reports the first problem in declaration
//! order, as the diagnostics require.

use vstd::prelude::*;

use crate::errors::{BooleanExpressionErrorView, ErrorView, GraphqlConfigErrorView};
use crate::graphql_names::is_valid_graphql_name;
use crate::metadata::{
    BooleanExpressionObjectOperandView, BooleanExpressionOperandView,
    BooleanExpressionTypeGraphQlConfigurationView, ComparableFieldDeclarationView,
    ComparisonOperatorView, DataConnectorOperatorMappingView, FilterInputGraphqlConfigView,
    GraphqlConfigView, ObjectTypeRepresentationView, OperatorNamePairView,
    RawBooleanExpressionTypeView, ResolvedScalarBooleanExpressionTypeView, object_type_has_field,
};
use crate::names::QualifiedNameView;
use crate::qmap::{assoc_contains, assoc_get};
use crate::boolean_expressions::output::{
    BooleanExpressionGraphqlConfigView, BooleanExpressionGraphqlFieldConfigView,
    ComparisonExpressionInfoView, ObjectComparisonExpressionInfoView,
    ResolvedComparisonOperatorView, ResolvedObjectBooleanExpressionTypeView,
};

verus! {

/// Qualify a local name with a subgraph.
pub open spec fn qualify(subgraph: Seq<char>, name: Seq<char>) -> QualifiedNameView {
    QualifiedNameView { subgraph, name }
}

/// Append an optional element.
pub open spec fn push_opt<T>(s: Seq<T>, x: Option<T>) -> Seq<T> {
    match x {
        Some(v) => s.push(v),
        None => s,
    }
}

/// The raw-declaration index: raw declarations by qualified name, each
/// with the subgraph that declared it.
pub type RawIndexView = Seq<(QualifiedNameView, RawBooleanExpressionTypeView)>;

/// The resolved scalar boolean-expression table.
pub type ScalarTableView = Seq<(QualifiedNameView, ResolvedScalarBooleanExpressionTypeView)>;

/// The resolved object-type table.
pub type ObjectTableView = Seq<(QualifiedNameView, ObjectTypeRepresentationView)>;

/// Comparable fields after resolution: field name and the qualified
/// boolean-expression type governing comparisons on it.
pub type ComparableFieldsView = Seq<(Seq<char>, QualifiedNameView)>;

/// Resolve the declared comparable fields: each must name a field of the
/// underlying object type, and its boolean-expression-type reference must
/// exist among the raw declarations — existence only, so that mutually or
/// self-referential predicate types resolve without a strict order.
pub open spec fn resolve_comparable_fields_model(
    fields: Seq<ComparableFieldDeclarationView>,
    object_type: ObjectTypeRepresentationView,
    name: QualifiedNameView,
    subgraph: Seq<char>,
    raws: RawIndexView,
) -> Result<ComparableFieldsView, ErrorView>
    decreases fields.len(),
{
    if fields.len() == 0 {
        Ok(Seq::empty())
    } else {
        match resolve_comparable_fields_model(fields.drop_last(), object_type, name, subgraph, raws) {
            Err(e) => Err(e),
            Ok(prefix) => {
                let f = fields.last();
                if !object_type_has_field(object_type, f.field_name) {
                    Err(ErrorView::BooleanExpressionError {
                        boolean_expression_error:
                            BooleanExpressionErrorView::UnknownFieldInObjectBooleanExpressionType {
                            field_name: f.field_name,
                            object_boolean_expression_type: name,
                        },
                    })
                } else {
                    let target = qualify(subgraph, f.boolean_expression_type);
                    if !assoc_contains(raws, target) {
                        Err(ErrorView::BooleanExpressionError {
                            boolean_expression_error:
                                BooleanExpressionErrorView::BooleanExpressionCouldNotBeFound {
                                parent_boolean_expression: name,
                                child_boolean_expression: target,
                            },
                        })
                    } else {
                        Ok(prefix.push((f.field_name, target)))
                    }
                }
            },
        }
    }
}

/// The first comparable field, in declaration order, whose target is a
/// scalar boolean-expression type lacking an operator mapping for the
/// connector; `None` when the connector is fully covered. A field whose
/// target is no scalar type is passed over here: its validity was
/// already checked, so it is an object-flavored reference.
pub open spec fn first_connector_gap(
    connector: QualifiedNameView,
    comparable_fields: ComparableFieldsView,
    scalars: ScalarTableView,
) -> Option<Seq<char>>
    decreases comparable_fields.len(),
{
    if comparable_fields.len() == 0 {
        None
    } else {
        match first_connector_gap(connector, comparable_fields.drop_last(), scalars) {
            Some(field) => Some(field),
            None => {
                let last = comparable_fields.last();
                match assoc_get(scalars, last.1) {
                    Some(scalar) => if !assoc_contains(
                        scalar.data_connector_operator_mappings,
                        connector,
                    ) {
                        Some(last.0)
                    } else {
                        None
                    },
                    None => None,
                }
            },
        }
    }
}

/// Whether a comparable field's target is a scalar boolean-expression
/// type that lacks an operator mapping for the connector.
pub open spec fn field_lacks_connector(
    field: (Seq<char>, QualifiedNameView),
    connector: QualifiedNameView,
    scalars: ScalarTableView,
) -> bool {
    match assoc_get(scalars, field.1) {
        Some(scalar) => !assoc_contains(scalar.data_connector_operator_mappings, connector),
        None => false,
    }
}

/// Cross-check connector coverage: every connector the underlying object
/// type maps to must be covered by every comparable scalar field's
/// operator mappings; the connectors that pass are collected.
pub open spec fn resolve_data_connector_types_model(
    connectors: Seq<QualifiedNameView>,
    name: QualifiedNameView,
    comparable_fields: ComparableFieldsView,
    scalars: ScalarTableView,
) -> Result<Seq<QualifiedNameView>, ErrorView>
    decreases connectors.len(),
{
    if connectors.len() == 0 {
        Ok(Seq::empty())
    } else {
        match resolve_data_connector_types_model(
            connectors.drop_last(),
            name,
            comparable_fields,
            scalars,
        ) {
            Err(e) => Err(e),
            Ok(prefix) => {
                let connector = connectors.last();
                match first_connector_gap(connector, comparable_fields, scalars) {
                    Some(field) => Err(ErrorView::BooleanExpressionError {
                        boolean_expression_error:
                            BooleanExpressionErrorView::DataConnectorMappingMissingForField {
                            field,
                            boolean_expression_name: name,
                            data_connector_name: connector,
                        },
                    }),
                    None => Ok(prefix.push(connector)),
                }
            },
        }
    }
}

/// Flatten the per-connector operator translation tables of a scalar
/// type: each connector keeps its logical-to-physical pairs unchanged.
pub open spec fn resolve_operator_mapping_model(
    mappings: Seq<(QualifiedNameView, DataConnectorOperatorMappingView)>,
) -> Seq<(QualifiedNameView, Seq<OperatorNamePairView>)>
    decreases mappings.len(),
{
    if mappings.len() == 0 {
        Seq::empty()
    } else {
        resolve_operator_mapping_model(mappings.drop_last()).push(
            (mappings.last().0, mappings.last().1.operator_mapping),
        )
    }
}

/// Qualify the argument type of each comparison operator with the owning
/// subgraph.
pub open spec fn resolve_operators_model(
    operators: Seq<ComparisonOperatorView>,
    subgraph: Seq<char>,
) -> Seq<ResolvedComparisonOperatorView>
    decreases operators.len(),
{
    if operators.len() == 0 {
        Seq::empty()
    } else {
        resolve_operators_model(operators.drop_last(), subgraph).push(
            ResolvedComparisonOperatorView {
                name: operators.last().name,
                argument_type: qualify(subgraph, operators.last().argument_type),
            },
        )
    }
}

/// Classify one comparable field for the GraphQL surface and build its
/// entry. The scalar table is probed first; a field absent from it must
/// have a raw declaration, which contributes an object comparison entry
/// only if it both declares a GraphQL type name and is object-flavored —
/// anything else is passed over silently, since the field may be
/// internal-only. A scalar field with an empty operator set is not
/// exposed.
pub open spec fn resolve_graphql_comparable_field_model(
    field: (Seq<char>, QualifiedNameView),
    name: QualifiedNameView,
    scalars: ScalarTableView,
    raws: RawIndexView,
    subgraph: Seq<char>,
    filter: FilterInputGraphqlConfigView,
) -> Result<
    (
        Option<(Seq<char>, ComparisonExpressionInfoView)>,
        Option<(Seq<char>, ObjectComparisonExpressionInfoView)>,
    ),
    ErrorView,
> {
    match assoc_get(scalars, field.1) {
        Some(scalar) => match scalar.graphql_name {
            Some(graphql_name) => if !is_valid_graphql_name(graphql_name) {
                Err(ErrorView::InvalidGraphQlName { name: graphql_name })
            } else if scalar.comparison_operators.len() == 0 {
                Ok((None, None))
            } else {
                Ok(
                    (
                        Some(
                            (
                                field.0,
                                ComparisonExpressionInfoView {
                                    graphql_type_name: graphql_name,
                                    operators: resolve_operators_model(
                                        scalar.comparison_operators,
                                        subgraph,
                                    ),
                                    operator_mapping: resolve_operator_mapping_model(
                                        scalar.data_connector_operator_mappings,
                                    ),
                                    is_null_operator_name: filter.is_null_operator_name,
                                },
                            ),
                        ),
                        None,
                    ),
                )
            },
            None => Ok((None, None)),
        },
        None => match assoc_get(raws, field.1) {
            None => Err(ErrorView::BooleanExpressionError {
                boolean_expression_error:
                    BooleanExpressionErrorView::BooleanExpressionCouldNotBeFound {
                    parent_boolean_expression: name,
                    child_boolean_expression: field.1,
                },
            }),
            Some(raw) => match (raw.declaration.graphql, raw.declaration.operand) {
                (
                    Some(graphql_decl),
                    BooleanExpressionOperandView::Object(object_operand),
                ) => if !is_valid_graphql_name(graphql_decl.graphql_type_name) {
                    Err(ErrorView::InvalidGraphQlName { name: graphql_decl.graphql_type_name })
                } else {
                    Ok(
                        (
                            None,
                            Some(
                                (
                                    field.0,
                                    ObjectComparisonExpressionInfoView {
                                        object_type_name: field.1,
                                        underlying_object_type_name: qualify(
                                            raw.subgraph,
                                            object_operand.object_type,
                                        ),
                                        graphql_type_name: graphql_decl.graphql_type_name,
                                    },
                                ),
                            ),
                        ),
                    )
                },
                _ => Ok((None, None)),
            },
        },
    }
}

/// Classify every comparable field, collecting the scalar and object
/// comparison entries in declaration order.
pub open spec fn resolve_graphql_fields_model(
    fields: ComparableFieldsView,
    name: QualifiedNameView,
    scalars: ScalarTableView,
    raws: RawIndexView,
    subgraph: Seq<char>,
    filter: FilterInputGraphqlConfigView,
) -> Result<
    (
        Seq<(Seq<char>, ComparisonExpressionInfoView)>,
        Seq<(Seq<char>, ObjectComparisonExpressionInfoView)>,
    ),
    ErrorView,
>
    decreases fields.len(),
{
    if fields.len() == 0 {
        Ok((Seq::empty(), Seq::empty()))
    } else {
        match resolve_graphql_fields_model(
            fields.drop_last(),
            name,
            scalars,
            raws,
            subgraph,
            filter,
        ) {
            Err(e) => Err(e),
            Ok(prefix) => match resolve_graphql_comparable_field_model(
                fields.last(),
                name,
                scalars,
                raws,
                subgraph,
                filter,
            ) {
                Err(e) => Err(e),
                Ok(entry) => Ok((push_opt(prefix.0, entry.0), push_opt(prefix.1, entry.1))),
            },
        }
    }
}

/// An error found within a prefix of the comparable fields is the
/// stage's result: later fields cannot mask it.
pub proof fn lemma_comparable_fields_error_persists(
    fields: Seq<ComparableFieldDeclarationView>,
    object_type: ObjectTypeRepresentationView,
    name: QualifiedNameView,
    subgraph: Seq<char>,
    raws: RawIndexView,
    j: int,
)
    requires
        0 <= j <= fields.len(),
        resolve_comparable_fields_model(fields.take(j), object_type, name, subgraph, raws) is Err,
    ensures
        resolve_comparable_fields_model(fields, object_type, name, subgraph, raws)
            == resolve_comparable_fields_model(fields.take(j), object_type, name, subgraph, raws),
    decreases fields.len() - j,
{
    if j == fields.len() {
        assert(fields.take(j) =~= fields);
    } else {
        assert(fields.take(j + 1).drop_last() =~= fields.take(j));
        lemma_comparable_fields_error_persists(fields, object_type, name, subgraph, raws, j + 1);
    }
}

/// A gap found within a prefix of the comparable fields persists: the
/// first offending field of the whole list lies in that prefix.
pub proof fn lemma_connector_gap_persists(
    connector: QualifiedNameView,
    comparable_fields: ComparableFieldsView,
    scalars: ScalarTableView,
    j: int,
)
    requires
        0 <= j <= comparable_fields.len(),
        first_connector_gap(connector, comparable_fields.take(j), scalars) is Some,
    ensures
        first_connector_gap(connector, comparable_fields, scalars) == first_connector_gap(
            connector,
            comparable_fields.take(j),
            scalars,
        ),
    decreases comparable_fields.len() - j,
{
    if j == comparable_fields.len() {
        assert(comparable_fields.take(j) =~= comparable_fields);
    } else {
        assert(comparable_fields.take(j + 1).drop_last() =~= comparable_fields.take(j));
        lemma_connector_gap_persists(connector, comparable_fields, scalars, j + 1);
    }
}

/// An error found for an earlier connector is the stage's result.
pub proof fn lemma_data_connector_error_persists(
    connectors: Seq<QualifiedNameView>,
    name: QualifiedNameView,
    comparable_fields: ComparableFieldsView,
    scalars: ScalarTableView,
    j: int,
)
    requires
        0 <= j <= connectors.len(),
        resolve_data_connector_types_model(
            connectors.take(j),
            name,
            comparable_fields,
            scalars,
        ) is Err,
    ensures
        resolve_data_connector_types_model(connectors, name, comparable_fields, scalars)
            == resolve_data_connector_types_model(
            connectors.take(j),
            name,
            comparable_fields,
            scalars,
        ),
    decreases connectors.len() - j,
{
    if j == connectors.len() {
        assert(connectors.take(j) =~= connectors);
    } else {
        assert(connectors.take(j + 1).drop_last() =~= connectors.take(j));
        lemma_data_connector_error_persists(connectors, name, comparable_fields, scalars, j + 1);
    }
}

/// An error found while classifying an earlier comparable field for the
/// GraphQL surface is the stage's result.
pub proof fn lemma_graphql_fields_error_persists(
    fields: ComparableFieldsView,
    name: QualifiedNameView,
    scalars: ScalarTableView,
    raws: RawIndexView,
    subgraph: Seq<char>,
    filter: FilterInputGraphqlConfigView,
    j: int,
)
    requires
        0 <= j <= fields.len(),
        resolve_graphql_fields_model(fields.take(j), name, scalars, raws, subgraph, filter) is Err,
    ensures
        resolve_graphql_fields_model(fields, name, scalars, raws, subgraph, filter)
            == resolve_graphql_fields_model(fields.take(j), name, scalars, raws, subgraph, filter),
    decreases fields.len() - j,
{
    if j == fields.len() {
        assert(fields.take(j) =~= fields);
    } else {
        assert(fields.take(j + 1).drop_last() =~= fields.take(j));
        lemma_graphql_fields_error_persists(fields, name, scalars, raws, subgraph, filter, j + 1);
    }
}

/// Resolve the GraphQL exposure of an object boolean-expression type:
/// validate the exposed type name, require the global filter-input
/// configuration, and classify every comparable field.
pub open spec fn resolve_object_boolean_graphql_model(
    name: QualifiedNameView,
    graphql_decl: BooleanExpressionTypeGraphQlConfigurationView,
    comparable_fields: ComparableFieldsView,
    scalars: ScalarTableView,
    raws: RawIndexView,
    subgraph: Seq<char>,
    graphql_config: GraphqlConfigView,
) -> Result<BooleanExpressionGraphqlConfigView, ErrorView> {
    if !is_valid_graphql_name(graphql_decl.graphql_type_name) {
        Err(ErrorView::InvalidGraphQlName { name: graphql_decl.graphql_type_name })
    } else {
        match graphql_config.filter_input_config {
            None => Err(ErrorView::GraphqlConfigError {
                graphql_config_error:
                    GraphqlConfigErrorView::MissingFilterInputFieldInGraphqlConfig,
            }),
            Some(filter) => match resolve_graphql_fields_model(
                comparable_fields,
                name,
                scalars,
                raws,
                subgraph,
                filter,
            ) {
                Err(e) => Err(e),
                Ok(entries) => Ok(BooleanExpressionGraphqlConfigView {
                    graphql_type_name: graphql_decl.graphql_type_name,
                    scalar_fields: entries.0,
                    object_fields: entries.1,
                    field_config: BooleanExpressionGraphqlFieldConfigView {
                        where_field_name: filter.where_field_name,
                        and_operator_name: filter.and_operator_name,
                        or_operator_name: filter.or_operator_name,
                        not_operator_name: filter.not_operator_name,
                    },
                }),
            },
        }
    }
}

/// Resolve an object boolean-expression type: look up the underlying
/// object type, resolve the comparable fields, cross-check connector
/// coverage, and resolve the optional GraphQL exposure.
pub open spec fn resolve_object_boolean_expression_type_model(
    name: QualifiedNameView,
    operand: BooleanExpressionObjectOperandView,
    subgraph: Seq<char>,
    graphql_decl: Option<BooleanExpressionTypeGraphQlConfigurationView>,
    object_types: ObjectTableView,
    scalars: ScalarTableView,
    raws: RawIndexView,
    graphql_config: GraphqlConfigView,
) -> Result<ResolvedObjectBooleanExpressionTypeView, ErrorView> {
    let object_type_name = qualify(subgraph, operand.object_type);
    match assoc_get(object_types, object_type_name) {
        None => Err(ErrorView::BooleanExpressionError {
            boolean_expression_error:
                BooleanExpressionErrorView::UnknownTypeInObjectBooleanExpressionType {
                object_type_name,
            },
        }),
        Some(object_type) => match resolve_comparable_fields_model(
            operand.comparable_fields,
            object_type,
            name,
            subgraph,
            raws,
        ) {
            Err(e) => Err(e),
            Ok(comparable_fields) => match resolve_data_connector_types_model(
                object_type.data_connectors,
                name,
                comparable_fields,
                scalars,
            ) {
                Err(e) => Err(e),
                Ok(_) => match graphql_decl {
                    None => Ok(ResolvedObjectBooleanExpressionTypeView {
                        name,
                        object_type: object_type_name,
                        graphql: None,
                    }),
                    Some(decl) => match resolve_object_boolean_graphql_model(
                        name,
                        decl,
                        comparable_fields,
                        scalars,
                        raws,
                        subgraph,
                        graphql_config,
                    ) {
                        Err(e) => Err(e),
                        Ok(graphql) => Ok(ResolvedObjectBooleanExpressionTypeView {
                            name,
                            object_type: object_type_name,
                            graphql: Some(graphql),
                        }),
                    },
                },
            },
        },
    }
}

} // verus!
