//! Laws of the boolean-expression stage, stated and proved over the
//! model in [`super::model`]. The executable functions' contracts pin
//! each result to that model, so these laws carry over to every run.

use vstd::prelude::*;

use crate::errors::{BooleanExpressionErrorView, ErrorView};
use crate::metadata::{
    BooleanExpressionObjectOperandView, BooleanExpressionTypeGraphQlConfigurationView,
    ComparableFieldDeclarationView, DataConnectorOperatorMappingView, GraphqlConfigView,
    ObjectTypeRepresentationView, object_type_has_field,
};
use crate::names::QualifiedNameView;
use crate::qmap::{assoc_contains, assoc_get};
use crate::boolean_expressions::model::{
    ComparableFieldsView, ObjectTableView, RawIndexView, ScalarTableView, field_lacks_connector,
    first_connector_gap, lemma_comparable_fields_error_persists, qualify,
    resolve_comparable_fields_model, resolve_data_connector_types_model,
    resolve_object_boolean_expression_type_model, resolve_operator_mapping_model,
};

verus! {

/// Resolution is a pure function of the raw metadata: resolving
/// identical inputs — in particular, resolving the same inputs twice
/// with no intervening mutation — yields an identical resolved value.
/// Together with the executable functions' contracts, which pin each
/// result to the model, two runs over equal inputs return equal values.
pub proof fn lemma_resolution_idempotent(
    name: QualifiedNameView,
    operand: BooleanExpressionObjectOperandView,
    subgraph: Seq<char>,
    graphql_decl: Option<BooleanExpressionTypeGraphQlConfigurationView>,
    object_types: ObjectTableView,
    scalars: ScalarTableView,
    raws: RawIndexView,
    graphql_config: GraphqlConfigView,
    name2: QualifiedNameView,
    operand2: BooleanExpressionObjectOperandView,
    subgraph2: Seq<char>,
    graphql_decl2: Option<BooleanExpressionTypeGraphQlConfigurationView>,
    object_types2: ObjectTableView,
    scalars2: ScalarTableView,
    raws2: RawIndexView,
    graphql_config2: GraphqlConfigView,
)
    requires
        name == name2,
        operand == operand2,
        subgraph == subgraph2,
        graphql_decl == graphql_decl2,
        object_types == object_types2,
        scalars == scalars2,
        raws == raws2,
        graphql_config == graphql_config2,
    ensures
        resolve_object_boolean_expression_type_model(
            name,
            operand,
            subgraph,
            graphql_decl,
            object_types,
            scalars,
            raws,
            graphql_config,
        ) == resolve_object_boolean_expression_type_model(
            name2,
            operand2,
            subgraph2,
            graphql_decl2,
            object_types2,
            scalars2,
            raws2,
            graphql_config2,
        ),
{
}

/// When the connector gap search reports a field, that field genuinely
/// exhibits the gap: it stands among the comparable fields and its
/// scalar target lacks an operator mapping for the connector.
pub proof fn lemma_connector_gap_sound(
    connector: QualifiedNameView,
    comparable_fields: ComparableFieldsView,
    scalars: ScalarTableView,
)
    requires
        first_connector_gap(connector, comparable_fields, scalars) is Some,
    ensures
        exists|j: int|
            0 <= j < comparable_fields.len() && field_lacks_connector(
                #[trigger] comparable_fields[j],
                connector,
                scalars,
            ) && comparable_fields[j].0 == first_connector_gap(
                connector,
                comparable_fields,
                scalars,
            ).unwrap(),
    decreases comparable_fields.len(),
{
    let rest = comparable_fields.drop_last();
    if first_connector_gap(connector, rest, scalars) is Some {
        lemma_connector_gap_sound(connector, rest, scalars);
        let j = choose|j: int|
            0 <= j < rest.len() && field_lacks_connector(#[trigger] rest[j], connector, scalars)
                && rest[j].0 == first_connector_gap(connector, rest, scalars).unwrap();
        assert(comparable_fields[j] == rest[j]);
    } else {
        assert(comparable_fields[comparable_fields.len() - 1] == comparable_fields.last());
    }
}

/// A comparable field whose scalar target lacks an operator mapping for
/// the connector makes the gap search report a field.
pub proof fn lemma_connector_gap_complete(
    connector: QualifiedNameView,
    comparable_fields: ComparableFieldsView,
    scalars: ScalarTableView,
    fi: int,
)
    requires
        0 <= fi < comparable_fields.len(),
        field_lacks_connector(comparable_fields[fi], connector, scalars),
    ensures
        first_connector_gap(connector, comparable_fields, scalars) is Some,
    decreases comparable_fields.len(),
{
    let rest = comparable_fields.drop_last();
    if fi < comparable_fields.len() - 1 {
        assert(rest[fi] == comparable_fields[fi]);
        lemma_connector_gap_complete(connector, rest, scalars, fi);
    } else {
        assert(comparable_fields.last() == comparable_fields[fi]);
    }
}

/// When the connector cross-check fails, the error names the owning
/// type, one of the object type's connectors, and a comparable field
/// genuinely lacking that connector's operator mapping.
pub proof fn lemma_data_connector_check_sound(
    connectors: Seq<QualifiedNameView>,
    name: QualifiedNameView,
    comparable_fields: ComparableFieldsView,
    scalars: ScalarTableView,
)
    requires
        resolve_data_connector_types_model(connectors, name, comparable_fields, scalars) is Err,
    ensures
        ({
            let e = resolve_data_connector_types_model(
                connectors,
                name,
                comparable_fields,
                scalars,
            )->Err_0;
            match e {
                ErrorView::BooleanExpressionError { boolean_expression_error } => match boolean_expression_error {
                    BooleanExpressionErrorView::DataConnectorMappingMissingForField {
                        field,
                        boolean_expression_name,
                        data_connector_name,
                    } => {
                        &&& boolean_expression_name == name
                        &&& connectors.contains(data_connector_name)
                        &&& exists|j: int|
                            0 <= j < comparable_fields.len() && field_lacks_connector(
                                #[trigger] comparable_fields[j],
                                data_connector_name,
                                scalars,
                            ) && comparable_fields[j].0 == field
                    },
                    _ => false,
                },
                _ => false,
            }
        }),
    decreases connectors.len(),
{
    let rest = connectors.drop_last();
    if resolve_data_connector_types_model(rest, name, comparable_fields, scalars) is Err {
        lemma_data_connector_check_sound(rest, name, comparable_fields, scalars);
        let e = resolve_data_connector_types_model(rest, name, comparable_fields, scalars)->Err_0;
        match e {
            ErrorView::BooleanExpressionError { boolean_expression_error } => match boolean_expression_error {
                BooleanExpressionErrorView::DataConnectorMappingMissingForField {
                    field,
                    boolean_expression_name,
                    data_connector_name,
                } => {
                    assert(rest.contains(data_connector_name));
                    let ci = choose|ci: int| 0 <= ci < rest.len() && rest[ci] == data_connector_name;
                    assert(connectors[ci] == data_connector_name);
                    assert(connectors.contains(data_connector_name));
                },
                _ => {},
            },
            _ => {},
        }
    } else {
        lemma_connector_gap_sound(connectors.last(), comparable_fields, scalars);
        assert(connectors[connectors.len() - 1] == connectors.last());
        assert(connectors.contains(connectors.last()));
    }
}

/// A connector named by the object type whose coverage has a gap makes
/// the connector cross-check fail.
pub proof fn lemma_data_connector_check_complete(
    connectors: Seq<QualifiedNameView>,
    name: QualifiedNameView,
    comparable_fields: ComparableFieldsView,
    scalars: ScalarTableView,
    ci: int,
    fi: int,
)
    requires
        0 <= ci < connectors.len(),
        0 <= fi < comparable_fields.len(),
        field_lacks_connector(comparable_fields[fi], connectors[ci], scalars),
    ensures
        resolve_data_connector_types_model(connectors, name, comparable_fields, scalars) is Err,
    decreases connectors.len(),
{
    let rest = connectors.drop_last();
    if ci < connectors.len() - 1 {
        assert(rest[ci] == connectors[ci]);
        lemma_data_connector_check_complete(rest, name, comparable_fields, scalars, ci, fi);
    } else {
        if resolve_data_connector_types_model(rest, name, comparable_fields, scalars) is Ok {
            lemma_connector_gap_complete(connectors[ci], comparable_fields, scalars, fi);
            assert(connectors.last() == connectors[ci]);
        }
    }
}

/// Connector-coverage law: for an object boolean-expression type T whose
/// underlying object type maps to connector C, a comparable field
/// targeting a scalar boolean-expression type S without an operator
/// mapping for C makes resolution of T fail, and the error names T, one
/// such field, and the connector it lacks.
pub proof fn lemma_connector_mapping_gap_fails(
    name: QualifiedNameView,
    operand: BooleanExpressionObjectOperandView,
    subgraph: Seq<char>,
    graphql_decl: Option<BooleanExpressionTypeGraphQlConfigurationView>,
    object_types: ObjectTableView,
    scalars: ScalarTableView,
    raws: RawIndexView,
    graphql_config: GraphqlConfigView,
    comparable_fields: ComparableFieldsView,
    ci: int,
    fi: int,
)
    requires
        assoc_get(object_types, qualify(subgraph, operand.object_type)) is Some,
        resolve_comparable_fields_model(
            operand.comparable_fields,
            assoc_get(object_types, qualify(subgraph, operand.object_type)).unwrap(),
            name,
            subgraph,
            raws,
        ) == Ok::<ComparableFieldsView, ErrorView>(comparable_fields),
        0 <= ci < assoc_get(
            object_types,
            qualify(subgraph, operand.object_type),
        ).unwrap().data_connectors.len(),
        0 <= fi < comparable_fields.len(),
        field_lacks_connector(
            comparable_fields[fi],
            assoc_get(object_types, qualify(subgraph, operand.object_type)).unwrap().data_connectors[ci],
            scalars,
        ),
    ensures
        resolve_object_boolean_expression_type_model(
            name,
            operand,
            subgraph,
            graphql_decl,
            object_types,
            scalars,
            raws,
            graphql_config,
        ) is Err,
        ({
            let e = resolve_object_boolean_expression_type_model(
                name,
                operand,
                subgraph,
                graphql_decl,
                object_types,
                scalars,
                raws,
                graphql_config,
            )->Err_0;
            let object_type = assoc_get(object_types, qualify(subgraph, operand.object_type)).unwrap();
            match e {
                ErrorView::BooleanExpressionError { boolean_expression_error } => match boolean_expression_error {
                    BooleanExpressionErrorView::DataConnectorMappingMissingForField {
                        field,
                        boolean_expression_name,
                        data_connector_name,
                    } => {
                        &&& boolean_expression_name == name
                        &&& object_type.data_connectors.contains(data_connector_name)
                        &&& exists|j: int|
                            0 <= j < comparable_fields.len() && field_lacks_connector(
                                #[trigger] comparable_fields[j],
                                data_connector_name,
                                scalars,
                            ) && comparable_fields[j].0 == field
                    },
                    _ => false,
                },
                _ => false,
            }
        }),
{
    let object_type = assoc_get(object_types, qualify(subgraph, operand.object_type)).unwrap();
    lemma_data_connector_check_complete(
        object_type.data_connectors,
        name,
        comparable_fields,
        scalars,
        ci,
        fi,
    );
    lemma_data_connector_check_sound(
        object_type.data_connectors,
        name,
        comparable_fields,
        scalars,
    );
}

/// The converse coverage law: when the connector cross-check passes,
/// every connector the object type maps to is covered — no comparable
/// field targets a scalar boolean-expression type lacking an operator
/// mapping for it.
pub proof fn lemma_success_implies_connector_coverage(
    connectors: Seq<QualifiedNameView>,
    name: QualifiedNameView,
    comparable_fields: ComparableFieldsView,
    scalars: ScalarTableView,
)
    requires
        resolve_data_connector_types_model(connectors, name, comparable_fields, scalars) is Ok,
    ensures
        forall|ci: int, fi: int|
            0 <= ci < connectors.len() && 0 <= fi < comparable_fields.len()
                ==> !field_lacks_connector(
                #[trigger] comparable_fields[fi],
                #[trigger] connectors[ci],
                scalars,
            ),
{
    assert forall|ci: int, fi: int|
        0 <= ci < connectors.len() && 0 <= fi < comparable_fields.len() implies !field_lacks_connector(
        #[trigger] comparable_fields[fi],
        #[trigger] connectors[ci],
        scalars,
    ) by {
        if field_lacks_connector(comparable_fields[fi], connectors[ci], scalars) {
            lemma_data_connector_check_complete(
                connectors,
                name,
                comparable_fields,
                scalars,
                ci,
                fi,
            );
        }
    }
}

/// The comparable fields up to a point that all name real fields and
/// existing references resolve without error.
pub proof fn lemma_comparable_fields_ok_prefix(
    fields: Seq<ComparableFieldDeclarationView>,
    object_type: ObjectTypeRepresentationView,
    name: QualifiedNameView,
    subgraph: Seq<char>,
    raws: RawIndexView,
    k: int,
)
    requires
        0 <= k <= fields.len(),
        forall|j: int| 0 <= j < k ==> object_type_has_field(
            object_type,
            (#[trigger] fields[j]).field_name,
        ) && assoc_contains(raws, qualify(subgraph, fields[j].boolean_expression_type)),
    ensures
        resolve_comparable_fields_model(fields.take(k), object_type, name, subgraph, raws) is Ok,
    decreases k,
{
    if k > 0 {
        lemma_comparable_fields_ok_prefix(fields, object_type, name, subgraph, raws, k - 1);
        assert(fields.take(k).drop_last() =~= fields.take(k - 1));
        assert(fields.take(k).last() == fields[k - 1]);
    }
}

/// Unknown-field law: a comparable field naming a field the underlying
/// object type does not declare — the first problematic field in
/// declaration order — makes resolution fail with the unknown-field
/// error, before any GraphQL configuration is attempted: the result is
/// the same for every GraphQL exposure argument.
pub proof fn lemma_unknown_field_fails(
    name: QualifiedNameView,
    operand: BooleanExpressionObjectOperandView,
    subgraph: Seq<char>,
    graphql_decl: Option<BooleanExpressionTypeGraphQlConfigurationView>,
    object_types: ObjectTableView,
    scalars: ScalarTableView,
    raws: RawIndexView,
    graphql_config: GraphqlConfigView,
    k: int,
)
    requires
        assoc_get(object_types, qualify(subgraph, operand.object_type)) is Some,
        0 <= k < operand.comparable_fields.len(),
        forall|j: int| 0 <= j < k ==> object_type_has_field(
            assoc_get(object_types, qualify(subgraph, operand.object_type)).unwrap(),
            (#[trigger] operand.comparable_fields[j]).field_name,
        ) && assoc_contains(
            raws,
            qualify(subgraph, operand.comparable_fields[j].boolean_expression_type),
        ),
        !object_type_has_field(
            assoc_get(object_types, qualify(subgraph, operand.object_type)).unwrap(),
            operand.comparable_fields[k].field_name,
        ),
    ensures
        resolve_object_boolean_expression_type_model(
            name,
            operand,
            subgraph,
            graphql_decl,
            object_types,
            scalars,
            raws,
            graphql_config,
        ) == Err::<
            crate::boolean_expressions::output::ResolvedObjectBooleanExpressionTypeView,
            ErrorView,
        >(
            ErrorView::BooleanExpressionError {
                boolean_expression_error:
                    BooleanExpressionErrorView::UnknownFieldInObjectBooleanExpressionType {
                    field_name: operand.comparable_fields[k].field_name,
                    object_boolean_expression_type: name,
                },
            },
        ),
{
    let object_type = assoc_get(object_types, qualify(subgraph, operand.object_type)).unwrap();
    let fields = operand.comparable_fields;
    lemma_comparable_fields_ok_prefix(fields, object_type, name, subgraph, raws, k);
    assert(fields.take(k + 1).drop_last() =~= fields.take(k));
    assert(fields.take(k + 1).last() == fields[k]);
    lemma_comparable_fields_error_persists(fields, object_type, name, subgraph, raws, k + 1);
    assert(fields.take(fields.len() as int) =~= fields);
}

/// Missing-reference law: a comparable field referencing a
/// boolean-expression type absent from the raw declarations — the first
/// problematic field in declaration order — makes resolution fail with
/// the not-found error, whatever flavor the reference would have had:
/// the premises never inspect a flavor, and the result is again the
/// same for every GraphQL exposure argument.
pub proof fn lemma_missing_reference_fails(
    name: QualifiedNameView,
    operand: BooleanExpressionObjectOperandView,
    subgraph: Seq<char>,
    graphql_decl: Option<BooleanExpressionTypeGraphQlConfigurationView>,
    object_types: ObjectTableView,
    scalars: ScalarTableView,
    raws: RawIndexView,
    graphql_config: GraphqlConfigView,
    k: int,
)
    requires
        assoc_get(object_types, qualify(subgraph, operand.object_type)) is Some,
        0 <= k < operand.comparable_fields.len(),
        forall|j: int| 0 <= j < k ==> object_type_has_field(
            assoc_get(object_types, qualify(subgraph, operand.object_type)).unwrap(),
            (#[trigger] operand.comparable_fields[j]).field_name,
        ) && assoc_contains(
            raws,
            qualify(subgraph, operand.comparable_fields[j].boolean_expression_type),
        ),
        object_type_has_field(
            assoc_get(object_types, qualify(subgraph, operand.object_type)).unwrap(),
            operand.comparable_fields[k].field_name,
        ),
        !assoc_contains(
            raws,
            qualify(subgraph, operand.comparable_fields[k].boolean_expression_type),
        ),
    ensures
        resolve_object_boolean_expression_type_model(
            name,
            operand,
            subgraph,
            graphql_decl,
            object_types,
            scalars,
            raws,
            graphql_config,
        ) == Err::<
            crate::boolean_expressions::output::ResolvedObjectBooleanExpressionTypeView,
            ErrorView,
        >(
            ErrorView::BooleanExpressionError {
                boolean_expression_error:
                    BooleanExpressionErrorView::BooleanExpressionCouldNotBeFound {
                    parent_boolean_expression: name,
                    child_boolean_expression: qualify(
                        subgraph,
                        operand.comparable_fields[k].boolean_expression_type,
                    ),
                },
            },
        ),
{
    let object_type = assoc_get(object_types, qualify(subgraph, operand.object_type)).unwrap();
    let fields = operand.comparable_fields;
    lemma_comparable_fields_ok_prefix(fields, object_type, name, subgraph, raws, k);
    assert(fields.take(k + 1).drop_last() =~= fields.take(k));
    assert(fields.take(k + 1).last() == fields[k]);
    lemma_comparable_fields_error_persists(fields, object_type, name, subgraph, raws, k + 1);
    assert(fields.take(fields.len() as int) =~= fields);
}

/// When comparable-field resolution succeeds, its output mirrors the
/// declarations one for one: every declared field is kept, in order,
/// under its own name, qualified with the owning subgraph — and every
/// declared field names a real field of the underlying object type and
/// references an existing raw declaration.
pub proof fn lemma_comparable_fields_ok_characterized(
    fields: Seq<ComparableFieldDeclarationView>,
    object_type: ObjectTypeRepresentationView,
    name: QualifiedNameView,
    subgraph: Seq<char>,
    raws: RawIndexView,
    comparable_fields: ComparableFieldsView,
)
    requires
        resolve_comparable_fields_model(fields, object_type, name, subgraph, raws)
            == Ok::<ComparableFieldsView, crate::errors::ErrorView>(comparable_fields),
    ensures
        comparable_fields.len() == fields.len(),
        forall|i: int| 0 <= i < fields.len() ==> {
            &&& (#[trigger] comparable_fields[i]).0 == fields[i].field_name
            &&& comparable_fields[i].1 == qualify(subgraph, fields[i].boolean_expression_type)
            &&& object_type_has_field(object_type, fields[i].field_name)
            &&& assoc_contains(raws, qualify(subgraph, fields[i].boolean_expression_type))
        },
    decreases fields.len(),
{
    if fields.len() > 0 {
        let prefix = resolve_comparable_fields_model(
            fields.drop_last(),
            object_type,
            name,
            subgraph,
            raws,
        )->Ok_0;
        lemma_comparable_fields_ok_characterized(
            fields.drop_last(),
            object_type,
            name,
            subgraph,
            raws,
            prefix,
        );
        assert(forall|i: int| 0 <= i < fields.len() - 1 ==> fields.drop_last()[i] == fields[i]);
        assert(forall|i: int|
            0 <= i < fields.len() - 1 ==> #[trigger] comparable_fields[i] == prefix[i]);
        assert(fields.last() == fields[fields.len() - 1]);
        assert(comparable_fields[fields.len() - 1] == comparable_fields.last());
    }
}

/// Round-trip law: an operator mapping a scalar boolean-expression type
/// declares for a connector appears unchanged, under the same
/// connector, in the per-connector operator mapping of every resolved
/// comparison field built from that scalar type.
pub proof fn lemma_operator_mapping_round_trip(
    mappings: Seq<(QualifiedNameView, DataConnectorOperatorMappingView)>,
    connector: QualifiedNameView,
    mapping: DataConnectorOperatorMappingView,
)
    requires
        assoc_get(mappings, connector) == Some(mapping),
    ensures
        assoc_get(resolve_operator_mapping_model(mappings), connector) == Some(
            mapping.operator_mapping,
        ),
    decreases mappings.len(),
{
    let resolved = resolve_operator_mapping_model(mappings);
    let rest = mappings.drop_last();
    if mappings.last().0 == connector {
        assert(resolved.last() == (mappings.last().0, mappings.last().1.operator_mapping));
    } else {
        lemma_operator_mapping_round_trip(rest, connector, mapping);
        assert(resolved.drop_last() =~= resolve_operator_mapping_model(rest));
    }
}

} // verus!
