//! Tests of the boolean-expression resolution stage.

use metadata_resolve::boolean_expressions::object::resolve_object_boolean_expression_type;
use metadata_resolve::errors::{BooleanExpressionError, Error, GraphqlConfigError};
use metadata_resolve::metadata::{
    BooleanExpressionObjectOperand, BooleanExpressionOperand, BooleanExpressionScalarOperand,
    BooleanExpressionTypeDeclaration, BooleanExpressionTypeGraphQlConfiguration,
    ComparableFieldDeclaration, ComparisonOperator, DataConnectorOperatorMapping,
    FieldDefinition, FilterInputGraphqlConfig, GraphqlConfig, ObjectTypeRepresentation,
    OperatorNamePair, RawBooleanExpressionType, ResolvedScalarBooleanExpressionType,
};
use metadata_resolve::names::QualifiedName;
use metadata_resolve::qmap::QualifiedMap;

fn qn(subgraph: &str, name: &str) -> QualifiedName {
    QualifiedName::new(subgraph, name)
}

fn genre_object_type(connectors: Vec<&str>) -> ObjectTypeRepresentation {
    ObjectTypeRepresentation {
        fields: vec![
            FieldDefinition { name: "id".to_string(), field_type: "Int".to_string() },
            FieldDefinition { name: "name".to_string(), field_type: "String".to_string() },
            FieldDefinition { name: "movies".to_string(), field_type: "[movie]".to_string() },
        ],
        data_connectors: connectors.into_iter().map(|c| qn("default", c)).collect(),
    }
}

fn scalar_type(
    graphql_name: Option<&str>,
    operators: Vec<(&str, &str)>,
    mappings: Vec<(&str, Vec<(&str, &str)>)>,
) -> ResolvedScalarBooleanExpressionType {
    let mut mapping_table = QualifiedMap::new();
    for (connector, pairs) in mappings {
        mapping_table.insert(
            qn("default", connector),
            DataConnectorOperatorMapping {
                operator_mapping: pairs
                    .into_iter()
                    .map(|(logical, physical)| OperatorNamePair {
                        logical: logical.to_string(),
                        physical: physical.to_string(),
                    })
                    .collect(),
            },
        );
    }
    ResolvedScalarBooleanExpressionType {
        graphql_name: graphql_name.map(|n| n.to_string()),
        comparison_operators: operators
            .into_iter()
            .map(|(name, argument_type)| ComparisonOperator {
                name: name.to_string(),
                argument_type: argument_type.to_string(),
            })
            .collect(),
        data_connector_operator_mappings: mapping_table,
    }
}

fn scalar_raw_declaration(scalar_type_name: &str) -> RawBooleanExpressionType {
    RawBooleanExpressionType {
        subgraph: "default".to_string(),
        declaration: BooleanExpressionTypeDeclaration {
            operand: BooleanExpressionOperand::Scalar(BooleanExpressionScalarOperand {
                scalar_type: scalar_type_name.to_string(),
            }),
            graphql: None,
        },
    }
}

fn genre_operand(fields: Vec<(&str, &str)>) -> BooleanExpressionObjectOperand {
    BooleanExpressionObjectOperand {
        object_type: "genre".to_string(),
        comparable_fields: fields
            .into_iter()
            .map(|(field_name, boolean_expression_type)| ComparableFieldDeclaration {
                field_name: field_name.to_string(),
                boolean_expression_type: boolean_expression_type.to_string(),
            })
            .collect(),
    }
}

fn filter_config() -> GraphqlConfig {
    GraphqlConfig {
        filter_input_config: Some(FilterInputGraphqlConfig {
            where_field_name: "where".to_string(),
            and_operator_name: "_and".to_string(),
            or_operator_name: "_or".to_string(),
            not_operator_name: "_not".to_string(),
            is_null_operator_name: "_is_null".to_string(),
        }),
    }
}

struct Fixture {
    object_types: QualifiedMap<ObjectTypeRepresentation>,
    scalars: QualifiedMap<ResolvedScalarBooleanExpressionType>,
    raws: QualifiedMap<RawBooleanExpressionType>,
    graphql_config: GraphqlConfig,
}

/// Scenario A's tables: `genre` maps to connector `default`; Int and
/// String scalar boolean-expression types both carry an operator
/// mapping for `default`.
fn scenario_a_fixture() -> Fixture {
    let mut object_types = QualifiedMap::new();
    object_types.insert(qn("default", "genre"), genre_object_type(vec!["default"]));

    let mut scalars = QualifiedMap::new();
    scalars.insert(
        qn("default", "int_bool_exp"),
        scalar_type(
            Some("Int_Comparison_Exp"),
            vec![("_eq", "Int")],
            vec![("default", vec![("_eq", "_eq")])],
        ),
    );
    scalars.insert(
        qn("default", "string_bool_exp"),
        scalar_type(
            Some("String_Comparison_Exp"),
            vec![("_eq", "String")],
            vec![("default", vec![("_eq", "_eq")])],
        ),
    );

    let mut raws = QualifiedMap::new();
    raws.insert(qn("default", "int_bool_exp"), scalar_raw_declaration("Int"));
    raws.insert(qn("default", "string_bool_exp"), scalar_raw_declaration("String"));

    Fixture { object_types, scalars, raws, graphql_config: filter_config() }
}

fn resolve_with(
    fixture: &Fixture,
    fields: Vec<(&str, &str)>,
    graphql: Option<&str>,
) -> Result<
    metadata_resolve::boolean_expressions::output::ResolvedObjectBooleanExpressionType,
    Error,
> {
    resolve_object_boolean_expression_type(
        &qn("default", "genre_bool_exp"),
        &genre_operand(fields),
        "default",
        &graphql.map(|exposed_name| BooleanExpressionTypeGraphQlConfiguration {
            graphql_type_name: exposed_name.to_string(),
        }),
        &fixture.object_types,
        &fixture.scalars,
        &fixture.raws,
        &fixture.graphql_config,
    )
}

#[test]
fn scenario_a_succeeds_with_scalar_comparison_fields() {
    let fixture = scenario_a_fixture();
    let resolved = resolve_with(
        &fixture,
        vec![("id", "int_bool_exp"), ("name", "string_bool_exp")],
        Some("Genre_Bool_Exp"),
    )
    .expect("scenario A must resolve");

    assert_eq!(resolved.name, qn("default", "genre_bool_exp"));
    assert_eq!(resolved.object_type, qn("default", "genre"));
    let graphql = resolved.graphql.expect("graphql surface expected");
    assert_eq!(graphql.graphql_type_name, "Genre_Bool_Exp");
    let scalar_field_names: Vec<&str> =
        graphql.scalar_fields.iter().map(|(n, _)| n.as_str()).collect();
    assert_eq!(scalar_field_names, vec!["id", "name"]);
    assert!(graphql.object_fields.is_empty());
    assert_eq!(graphql.field_config.where_field_name, "where");
    assert_eq!(graphql.field_config.and_operator_name, "_and");
    assert_eq!(graphql.field_config.or_operator_name, "_or");
    assert_eq!(graphql.field_config.not_operator_name, "_not");
    for (_, info) in &graphql.scalar_fields {
        assert_eq!(info.is_null_operator_name, "_is_null");
    }
}

#[test]
fn scenario_b_fails_naming_the_uncovered_field() {
    let fixture = {
        let mut fixture = scenario_a_fixture();
        // The String scalar type loses its mapping for connector
        // `default`, which `genre` maps to.
        fixture.scalars.insert(
            qn("default", "string_bool_exp"),
            scalar_type(Some("String_Comparison_Exp"), vec![("_eq", "String")], vec![]),
        );
        fixture
    };
    let err = resolve_with(
        &fixture,
        vec![("id", "int_bool_exp"), ("name", "string_bool_exp")],
        Some("Genre_Bool_Exp"),
    )
    .expect_err("scenario B must fail");

    match err {
        Error::BooleanExpressionError {
            boolean_expression_error:
                BooleanExpressionError::DataConnectorMappingMissingForField {
                    field,
                    boolean_expression_name,
                    data_connector_name,
                },
        } => {
            assert_eq!(field, "name");
            assert_eq!(boolean_expression_name, qn("default", "genre_bool_exp"));
            assert_eq!(data_connector_name, qn("default", "default"));
        }
        other => panic!("unexpected error: {other:?}"),
    }
}

#[test]
fn unknown_field_is_rejected() {
    let fixture = scenario_a_fixture();
    let err = resolve_with(
        &fixture,
        vec![("color", "int_bool_exp")],
        Some("Genre_Bool_Exp"),
    )
    .expect_err("unknown field must fail");
    match err {
        Error::BooleanExpressionError {
            boolean_expression_error:
                BooleanExpressionError::UnknownFieldInObjectBooleanExpressionType {
                    field_name,
                    object_boolean_expression_type,
                },
        } => {
            assert_eq!(field_name, "color");
            assert_eq!(object_boolean_expression_type, qn("default", "genre_bool_exp"));
        }
        other => panic!("unexpected error: {other:?}"),
    }
}

#[test]
fn unknown_field_is_rejected_before_graphql_config_is_read() {
    // Even with an illegal GraphQL type name and no filter-input
    // configuration, the unknown field is what fails.
    let mut fixture = scenario_a_fixture();
    fixture.graphql_config = GraphqlConfig { filter_input_config: None };
    let err = resolve_with(&fixture, vec![("color", "int_bool_exp")], Some("123 bad name"))
        .expect_err("unknown field must fail first");
    assert!(matches!(
        err,
        Error::BooleanExpressionError {
            boolean_expression_error:
                BooleanExpressionError::UnknownFieldInObjectBooleanExpressionType { .. },
        }
    ));
}

#[test]
fn missing_reference_is_rejected() {
    let fixture = scenario_a_fixture();
    let err = resolve_with(
        &fixture,
        vec![("id", "vanished_bool_exp")],
        Some("Genre_Bool_Exp"),
    )
    .expect_err("missing reference must fail");
    match err {
        Error::BooleanExpressionError {
            boolean_expression_error:
                BooleanExpressionError::BooleanExpressionCouldNotBeFound {
                    parent_boolean_expression,
                    child_boolean_expression,
                },
        } => {
            assert_eq!(parent_boolean_expression, qn("default", "genre_bool_exp"));
            assert_eq!(child_boolean_expression, qn("default", "vanished_bool_exp"));
        }
        other => panic!("unexpected error: {other:?}"),
    }
}

#[test]
fn unknown_underlying_object_type_is_rejected() {
    let fixture = scenario_a_fixture();
    let err = resolve_object_boolean_expression_type(
        &qn("default", "movie_bool_exp"),
        &BooleanExpressionObjectOperand {
            object_type: "movie".to_string(),
            comparable_fields: vec![],
        },
        "default",
        &None,
        &fixture.object_types,
        &fixture.scalars,
        &fixture.raws,
        &fixture.graphql_config,
    )
    .expect_err("unknown object type must fail");
    match err {
        Error::BooleanExpressionError {
            boolean_expression_error:
                BooleanExpressionError::UnknownTypeInObjectBooleanExpressionType {
                    object_type_name,
                },
        } => assert_eq!(object_type_name, qn("default", "movie")),
        other => panic!("unexpected error: {other:?}"),
    }
}

#[test]
fn missing_filter_input_config_fails_graphql_resolution_only() {
    let mut fixture = scenario_a_fixture();
    fixture.graphql_config = GraphqlConfig { filter_input_config: None };

    // Without a GraphQL surface the type still resolves.
    let resolved = resolve_with(&fixture, vec![("id", "int_bool_exp")], None)
        .expect("internal-only type must resolve");
    assert!(resolved.graphql.is_none());

    // Asking for a GraphQL surface without the global filter-input
    // configuration fails with the configuration error.
    let err = resolve_with(&fixture, vec![("id", "int_bool_exp")], Some("Genre_Bool_Exp"))
        .expect_err("graphql surface must fail");
    assert!(matches!(
        err,
        Error::GraphqlConfigError {
            graphql_config_error: GraphqlConfigError::MissingFilterInputFieldInGraphqlConfig,
        }
    ));
}

#[test]
fn illegal_graphql_type_name_is_rejected() {
    let fixture = scenario_a_fixture();
    let err = resolve_with(&fixture, vec![("id", "int_bool_exp")], Some("123Bad"))
        .expect_err("illegal name must fail");
    match err {
        Error::InvalidGraphQlName { name } => assert_eq!(name, "123Bad"),
        other => panic!("unexpected error: {other:?}"),
    }
}

#[test]
fn scalar_field_without_operators_is_not_exposed() {
    let mut fixture = scenario_a_fixture();
    fixture.scalars.insert(
        qn("default", "int_bool_exp"),
        scalar_type(Some("Int_Comparison_Exp"), vec![], vec![("default", vec![])]),
    );
    let resolved = resolve_with(&fixture, vec![("id", "int_bool_exp")], Some("Genre_Bool_Exp"))
        .expect("must resolve");
    let graphql = resolved.graphql.expect("graphql surface expected");
    assert!(graphql.scalar_fields.is_empty());
}

#[test]
fn object_flavored_field_becomes_object_comparison_field() {
    let mut fixture = scenario_a_fixture();
    // A nested predicate: comparing `movies` through a boolean
    // expression over the `movie` object type, declared with a GraphQL
    // name and an object-flavored operand.
    fixture.raws.insert(
        qn("default", "movie_bool_exp"),
        RawBooleanExpressionType {
            subgraph: "default".to_string(),
            declaration: BooleanExpressionTypeDeclaration {
                operand: BooleanExpressionOperand::Object(BooleanExpressionObjectOperand {
                    object_type: "movie".to_string(),
                    comparable_fields: vec![],
                }),
                graphql: Some(BooleanExpressionTypeGraphQlConfiguration {
                    graphql_type_name: "Movie_Bool_Exp".to_string(),
                }),
            },
        },
    );
    let resolved = resolve_with(
        &fixture,
        vec![("movies", "movie_bool_exp")],
        Some("Genre_Bool_Exp"),
    )
    .expect("must resolve");
    let graphql = resolved.graphql.expect("graphql surface expected");
    assert!(graphql.scalar_fields.is_empty());
    assert_eq!(graphql.object_fields.len(), 1);
    let (field_name, info) = &graphql.object_fields[0];
    assert_eq!(field_name, "movies");
    assert_eq!(info.object_type_name, qn("default", "movie_bool_exp"));
    assert_eq!(info.underlying_object_type_name, qn("default", "movie"));
    assert_eq!(info.graphql_type_name, "Movie_Bool_Exp");
}

#[test]
fn object_flavored_field_without_graphql_name_is_skipped() {
    let mut fixture = scenario_a_fixture();
    fixture.raws.insert(
        qn("default", "movie_bool_exp"),
        RawBooleanExpressionType {
            subgraph: "default".to_string(),
            declaration: BooleanExpressionTypeDeclaration {
                operand: BooleanExpressionOperand::Object(BooleanExpressionObjectOperand {
                    object_type: "movie".to_string(),
                    comparable_fields: vec![],
                }),
                graphql: None,
            },
        },
    );
    let resolved = resolve_with(
        &fixture,
        vec![("movies", "movie_bool_exp")],
        Some("Genre_Bool_Exp"),
    )
    .expect("must resolve");
    let graphql = resolved.graphql.expect("graphql surface expected");
    assert!(graphql.scalar_fields.is_empty());
    assert!(graphql.object_fields.is_empty());
}

#[test]
fn resolving_twice_yields_identical_metadata() {
    let run = || {
        let fixture = scenario_a_fixture();
        resolve_with(
            &fixture,
            vec![("id", "int_bool_exp"), ("name", "string_bool_exp")],
            Some("Genre_Bool_Exp"),
        )
        .expect("must resolve")
    };
    assert_eq!(run(), run());
}

#[test]
fn operator_mapping_for_connector_round_trips() {
    let fixture = {
        let mut fixture = scenario_a_fixture();
        fixture.object_types.insert(qn("default", "genre"), genre_object_type(vec!["db1"]));
        fixture.scalars.insert(
            qn("default", "int_bool_exp"),
            scalar_type(
                Some("Int_Comparison_Exp"),
                vec![("_eq", "Int")],
                vec![("db1", vec![("_eq", "_eq")])],
            ),
        );
        fixture
    };
    let resolved = resolve_with(&fixture, vec![("id", "int_bool_exp")], Some("Genre_Bool_Exp"))
        .expect("must resolve");
    let graphql = resolved.graphql.expect("graphql surface expected");
    let (_, info) = &graphql.scalar_fields[0];
    let db1_mapping = info
        .operator_mapping
        .get(&qn("default", "db1"))
        .expect("db1 mapping must be present");
    assert_eq!(db1_mapping.len(), 1);
    assert_eq!(db1_mapping[0].logical, "_eq");
    assert_eq!(db1_mapping[0].physical, "_eq");
}

#[test]
fn operators_are_qualified_with_the_owning_subgraph() {
    let fixture = scenario_a_fixture();
    let resolved = resolve_with(&fixture, vec![("id", "int_bool_exp")], Some("Genre_Bool_Exp"))
        .expect("must resolve");
    let graphql = resolved.graphql.expect("graphql surface expected");
    let (_, info) = &graphql.scalar_fields[0];
    assert_eq!(info.graphql_type_name, "Int_Comparison_Exp");
    assert_eq!(info.operators.len(), 1);
    assert_eq!(info.operators[0].name, "_eq");
    assert_eq!(info.operators[0].argument_type, qn("default", "Int"));
}
