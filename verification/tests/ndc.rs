//! Tests of connector request preparation and response handling.

use metadata_resolve::names::QualifiedName;
use metadata_resolve::ndc::{
    append_project_id_to_headers, first_mutation_result, make_client_configuration, ClientError,
    DataConnectorLink, Header, NdcUnexpectedError, OperationType, ProjectId,
};

fn header(name: &str, value: &str) -> Header {
    Header { name: name.to_string(), value: value.to_string() }
}

fn db_link() -> DataConnectorLink {
    DataConnectorLink {
        name: QualifiedName::new("default", "db1"),
        query_url: "http://db1.example/query".to_string(),
        mutation_url: "http://db1.example/mutation".to_string(),
        headers: vec![header("authorization", "token123"), header("x-static", "kept")],
    }
}

#[test]
fn query_and_mutation_use_distinct_urls() {
    let link = db_link();
    assert_eq!(link.get_url(OperationType::Query), "http://db1.example/query");
    assert_eq!(link.get_url(OperationType::Mutation), "http://db1.example/mutation");
}

#[test]
fn project_id_header_is_appended_to_configured_headers() {
    let link = db_link();
    let project_id = ProjectId("tenant-1".to_string());
    let configuration =
        make_client_configuration(&link, OperationType::Query, Some(1024), Some(&project_id))
            .expect("configuration must build");
    assert_eq!(configuration.base_path, "http://db1.example/query");
    assert_eq!(configuration.response_size_limit, Some(1024));
    // All statically configured headers are unchanged, and project-id
    // is appended after them.
    assert_eq!(configuration.headers.len(), 3);
    assert_eq!(configuration.headers[0], header("authorization", "token123"));
    assert_eq!(configuration.headers[1], header("x-static", "kept"));
    assert_eq!(configuration.headers[2], header("project-id", "tenant-1"));
}

#[test]
fn without_project_id_headers_are_unchanged() {
    let link = db_link();
    let configuration = make_client_configuration(&link, OperationType::Mutation, None, None)
        .expect("configuration must build");
    assert_eq!(configuration.base_path, "http://db1.example/mutation");
    assert_eq!(configuration.headers, link.headers);
}

#[test]
fn append_project_id_to_headers_appends_one_header() {
    let headers = vec![header("a", "1")];
    let project_id = ProjectId("p".to_string());
    let appended =
        append_project_id_to_headers(&headers, Some(&project_id)).expect("must append");
    assert_eq!(appended, vec![header("a", "1"), header("project-id", "p")]);
    let unchanged = append_project_id_to_headers(&headers, None).expect("must pass through");
    assert_eq!(unchanged, headers);
}

#[test]
fn illegal_project_id_is_rejected_as_header_value() {
    let headers = vec![header("a", "1")];
    let project_id = ProjectId("bad\nvalue".to_string());
    let err = append_project_id_to_headers(&headers, Some(&project_id))
        .expect_err("a newline is not a legal header value");
    match err {
        ClientError::InvalidHeaderValue { value } => assert_eq!(value, "bad\nvalue"),
    }
}

#[test]
fn mutation_with_zero_operation_results_is_a_missing_rowset_error() {
    let results: Vec<u64> = vec![];
    let err = first_mutation_result(results).expect_err("zero results must fail");
    match err {
        NdcUnexpectedError::BadNdcResponse { summary } => assert_eq!(summary, "missing rowset"),
    }
}

#[test]
fn mutation_consumes_the_first_operation_result() {
    let results = vec!["first".to_string(), "second".to_string()];
    let first = first_mutation_result(results).expect("must succeed");
    assert_eq!(first, "first");
}
