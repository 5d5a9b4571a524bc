//! Preparation of connector requests and handling of connector
//! responses.
//!
//! A resolved connector link carries distinct base URLs for queries and
//! mutations, statically configured headers, and an optional
//! response-size limit. Before a request is sent, a caller-supplied
//! tenant identifier may be appended — never replacing — those headers
//! as the `project-id` header. Of a mutation response only the first
//! operation result is consumed, and an empty result list is a hard
//! error, not an empty success. Errors of this family occur at request
//! time and are kept apart from resolution errors.
//!
//! The transport itself (sending the request, awaiting the response) is
//! outside this library; callers hand the prepared configuration to
//! their client and hand the decoded response back.

use vstd::prelude::*;

use crate::names::{QualifiedName, QualifiedNameView};

verus! {

/// One HTTP header a connector request carries.
#[derive(Debug, Clone, PartialEq, Eq)]
pub struct Header {
    pub name: String,
    pub value: String,
}

#[verifier::ext_equal]
pub struct HeaderView {
    pub name: Seq<char>,
    pub value: Seq<char>,
}

impl DeepView for Header {
    type V = HeaderView;

    open spec fn deep_view(&self) -> HeaderView {
        HeaderView { name: self.name@, value: self.value@ }
    }
}

/// A caller-supplied tenant identifier for multi-tenant routing.
#[derive(Debug, Clone, PartialEq, Eq)]
pub struct ProjectId(pub String);

impl DeepView for ProjectId {
    type V = Seq<char>;

    open spec fn deep_view(&self) -> Seq<char> {
        self.0@
    }
}

/// The two kinds of connector request, each sent to its own base URL.
#[derive(Debug, Clone, Copy, PartialEq, Eq)]
pub enum OperationType {
    Query,
    Mutation,
}

/// A resolved connector link: the connector's identity, its base URLs
/// per operation kind, and its statically configured headers.
#[derive(Debug, Clone, PartialEq, Eq)]
pub struct DataConnectorLink {
    pub name: QualifiedName,
    pub query_url: String,
    pub mutation_url: String,
    pub headers: Vec<Header>,
}

#[verifier::ext_equal]
pub struct DataConnectorLinkView {
    pub name: QualifiedNameView,
    pub query_url: Seq<char>,
    pub mutation_url: Seq<char>,
    pub headers: Seq<HeaderView>,
}

impl DeepView for DataConnectorLink {
    type V = DataConnectorLinkView;

    open spec fn deep_view(&self) -> DataConnectorLinkView {
        DataConnectorLinkView {
            name: self.name@,
            query_url: self.query_url@,
            mutation_url: self.mutation_url@,
            headers: self.headers.deep_view(),
        }
    }
}

/// The base URL a link uses for an operation kind.
pub open spec fn url_for(link: DataConnectorLinkView, operation: OperationType) -> Seq<char> {
    match operation {
        OperationType::Query => link.query_url,
        OperationType::Mutation => link.mutation_url,
    }
}

impl DataConnectorLink {
    /// The base URL for an operation kind: queries and mutations go to
    /// distinct endpoints.
    pub fn get_url(&self, operation: OperationType) -> (r: &String)
        ensures
            r@ == url_for(self.deep_view(), operation),
    {
        match operation {
            OperationType::Query => &self.query_url,
            OperationType::Mutation => &self.mutation_url,
        }
    }
}

/// Everything a connector client needs to issue one request: the chosen
/// base URL, the headers to send, and the response-size limit.
#[derive(Debug, Clone, PartialEq, Eq)]
pub struct ClientConfiguration {
    pub base_path: String,
    pub headers: Vec<Header>,
    pub response_size_limit: Option<usize>,
}

#[verifier::ext_equal]
pub struct ClientConfigurationView {
    pub base_path: Seq<char>,
    pub headers: Seq<HeaderView>,
    pub response_size_limit: Option<usize>,
}

impl DeepView for ClientConfiguration {
    type V = ClientConfigurationView;

    open spec fn deep_view(&self) -> ClientConfigurationView {
        ClientConfigurationView {
            base_path: self.base_path@,
            headers: self.headers.deep_view(),
            response_size_limit: self.response_size_limit,
        }
    }
}

/// A connector-client error: it arises while preparing or transporting
/// a request, a different lifecycle phase from resolution, and is never
/// conflated with a resolution error.
#[derive(Debug, Clone, PartialEq, Eq)]
pub enum ClientError {
    /// The caller-supplied tenant identifier is not a legal header
    /// value.
    InvalidHeaderValue { value: String },
}

#[verifier::ext_equal]
pub enum ClientErrorView {
    InvalidHeaderValue { value: Seq<char> },
}

impl DeepView for ClientError {
    type V = ClientErrorView;

    open spec fn deep_view(&self) -> ClientErrorView {
        match self {
            ClientError::InvalidHeaderValue { value } => ClientErrorView::InvalidHeaderValue {
                value: value@,
            },
        }
    }
}

/// A protocol-level surprise in a connector's response.
#[derive(Debug, Clone, PartialEq, Eq)]
pub enum NdcUnexpectedError {
    /// The response body does not have the promised shape; the summary
    /// says what was missing.
    BadNdcResponse { summary: String },
}

#[verifier::ext_equal]
pub enum NdcUnexpectedErrorView {
    BadNdcResponse { summary: Seq<char> },
}

impl DeepView for NdcUnexpectedError {
    type V = NdcUnexpectedErrorView;

    open spec fn deep_view(&self) -> NdcUnexpectedErrorView {
        match self {
            NdcUnexpectedError::BadNdcResponse { summary } => NdcUnexpectedErrorView::BadNdcResponse {
                summary: summary@,
            },
        }
    }
}

/// Whether a string is accepted as an HTTP header value. Acceptance is
/// decided by the transport library; it depends on the string's
/// characters alone.
pub uninterp spec fn is_valid_header_value(s: Seq<char>) -> bool;

/// Relies on `reqwest::header::HeaderValue::from_str`: it accepts or
/// rejects a string as a header value by its characters alone.
#[verifier::external_body]
fn header_value_is_valid(value: &str) -> (r: bool)
    ensures
        r == is_valid_header_value(value@),
{
    reqwest::header::HeaderValue::from_str(value).is_ok()
}

/// Copy a header list.
fn clone_headers(headers: &Vec<Header>) -> (r: Vec<Header>)
    ensures
        r.deep_view() == headers.deep_view(),
{
    let ghost headers_v = headers.deep_view();
    let mut out: Vec<Header> = Vec::new();
    let mut i: usize = 0;
    proof {
        assert(out.deep_view() =~= headers_v.take(0));
    }
    while i < headers.len()
        invariant
            i <= headers.len(),
            headers_v == headers.deep_view(),
            headers_v.len() == headers.len(),
            out.deep_view() == headers_v.take(i as int),
        decreases headers.len() - i,
    {
        let ghost prefix = out.deep_view();
        out.push(Header { name: headers[i].name.clone(), value: headers[i].value.clone() });
        proof {
            assert(out.deep_view() =~= prefix.push(headers_v[i as int]));
            assert(headers_v.take(i + 1) =~= headers_v.take(i as int).push(headers_v[i as int]));
        }
        i = i + 1;
    }
    proof {
        assert(headers_v.take(i as int) =~= headers_v);
    }
    out
}

/// Append the tenant identifier, when one was supplied, to the
/// connector's statically configured headers as the `project-id`
/// header; every configured header is kept unchanged. An identifier the
/// transport library rejects as a header value is the invalid-header
/// error.
pub fn append_project_id_to_headers(
    headers: &Vec<Header>,
    project_id: Option<&ProjectId>,
) -> (r: Result<Vec<Header>, ClientError>)
    ensures
        match r {
            Ok(h) => match project_id {
                None => h.deep_view() == headers.deep_view(),
                Some(pid) => is_valid_header_value(pid.0@) && h.deep_view()
                    == headers.deep_view().push(HeaderView { name: "project-id"@, value: pid.0@ }),
            },
            Err(e) => {
                &&& project_id matches Some(pid) && !is_valid_header_value(pid.0@)
                    && e.deep_view() == (ClientErrorView::InvalidHeaderValue { value: pid.0@ })
            },
        },
{
    match project_id {
        None => Ok(clone_headers(headers)),
        Some(project_id) => {
            if header_value_is_valid(project_id.0.as_str()) {
                let mut modified_headers = clone_headers(headers);
                modified_headers.push(
                    Header { name: String::from_str("project-id"), value: project_id.0.clone() },
                );
                proof {
                    assert(modified_headers.deep_view() =~= headers.deep_view().push(
                        HeaderView { name: "project-id"@, value: project_id.0@ },
                    ));
                }
                Ok(modified_headers)
            } else {
                Err(ClientError::InvalidHeaderValue { value: project_id.0.clone() })
            }
        },
    }
}

/// Prepare one connector request: pick the base URL for the operation
/// kind, append the tenant identifier to the configured headers, and
/// carry the response-size limit through.
pub fn make_client_configuration(
    data_connector: &DataConnectorLink,
    operation: OperationType,
    response_size_limit: Option<usize>,
    project_id: Option<&ProjectId>,
) -> (r: Result<ClientConfiguration, ClientError>)
    ensures
        match r {
            Ok(c) => {
                &&& c.deep_view().base_path == url_for(data_connector.deep_view(), operation)
                &&& c.deep_view().response_size_limit == response_size_limit
                &&& match project_id {
                    None => c.deep_view().headers == data_connector.deep_view().headers,
                    Some(pid) => is_valid_header_value(pid.0@) && c.deep_view().headers
                        == data_connector.deep_view().headers.push(
                        HeaderView { name: "project-id"@, value: pid.0@ },
                    ),
                }
            },
            Err(e) => {
                &&& project_id matches Some(pid) && !is_valid_header_value(pid.0@)
                    && e.deep_view() == (ClientErrorView::InvalidHeaderValue { value: pid.0@ })
            },
        },
{
    let headers = match append_project_id_to_headers(&data_connector.headers, project_id) {
        Ok(headers) => headers,
        Err(e) => {
            return Err(e);
        },
    };
    Ok(
        ClientConfiguration {
            base_path: data_connector.get_url(operation).clone(),
            headers,
            response_size_limit,
        },
    )
}

/// Take the one mutation result the engine consumes: the first of the
/// response's operation results. Zero results is the missing-rowset
/// error, not an empty success.
pub fn first_mutation_result<T>(operation_results: Vec<T>) -> (r: Result<T, NdcUnexpectedError>)
    ensures
        match r {
            Ok(first) => operation_results@.len() > 0 && first == operation_results@[0],
            Err(e) => operation_results@.len() == 0 && e.deep_view()
                == (NdcUnexpectedErrorView::BadNdcResponse { summary: "missing rowset"@ }),
        },
{
    let mut operation_results = operation_results;
    if operation_results.len() == 0 {
        Err(NdcUnexpectedError::BadNdcResponse { summary: String::from_str("missing rowset") })
    } else {
        Ok(operation_results.remove(0))
    }
}

} // verus!
