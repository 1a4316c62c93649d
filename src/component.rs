//! The operations the host calls: each maps one inbound event and returns the
//! HTTP request that delivers the batch.

use vstd::prelude::*;
use crate::error::MappingError;
use crate::inbound::{Dict, Event};
use crate::json::{payload_json, payload_text};
use crate::mapping::{page_payload, page_spec, track_payload, track_spec, user_payload, user_spec};
use crate::payload::{AmplitudePayload, PayloadView};

verus! {

#[derive(Debug, Clone, Copy, PartialEq, Eq, Structural)]
pub enum HttpMethod {
    Get,
    Put,
    Post,
    Delete,
}

/// What an `EdgeeRequest` says.
pub struct EdgeeRequestView {
    pub method: HttpMethod,
    pub url: Seq<char>,
    pub headers: Seq<(Seq<char>, Seq<char>)>,
    pub body: Seq<char>,
}

/// An HTTP request for the host to perform.
#[derive(Debug)]
pub struct EdgeeRequest {
    pub method: HttpMethod,
    pub url: String,
    pub headers: Vec<(String, String)>,
    pub body: String,
}

impl View for EdgeeRequest {
    type V = EdgeeRequestView;

    open spec fn view(&self) -> EdgeeRequestView {
        EdgeeRequestView {
            method: self.method,
            url: self.url@,
            headers: self.headers.deep_view(),
            body: self.body@,
        }
    }
}

/// The request that delivers batch `p`: a JSON `POST` to its endpoint.
pub open spec fn request_spec(p: PayloadView) -> EdgeeRequestView {
    EdgeeRequestView {
        method: HttpMethod::Post,
        url: p.endpoint,
        headers: seq![("content-type"@, "application/json"@)],
        body: payload_text(p),
    }
}

/// The outcome of an operation, from the outcome of its mapping.
pub open spec fn request_outcome(m: Result<PayloadView, MappingError>) -> Result<
    EdgeeRequestView,
    MappingError,
> {
    match m {
        Ok(p) => Ok(request_spec(p)),
        Err(e) => Err(e),
    }
}

pub open spec fn request_view(r: Result<EdgeeRequest, MappingError>) -> Result<
    EdgeeRequestView,
    MappingError,
> {
    match r {
        Ok(req) => Ok(req@),
        Err(e) => Err(e),
    }
}

/// Wraps a batch into the request that delivers it.
pub fn build_edgee_request(amplitude_payload: AmplitudePayload) -> (r: EdgeeRequest)
    ensures
        r@ == request_spec(amplitude_payload@),
{
    let body = payload_json(&amplitude_payload);
    let mut headers: Vec<(String, String)> = Vec::new();
    headers.push((String::from_str("content-type"), String::from_str("application/json")));
    assert(headers.deep_view() =~= seq![("content-type"@, "application/json"@)]);
    EdgeeRequest { method: HttpMethod::Post, url: amplitude_payload.endpoint, headers, body }
}

fn deliver(m: Result<AmplitudePayload, MappingError>) -> (r: Result<EdgeeRequest, MappingError>)
    ensures
        request_view(r) == request_outcome(
            match m {
                Ok(p) => Ok(p@),
                Err(e) => Err(e),
            },
        ),
{
    match m {
        Ok(p) => Ok(build_edgee_request(p)),
        Err(e) => Err(e),
    }
}

/// The component the host registers.
pub struct AmplitudeComponent;

impl AmplitudeComponent {
    /// Delivers a page view, preceded by the session-boundary markers it implies.
    pub fn page(edgee_event: Event, cred_map: Dict) -> (r: Result<EdgeeRequest, MappingError>)
        requires
            edgee_event.context.session.session_start ==> edgee_event.timestamp >= i64::MIN + 2,
        ensures
            request_view(r) == request_outcome(page_spec(&edgee_event, cred_map.deep_view())),
    {
        deliver(page_payload(&edgee_event, cred_map))
    }

    /// Delivers a custom track event.
    pub fn track(edgee_event: Event, cred_map: Dict) -> (r: Result<EdgeeRequest, MappingError>)
        ensures
            request_view(r) == request_outcome(track_spec(&edgee_event, cred_map.deep_view())),
    {
        deliver(track_payload(&edgee_event, cred_map))
    }

    /// Delivers an identify call.
    pub fn user(edgee_event: Event, cred_map: Dict) -> (r: Result<EdgeeRequest, MappingError>)
        ensures
            request_view(r) == request_outcome(user_spec(&edgee_event, cred_map.deep_view())),
    {
        deliver(user_payload(&edgee_event, cred_map))
    }
}

} // verus!
