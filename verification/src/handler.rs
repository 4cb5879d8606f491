//! The dispatcher: one terminal pass over a single request. It validates the
//! callback target first (without one, nothing can be delivered anywhere),
//! then detects the phase, parses the phase's envelope, routes it to the
//! matching provider operation, and serializes the returned response together
//! with the target it is to be delivered to. The delivery itself — an HTTP
//! PUT of the body to the target — is the host's step.
use crate::error::Error;
use crate::events::RequestType;
use crate::raw::{request_type, spec_request_type, RawEvent};
use crate::response::{response_json, response_to_json, ProviderResponse};
use crate::types::{
    create_parse_cause, create_parse_ok, delete_parse_cause, delete_parse_ok, spec_parse_create,
    spec_parse_delete, spec_parse_update, update_parse_cause, update_parse_ok, CreateEvent,
    DeleteEvent, Provider, UpdateEvent,
};
use std::str::FromStr;
use vstd::prelude::*;

verus! {

/// Whether a string is a syntactically valid absolute URI. What
/// `is_absolute_uri` returns.
pub uninterp spec fn uri_is_absolute(s: Seq<char>) -> bool;

/// Relies on `hyper::Uri`'s `FromStr` parser and on `Uri::scheme_str`: both
/// depend on the string alone, and a URI is absolute exactly when it has a
/// scheme.
#[verifier::external_body]
fn is_absolute_uri(s: &str) -> (r: bool)
    ensures
        r == uri_is_absolute(s@),
{
    match hyper::Uri::from_str(s) {
        Ok(uri) => uri.scheme_str().is_some(),
        Err(_) => false,
    }
}

/// Whether a raw event names a deliverable callback target: a `ResponseURL`
/// member that is a valid absolute URI.
pub open spec fn callback_target_ok<C, U, D>(raw: RawEvent<C, U, D>) -> bool {
    raw.response_url is Some && uri_is_absolute(raw.response_url->0@)
}

/// A dispatched request, ready for delivery: the validated callback target,
/// the provider's response, and its serialized wire form.
#[derive(Debug)]
pub struct Delivery {
    /// The callback target, copied verbatim from the request's `ResponseURL`.
    pub url: String,
    /// The response the provider operation returned.
    pub response: ProviderResponse,
    /// The response's wire form: the body to PUT to the target.
    pub body: String,
}

/// Whether the status of the callback PUT's reply counts as delivered: any
/// success status does; every other reply is a delivery failure, which the
/// host surfaces as an error and does not retry.
pub fn delivery_status_ok(status: u16) -> (r: bool)
    ensures
        r == (200 <= status && status <= 299),
{
    200 <= status && status <= 299
}

/// Dispatches one raw event: validates the callback target, detects the
/// phase, parses the phase's envelope, invokes the matching provider
/// operation, and serializes the response that operation returned — the
/// delivered response is the provider's own, never a substitute. Fails
/// fatally — and only — when no callback can be delivered at all: an
/// unusable target, an unrecognized phase, or an event that does not fit
/// its phase's shape.
pub fn custom_resource_handler<P: Provider>(
    provider: &P,
    event: RawEvent<P::C, P::U, P::D>,
) -> (r: Result<Delivery, Error>)
    ensures
        ((r matches Err(e) && e == Error::InvalidResponseURI) <==> !callback_target_ok(event)),
        callback_target_ok(event) ==> ((r matches Err(e) && e == Error::InvalidRequestType)
            <==> spec_request_type(event.request_type) is None),
        callback_target_ok(event) && spec_request_type(event.request_type) == Some(
            RequestType::Create,
        ) ==> ((r is Ok) <==> create_parse_ok(event)) && (r matches Err(e) ==> e matches Error::InvalidEvent(p, c) && p == RequestType::Create
            && c@ == create_parse_cause(event)),
        callback_target_ok(event) && spec_request_type(event.request_type) == Some(
            RequestType::Update,
        ) ==> ((r is Ok) <==> update_parse_ok(event)) && (r matches Err(e) ==> e matches Error::InvalidEvent(p, c) && p == RequestType::Update
            && c@ == update_parse_cause(event)),
        callback_target_ok(event) && spec_request_type(event.request_type) == Some(
            RequestType::Delete,
        ) ==> ((r is Ok) <==> delete_parse_ok(event)) && (r matches Err(e) ==> e matches Error::InvalidEvent(p, c) && p == RequestType::Delete
            && c@ == delete_parse_cause(event)),
        r matches Ok(d) ==> d.url == event.response_url->0 && d.body@ == response_json(
            d.response@,
        ),
        r matches Ok(d) ==> (spec_request_type(event.request_type) == Some(RequestType::Create)
            ==> call_ensures(
            P::create,
            (provider, CreateEvent(spec_parse_create(event)->0)),
            d.response,
        )),
        r matches Ok(d) ==> (spec_request_type(event.request_type) == Some(RequestType::Update)
            ==> call_ensures(
            P::update,
            (provider, UpdateEvent(spec_parse_update(event)->0)),
            d.response,
        )),
        r matches Ok(d) ==> (spec_request_type(event.request_type) == Some(RequestType::Delete)
            ==> call_ensures(
            P::delete,
            (provider, DeleteEvent(spec_parse_delete(event)->0)),
            d.response,
        )),
{
    let url = match &event.response_url {
        Option::Some(u) => {
            if is_absolute_uri(u.as_str()) {
                u.clone()
            } else {
                return Err(Error::InvalidResponseURI);
            }
        },
        Option::None => {
            return Err(Error::InvalidResponseURI);
        },
    };
    let rt = match request_type(&event) {
        Option::Some(t) => t,
        Option::None => {
            return Err(Error::InvalidRequestType);
        },
    };
    let response = match rt {
        RequestType::Create => {
            match CreateEvent::try_from(event) {
                Ok(e) => provider.create(e),
                Err(err) => {
                    return Err(err);
                },
            }
        },
        RequestType::Update => {
            match UpdateEvent::try_from(event) {
                Ok(e) => provider.update(e),
                Err(err) => {
                    return Err(err);
                },
            }
        },
        RequestType::Delete => {
            match DeleteEvent::try_from(event) {
                Ok(e) => provider.delete(e),
                Err(err) => {
                    return Err(err);
                },
            }
        },
    };
    let body = response_to_json(&response);
    Ok(Delivery { url, response, body })
}

} // verus!
