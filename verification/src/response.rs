//! The response value delivered to the callback target, and the builder that
//! accumulates it. A builder starts from a failure default so that a caller
//! who forgets to set the status never reports success silently, and its
//! default physical resource id is the derived one, so it is never empty.
use crate::events::{EventHeader, ProviderRequestEventDetails};
use crate::json::{json_of, json_string, write_json, write_json_string, JsonValue};
use crate::physical_id::{build_physical_resource_id, derived_id, digestible};
use vstd::prelude::*;
use vstd::string::StringExecFns;

verus! {

/// The outcome reported to the caller: a closed set of two.
#[derive(Debug, Clone, Copy, PartialEq, Eq, Structural)]
pub enum ResponseStatus {
    Success,
    Failed,
}

/// The fields of a response, at specification level. The builder and the
/// finished response share this model.
pub struct ResponseModel {
    pub status: ResponseStatus,
    pub reason: Seq<char>,
    pub physical_resource_id: Seq<char>,
    pub stack_id: Seq<char>,
    pub request_id: Seq<char>,
    pub logical_resource_id: Seq<char>,
    pub no_echo: bool,
    pub data: Option<JsonValue>,
}

/// A finished response, immutable once built.
#[derive(Debug, PartialEq)]
pub struct ProviderResponse {
    pub status: ResponseStatus,
    pub reason: String,
    pub physical_resource_id: String,
    pub stack_id: String,
    pub request_id: String,
    pub logical_resource_id: String,
    pub no_echo: bool,
    pub data: Option<JsonValue>,
}

impl View for ProviderResponse {
    type V = ResponseModel;

    open spec fn view(&self) -> ResponseModel {
        ResponseModel {
            status: self.status,
            reason: self.reason@,
            physical_resource_id: self.physical_resource_id@,
            stack_id: self.stack_id@,
            request_id: self.request_id@,
            logical_resource_id: self.logical_resource_id@,
            no_echo: self.no_echo,
            data: self.data,
        }
    }
}

/// Accumulates the fields of a response and is consumed by `build`.
pub struct ProviderResponseBuilder {
    status: ResponseStatus,
    reason: String,
    physical_resource_id: String,
    stack_id: String,
    request_id: String,
    logical_resource_id: String,
    no_echo: bool,
    data: Option<JsonValue>,
}

impl View for ProviderResponseBuilder {
    type V = ResponseModel;

    closed spec fn view(&self) -> ResponseModel {
        ResponseModel {
            status: self.status,
            reason: self.reason@,
            physical_resource_id: self.physical_resource_id@,
            stack_id: self.stack_id@,
            request_id: self.request_id@,
            logical_resource_id: self.logical_resource_id@,
            no_echo: self.no_echo,
            data: self.data,
        }
    }
}

/// The response a builder holds right after `from_event`: Failed with a
/// placeholder reason, the derived physical resource id, the request's own
/// ids copied verbatim, `no_echo` off and no data.
pub open spec fn initial_response(h: EventHeader) -> ResponseModel {
    ResponseModel {
        status: ResponseStatus::Failed,
        reason: "reason not given"@,
        physical_resource_id: derived_id(h.stack_id, h.logical_resource_id),
        stack_id: h.stack_id,
        request_id: h.request_id,
        logical_resource_id: h.logical_resource_id,
        no_echo: false,
        data: None,
    }
}

impl ProviderResponseBuilder {
    /// Starts a response for the given request: every field at its default,
    /// as `initial_response` says. The derived physical resource id is 64
    /// characters long, so the default id is never empty.
    pub fn from_event<T: ProviderRequestEventDetails>(event: T) -> (b: Self)
        requires
            digestible(
                event.spec_header().stack_id,
                event.spec_header().logical_resource_id,
            ),
        ensures
            b@ == initial_response(event.spec_header()),
            b@.physical_resource_id.len() == 64,
    {
        let physical_resource_id = build_physical_resource_id(
            event.stack_id(),
            event.logical_resource_id(),
        );
        ProviderResponseBuilder {
            status: ResponseStatus::Failed,
            reason: String::from_str("reason not given"),
            physical_resource_id,
            stack_id: event.stack_id(),
            request_id: event.request_id(),
            logical_resource_id: event.logical_resource_id(),
            no_echo: false,
            data: None,
        }
    }

    pub fn status(self, status: ResponseStatus) -> (b: Self)
        ensures
            b@ == (ResponseModel { status: status, ..self@ }),
    {
        let mut b = self;
        b.status = status;
        b
    }

    pub fn reason(self, reason: String) -> (b: Self)
        ensures
            b@ == (ResponseModel { reason: reason@, ..self@ }),
    {
        let mut b = self;
        b.reason = reason;
        b
    }

    pub fn physical_resource_id(self, physical_resource_id: String) -> (b: Self)
        ensures
            b@ == (ResponseModel { physical_resource_id: physical_resource_id@, ..self@ }),
    {
        let mut b = self;
        b.physical_resource_id = physical_resource_id;
        b
    }

    pub fn stack_id(self, stack_id: String) -> (b: Self)
        ensures
            b@ == (ResponseModel { stack_id: stack_id@, ..self@ }),
    {
        let mut b = self;
        b.stack_id = stack_id;
        b
    }

    pub fn request_id(self, request_id: String) -> (b: Self)
        ensures
            b@ == (ResponseModel { request_id: request_id@, ..self@ }),
    {
        let mut b = self;
        b.request_id = request_id;
        b
    }

    pub fn logical_resource_id(self, logical_resource_id: String) -> (b: Self)
        ensures
            b@ == (ResponseModel { logical_resource_id: logical_resource_id@, ..self@ }),
    {
        let mut b = self;
        b.logical_resource_id = logical_resource_id;
        b
    }

    pub fn no_echo(self, no_echo: bool) -> (b: Self)
        ensures
            b@ == (ResponseModel { no_echo: no_echo, ..self@ }),
    {
        let mut b = self;
        b.no_echo = no_echo;
        b
    }

    pub fn data(self, data: JsonValue) -> (b: Self)
        ensures
            b@ == (ResponseModel { data: Some(data), ..self@ }),
    {
        let mut b = self;
        b.data = Some(data);
        b
    }

    /// Finalizes the accumulated fields into an immutable response.
    pub fn build(self) -> (r: ProviderResponse)
        ensures
            r@ == self@,
    {
        ProviderResponse {
            status: self.status,
            reason: self.reason,
            physical_resource_id: self.physical_resource_id,
            stack_id: self.stack_id,
            request_id: self.request_id,
            logical_resource_id: self.logical_resource_id,
            no_echo: self.no_echo,
            data: self.data,
        }
    }
}

/// How a status appears on the wire.
pub open spec fn status_json(status: ResponseStatus) -> Seq<char> {
    if status == ResponseStatus::Success {
        "\"SUCCESS\""@
    } else {
        "\"FAILED\""@
    }
}

/// The wire form of a response: one object with the fields in fixed order,
/// and no `Data` member at all when the response carries no data.
pub open spec fn response_json(m: ResponseModel) -> Seq<char> {
    "{\"Status\":"@ + status_json(m.status) + ",\"Reason\":"@ + json_string(m.reason)
        + ",\"PhysicalResourceId\":"@ + json_string(m.physical_resource_id) + ",\"StackId\":"@
        + json_string(m.stack_id) + ",\"RequestId\":"@ + json_string(m.request_id)
        + ",\"LogicalResourceId\":"@ + json_string(m.logical_resource_id) + ",\"NoEcho\":"@ + (
    if m.no_echo {
        "true"@
    } else {
        "false"@
    }) + (match m.data {
        Option::None => Seq::<char>::empty(),
        Option::Some(d) => ",\"Data\":"@ + json_of(d),
    }) + "}"@
}

/// Serializes a response to its wire form. Total: every response value has
/// exactly one wire form.
pub fn response_to_json(resp: &ProviderResponse) -> (r: String)
    ensures
        r@ == response_json(resp@),
{
    let mut out: Vec<char> = Vec::new();
    crate::json::push_str_chars(&mut out, "{\"Status\":");
    crate::json::push_str_chars(
        &mut out,
        match resp.status {
            ResponseStatus::Success => "\"SUCCESS\"",
            ResponseStatus::Failed => "\"FAILED\"",
        },
    );
    crate::json::push_str_chars(&mut out, ",\"Reason\":");
    write_json_string(resp.reason.as_str(), &mut out);
    crate::json::push_str_chars(&mut out, ",\"PhysicalResourceId\":");
    write_json_string(resp.physical_resource_id.as_str(), &mut out);
    crate::json::push_str_chars(&mut out, ",\"StackId\":");
    write_json_string(resp.stack_id.as_str(), &mut out);
    crate::json::push_str_chars(&mut out, ",\"RequestId\":");
    write_json_string(resp.request_id.as_str(), &mut out);
    crate::json::push_str_chars(&mut out, ",\"LogicalResourceId\":");
    write_json_string(resp.logical_resource_id.as_str(), &mut out);
    crate::json::push_str_chars(&mut out, ",\"NoEcho\":");
    crate::json::push_str_chars(&mut out, if resp.no_echo { "true" } else { "false" });
    match &resp.data {
        Option::None => {},
        Option::Some(d) => {
            crate::json::push_str_chars(&mut out, ",\"Data\":");
            write_json(d, &mut out);
        },
    }
    crate::json::push_str_chars(&mut out, "}");
    assert(out@ =~= response_json(resp@));
    crate::json::chars_to_string(&out)
}

/// A builder initialized from any request envelope and never mutated builds
/// the safe default: status Failed, the placeholder reason, the derived
/// physical resource id, the request's ids copied verbatim, `no_echo` off,
/// and no data.
pub proof fn lemma_untouched_builder_reports_failure(h: EventHeader)
    ensures
        initial_response(h).status == ResponseStatus::Failed,
        initial_response(h).reason == "reason not given"@,
        initial_response(h).physical_resource_id == derived_id(h.stack_id, h.logical_resource_id),
        initial_response(h).stack_id == h.stack_id,
        initial_response(h).request_id == h.request_id,
        initial_response(h).logical_resource_id == h.logical_resource_id,
        initial_response(h).no_echo == false,
        initial_response(h).data is None,
{
}

/// Separate invocations that name the same stack and logical resource start
/// from the same derived physical resource id, whatever their request ids:
/// the default id depends on the stack id and the logical resource id alone.
pub proof fn lemma_default_physical_id_stable(a: EventHeader, b: EventHeader)
    requires
        a.stack_id == b.stack_id,
        a.logical_resource_id == b.logical_resource_id,
    ensures
        initial_response(a).physical_resource_id == initial_response(b).physical_resource_id,
{
}

} // verus!
