//! Per-phase parsing of a raw event into its typed envelope, the pluggable
//! provider interface, and the shaping of a provider operation's outcome
//! into a response. Each phase enforces its own shape: Create has no
//! physical resource id, Update and Delete require one, and only Update
//! reads the previous properties.
use crate::error::Error;
use crate::events::{
    EventHeader, ProviderRequestCreateEvent, ProviderRequestDeleteEvent, ProviderRequestEventDetails,
    ProviderRequestUpdateEvent, RequestType,
};
use crate::json::JsonValue;
use crate::physical_id::digestible;
use crate::raw::{request_type, spec_request_type, PropsField, RawEvent};
use crate::response::{
    initial_response, ProviderResponse, ProviderResponseBuilder, ResponseModel, ResponseStatus,
};
use vstd::prelude::*;
use vstd::string::StringExecFns;

verus! {

/// A Create request, parsed for a provider whose Create properties type is `P`.
#[derive(Debug, PartialEq)]
pub struct CreateEvent<P>(pub ProviderRequestCreateEvent<P>);

/// An Update request, parsed for a provider whose Update properties type is `P`.
#[derive(Debug, PartialEq)]
pub struct UpdateEvent<P>(pub ProviderRequestUpdateEvent<P>);

/// A Delete request, parsed for a provider whose Delete properties type is `P`.
#[derive(Debug, PartialEq)]
pub struct DeleteEvent<P>(pub ProviderRequestDeleteEvent<P>);

/// Whether a raw event fits the Create shape: a recognized phase, every
/// required header member present, and a properties object that fits the
/// declared type whenever one is present at all.
pub open spec fn create_parse_ok<C, U, D>(raw: RawEvent<C, U, D>) -> bool {
    &&& spec_request_type(raw.request_type) is Some
    &&& raw.response_url is Some
    &&& raw.stack_id is Some
    &&& raw.request_id is Some
    &&& raw.resource_type is Some
    &&& raw.logical_resource_id is Some
    &&& !(raw.create_properties is Invalid)
}

/// What parsing a raw event as a Create request yields.
pub open spec fn spec_parse_create<C, U, D>(raw: RawEvent<C, U, D>) -> Option<
    ProviderRequestCreateEvent<C>,
> {
    if create_parse_ok(raw) {
        Some(
            ProviderRequestCreateEvent {
                request_type: spec_request_type(raw.request_type)->0,
                response_url: raw.response_url->0,
                stack_id: raw.stack_id->0,
                request_id: raw.request_id->0,
                resource_type: raw.resource_type->0,
                logical_resource_id: raw.logical_resource_id->0,
                resource_properties: match raw.create_properties {
                    PropsField::Valid(p) => Some(p),
                    _ => None,
                },
            },
        )
    } else {
        None
    }
}

/// Whether a raw event fits the Update shape: the Create requirements, a
/// physical resource id, and previous properties that fit the declared type
/// whenever they are present.
pub open spec fn update_parse_ok<C, U, D>(raw: RawEvent<C, U, D>) -> bool {
    &&& spec_request_type(raw.request_type) is Some
    &&& raw.response_url is Some
    &&& raw.stack_id is Some
    &&& raw.request_id is Some
    &&& raw.resource_type is Some
    &&& raw.logical_resource_id is Some
    &&& raw.physical_resource_id is Some
    &&& !(raw.update_properties is Invalid)
    &&& !(raw.old_update_properties is Invalid)
}

/// What parsing a raw event as an Update request yields.
pub open spec fn spec_parse_update<C, U, D>(raw: RawEvent<C, U, D>) -> Option<
    ProviderRequestUpdateEvent<U>,
> {
    if update_parse_ok(raw) {
        Some(
            ProviderRequestUpdateEvent {
                request_type: spec_request_type(raw.request_type)->0,
                response_url: raw.response_url->0,
                stack_id: raw.stack_id->0,
                request_id: raw.request_id->0,
                resource_type: raw.resource_type->0,
                logical_resource_id: raw.logical_resource_id->0,
                physical_resource_id: raw.physical_resource_id->0,
                resource_properties: match raw.update_properties {
                    PropsField::Valid(p) => Some(p),
                    _ => None,
                },
                old_resource_properties: match raw.old_update_properties {
                    PropsField::Valid(p) => Some(p),
                    _ => None,
                },
            },
        )
    } else {
        None
    }
}

/// Whether a raw event fits the Delete shape: the Create requirements and a
/// physical resource id.
pub open spec fn delete_parse_ok<C, U, D>(raw: RawEvent<C, U, D>) -> bool {
    &&& spec_request_type(raw.request_type) is Some
    &&& raw.response_url is Some
    &&& raw.stack_id is Some
    &&& raw.request_id is Some
    &&& raw.resource_type is Some
    &&& raw.logical_resource_id is Some
    &&& raw.physical_resource_id is Some
    &&& !(raw.delete_properties is Invalid)
}

/// What parsing a raw event as a Delete request yields.
pub open spec fn spec_parse_delete<C, U, D>(raw: RawEvent<C, U, D>) -> Option<
    ProviderRequestDeleteEvent<D>,
> {
    if delete_parse_ok(raw) {
        Some(
            ProviderRequestDeleteEvent {
                request_type: spec_request_type(raw.request_type)->0,
                response_url: raw.response_url->0,
                stack_id: raw.stack_id->0,
                request_id: raw.request_id->0,
                resource_type: raw.resource_type->0,
                logical_resource_id: raw.logical_resource_id->0,
                resource_properties: match raw.delete_properties {
                    PropsField::Valid(p) => Some(p),
                    _ => None,
                },
                physical_resource_id: raw.physical_resource_id->0,
            },
        )
    } else {
        None
    }
}

/// The cause reported when a raw event does not fit the Create shape: the
/// first mismatch, in the order the members are checked.
pub open spec fn create_parse_cause<C, U, D>(raw: RawEvent<C, U, D>) -> Seq<char> {
    if spec_request_type(raw.request_type) is None {
        "the RequestType member is absent or unrecognized"@
    } else if raw.response_url is None {
        "the ResponseURL member is absent or not a string"@
    } else if raw.stack_id is None {
        "the StackId member is absent or not a string"@
    } else if raw.request_id is None {
        "the RequestId member is absent or not a string"@
    } else if raw.resource_type is None {
        "the ResourceType member is absent or not a string"@
    } else if raw.logical_resource_id is None {
        "the LogicalResourceId member is absent or not a string"@
    } else {
        match raw.create_properties {
            PropsField::Invalid(cause) => cause@,
            _ => Seq::empty(),
        }
    }
}

/// The cause reported when a raw event does not fit the Update shape: the
/// first mismatch, in the order the members are checked.
pub open spec fn update_parse_cause<C, U, D>(raw: RawEvent<C, U, D>) -> Seq<char> {
    if spec_request_type(raw.request_type) is None {
        "the RequestType member is absent or unrecognized"@
    } else if raw.response_url is None {
        "the ResponseURL member is absent or not a string"@
    } else if raw.stack_id is None {
        "the StackId member is absent or not a string"@
    } else if raw.request_id is None {
        "the RequestId member is absent or not a string"@
    } else if raw.resource_type is None {
        "the ResourceType member is absent or not a string"@
    } else if raw.logical_resource_id is None {
        "the LogicalResourceId member is absent or not a string"@
    } else if raw.physical_resource_id is None {
        "the PhysicalResourceId member is absent or not a string"@
    } else if raw.update_properties is Invalid {
        match raw.update_properties {
            PropsField::Invalid(cause) => cause@,
            _ => Seq::empty(),
        }
    } else {
        match raw.old_update_properties {
            PropsField::Invalid(cause) => cause@,
            _ => Seq::empty(),
        }
    }
}

/// The cause reported when a raw event does not fit the Delete shape: the
/// first mismatch, in the order the members are checked.
pub open spec fn delete_parse_cause<C, U, D>(raw: RawEvent<C, U, D>) -> Seq<char> {
    if spec_request_type(raw.request_type) is None {
        "the RequestType member is absent or unrecognized"@
    } else if raw.response_url is None {
        "the ResponseURL member is absent or not a string"@
    } else if raw.stack_id is None {
        "the StackId member is absent or not a string"@
    } else if raw.request_id is None {
        "the RequestId member is absent or not a string"@
    } else if raw.resource_type is None {
        "the ResourceType member is absent or not a string"@
    } else if raw.logical_resource_id is None {
        "the LogicalResourceId member is absent or not a string"@
    } else if raw.physical_resource_id is None {
        "the PhysicalResourceId member is absent or not a string"@
    } else {
        match raw.delete_properties {
            PropsField::Invalid(cause) => cause@,
            _ => Seq::empty(),
        }
    }
}

impl<C> CreateEvent<C> {
    /// Parses a raw event as a Create request, or reports the deserialization
    /// failure for the Create phase.
    pub fn try_from<U, D>(raw: RawEvent<C, U, D>) -> (r: Result<CreateEvent<C>, Error>)
        ensures
            (r is Ok) <==> create_parse_ok(raw),
            r matches Ok(e) ==> spec_parse_create(raw) == Some(e.0),
            r matches Err(err) ==> err matches Error::InvalidEvent(phase, cause) && phase
                == RequestType::Create && cause@ == create_parse_cause(raw),
    {
        let rt = match request_type(&raw) {
            Option::Some(t) => t,
            Option::None => {
                return Err(
                    Error::InvalidEvent(
                        RequestType::Create,
                        String::from_str("the RequestType member is absent or unrecognized"),
                    ),
                );
            },
        };
        let RawEvent {
            request_type: _,
            response_url,
            stack_id,
            request_id,
            resource_type,
            logical_resource_id,
            physical_resource_id: _,
            create_properties,
            update_properties: _,
            old_update_properties: _,
            delete_properties: _,
        } = raw;
        let response_url = match response_url {
            Option::Some(v) => v,
            Option::None => {
                return Err(
                    Error::InvalidEvent(
                        RequestType::Create,
                        String::from_str("the ResponseURL member is absent or not a string"),
                    ),
                );
            },
        };
        let stack_id = match stack_id {
            Option::Some(v) => v,
            Option::None => {
                return Err(
                    Error::InvalidEvent(
                        RequestType::Create,
                        String::from_str("the StackId member is absent or not a string"),
                    ),
                );
            },
        };
        let request_id = match request_id {
            Option::Some(v) => v,
            Option::None => {
                return Err(
                    Error::InvalidEvent(
                        RequestType::Create,
                        String::from_str("the RequestId member is absent or not a string"),
                    ),
                );
            },
        };
        let resource_type = match resource_type {
            Option::Some(v) => v,
            Option::None => {
                return Err(
                    Error::InvalidEvent(
                        RequestType::Create,
                        String::from_str("the ResourceType member is absent or not a string"),
                    ),
                );
            },
        };
        let logical_resource_id = match logical_resource_id {
            Option::Some(v) => v,
            Option::None => {
                return Err(
                    Error::InvalidEvent(
                        RequestType::Create,
                        String::from_str("the LogicalResourceId member is absent or not a string"),
                    ),
                );
            },
        };
        let resource_properties = match create_properties {
            PropsField::Absent => None,
            PropsField::Valid(p) => Some(p),
            PropsField::Invalid(cause) => {
                return Err(Error::InvalidEvent(RequestType::Create, cause));
            },
        };
        Ok(
            CreateEvent(
                ProviderRequestCreateEvent {
                    request_type: rt,
                    response_url,
                    stack_id,
                    request_id,
                    resource_type,
                    logical_resource_id,
                    resource_properties,
                },
            ),
        )
    }
}

impl<U> UpdateEvent<U> {
    /// Parses a raw event as an Update request, or reports the
    /// deserialization failure for the Update phase.
    pub fn try_from<C, D>(raw: RawEvent<C, U, D>) -> (r: Result<UpdateEvent<U>, Error>)
        ensures
            (r is Ok) <==> update_parse_ok(raw),
            r matches Ok(e) ==> spec_parse_update(raw) == Some(e.0),
            r matches Err(err) ==> err matches Error::InvalidEvent(phase, cause) && phase
                == RequestType::Update && cause@ == update_parse_cause(raw),
    {
        let rt = match request_type(&raw) {
            Option::Some(t) => t,
            Option::None => {
                return Err(
                    Error::InvalidEvent(
                        RequestType::Update,
                        String::from_str("the RequestType member is absent or unrecognized"),
                    ),
                );
            },
        };
        let RawEvent {
            request_type: _,
            response_url,
            stack_id,
            request_id,
            resource_type,
            logical_resource_id,
            physical_resource_id,
            create_properties: _,
            update_properties,
            old_update_properties,
            delete_properties: _,
        } = raw;
        let response_url = match response_url {
            Option::Some(v) => v,
            Option::None => {
                return Err(
                    Error::InvalidEvent(
                        RequestType::Update,
                        String::from_str("the ResponseURL member is absent or not a string"),
                    ),
                );
            },
        };
        let stack_id = match stack_id {
            Option::Some(v) => v,
            Option::None => {
                return Err(
                    Error::InvalidEvent(
                        RequestType::Update,
                        String::from_str("the StackId member is absent or not a string"),
                    ),
                );
            },
        };
        let request_id = match request_id {
            Option::Some(v) => v,
            Option::None => {
                return Err(
                    Error::InvalidEvent(
                        RequestType::Update,
                        String::from_str("the RequestId member is absent or not a string"),
                    ),
                );
            },
        };
        let resource_type = match resource_type {
            Option::Some(v) => v,
            Option::None => {
                return Err(
                    Error::InvalidEvent(
                        RequestType::Update,
                        String::from_str("the ResourceType member is absent or not a string"),
                    ),
                );
            },
        };
        let logical_resource_id = match logical_resource_id {
            Option::Some(v) => v,
            Option::None => {
                return Err(
                    Error::InvalidEvent(
                        RequestType::Update,
                        String::from_str("the LogicalResourceId member is absent or not a string"),
                    ),
                );
            },
        };
        let physical_resource_id = match physical_resource_id {
            Option::Some(v) => v,
            Option::None => {
                return Err(
                    Error::InvalidEvent(
                        RequestType::Update,
                        String::from_str("the PhysicalResourceId member is absent or not a string"),
                    ),
                );
            },
        };
        let resource_properties = match update_properties {
            PropsField::Absent => None,
            PropsField::Valid(p) => Some(p),
            PropsField::Invalid(cause) => {
                return Err(Error::InvalidEvent(RequestType::Update, cause));
            },
        };
        let old_resource_properties = match old_update_properties {
            PropsField::Absent => None,
            PropsField::Valid(p) => Some(p),
            PropsField::Invalid(cause) => {
                return Err(Error::InvalidEvent(RequestType::Update, cause));
            },
        };
        Ok(
            UpdateEvent(
                ProviderRequestUpdateEvent {
                    request_type: rt,
                    response_url,
                    stack_id,
                    request_id,
                    resource_type,
                    logical_resource_id,
                    physical_resource_id,
                    resource_properties,
                    old_resource_properties,
                },
            ),
        )
    }
}

impl<D> DeleteEvent<D> {
    /// Parses a raw event as a Delete request, or reports the
    /// deserialization failure for the Delete phase.
    pub fn try_from<C, U>(raw: RawEvent<C, U, D>) -> (r: Result<DeleteEvent<D>, Error>)
        ensures
            (r is Ok) <==> delete_parse_ok(raw),
            r matches Ok(e) ==> spec_parse_delete(raw) == Some(e.0),
            r matches Err(err) ==> err matches Error::InvalidEvent(phase, cause) && phase
                == RequestType::Delete && cause@ == delete_parse_cause(raw),
    {
        let rt = match request_type(&raw) {
            Option::Some(t) => t,
            Option::None => {
                return Err(
                    Error::InvalidEvent(
                        RequestType::Delete,
                        String::from_str("the RequestType member is absent or unrecognized"),
                    ),
                );
            },
        };
        let RawEvent {
            request_type: _,
            response_url,
            stack_id,
            request_id,
            resource_type,
            logical_resource_id,
            physical_resource_id,
            create_properties: _,
            update_properties: _,
            old_update_properties: _,
            delete_properties,
        } = raw;
        let response_url = match response_url {
            Option::Some(v) => v,
            Option::None => {
                return Err(
                    Error::InvalidEvent(
                        RequestType::Delete,
                        String::from_str("the ResponseURL member is absent or not a string"),
                    ),
                );
            },
        };
        let stack_id = match stack_id {
            Option::Some(v) => v,
            Option::None => {
                return Err(
                    Error::InvalidEvent(
                        RequestType::Delete,
                        String::from_str("the StackId member is absent or not a string"),
                    ),
                );
            },
        };
        let request_id = match request_id {
            Option::Some(v) => v,
            Option::None => {
                return Err(
                    Error::InvalidEvent(
                        RequestType::Delete,
                        String::from_str("the RequestId member is absent or not a string"),
                    ),
                );
            },
        };
        let resource_type = match resource_type {
            Option::Some(v) => v,
            Option::None => {
                return Err(
                    Error::InvalidEvent(
                        RequestType::Delete,
                        String::from_str("the ResourceType member is absent or not a string"),
                    ),
                );
            },
        };
        let logical_resource_id = match logical_resource_id {
            Option::Some(v) => v,
            Option::None => {
                return Err(
                    Error::InvalidEvent(
                        RequestType::Delete,
                        String::from_str("the LogicalResourceId member is absent or not a string"),
                    ),
                );
            },
        };
        let physical_resource_id = match physical_resource_id {
            Option::Some(v) => v,
            Option::None => {
                return Err(
                    Error::InvalidEvent(
                        RequestType::Delete,
                        String::from_str("the PhysicalResourceId member is absent or not a string"),
                    ),
                );
            },
        };
        let resource_properties = match delete_properties {
            PropsField::Absent => None,
            PropsField::Valid(p) => Some(p),
            PropsField::Invalid(cause) => {
                return Err(Error::InvalidEvent(RequestType::Delete, cause));
            },
        };
        Ok(
            DeleteEvent(
                ProviderRequestDeleteEvent {
                    request_type: rt,
                    response_url,
                    stack_id,
                    request_id,
                    resource_type,
                    logical_resource_id,
                    resource_properties,
                    physical_resource_id,
                },
            ),
        )
    }
}

/// Round trip for Create: when detection recognizes the Create phase and the
/// document fits the Create shape, parsing recovers every header member and
/// the properties verbatim.
pub proof fn lemma_create_round_trip<C, U, D>(raw: RawEvent<C, U, D>)
    requires
        spec_request_type(raw.request_type) == Some(RequestType::Create),
        create_parse_ok(raw),
    ensures
        spec_parse_create(raw) matches Some(e) && e.request_type == RequestType::Create
            && e.response_url == raw.response_url->0 && e.stack_id == raw.stack_id->0
            && e.request_id == raw.request_id->0 && e.resource_type == raw.resource_type->0
            && e.logical_resource_id == raw.logical_resource_id->0 && e.resource_properties == (
        match raw.create_properties {
            PropsField::Valid(p) => Some(p),
            _ => None,
        }),
{
}

/// Round trip for Update: when detection recognizes the Update phase and the
/// document fits the Update shape, parsing recovers every member verbatim,
/// the required physical resource id and the previous properties included.
pub proof fn lemma_update_round_trip<C, U, D>(raw: RawEvent<C, U, D>)
    requires
        spec_request_type(raw.request_type) == Some(RequestType::Update),
        update_parse_ok(raw),
    ensures
        spec_parse_update(raw) matches Some(e) && e.request_type == RequestType::Update
            && e.response_url == raw.response_url->0 && e.stack_id == raw.stack_id->0
            && e.request_id == raw.request_id->0 && e.resource_type == raw.resource_type->0
            && e.logical_resource_id == raw.logical_resource_id->0 && e.physical_resource_id
            == raw.physical_resource_id->0 && e.resource_properties == (
        match raw.update_properties {
            PropsField::Valid(p) => Some(p),
            _ => None,
        }) && e.old_resource_properties == (match raw.old_update_properties {
            PropsField::Valid(p) => Some(p),
            _ => None,
        }),
{
}

/// Round trip for Delete: when detection recognizes the Delete phase and the
/// document fits the Delete shape, parsing recovers every member verbatim,
/// the required physical resource id included.
pub proof fn lemma_delete_round_trip<C, U, D>(raw: RawEvent<C, U, D>)
    requires
        spec_request_type(raw.request_type) == Some(RequestType::Delete),
        delete_parse_ok(raw),
    ensures
        spec_parse_delete(raw) matches Some(e) && e.request_type == RequestType::Delete
            && e.response_url == raw.response_url->0 && e.stack_id == raw.stack_id->0
            && e.request_id == raw.request_id->0 && e.resource_type == raw.resource_type->0
            && e.logical_resource_id == raw.logical_resource_id->0 && e.physical_resource_id
            == raw.physical_resource_id->0 && e.resource_properties == (
        match raw.delete_properties {
            PropsField::Valid(p) => Some(p),
            _ => None,
        }),
{
}

/// The pluggable interface a resource implementation satisfies: one
/// operation per lifecycle phase, each consuming that phase's envelope and
/// always returning a finished response, never a fault.
pub trait Provider {
    /// The provider's Create properties type.
    type C;

    /// The provider's Update properties type.
    type U;

    /// The provider's Delete properties type.
    type D;

    fn create(&self, create_event: CreateEvent<Self::C>) -> ProviderResponse;

    fn update(&self, update_event: UpdateEvent<Self::U>) -> ProviderResponse;

    fn delete(&self, delete_event: DeleteEvent<Self::D>) -> ProviderResponse;
}

/// How one provider operation went, reduced to what the response reports.
pub enum ProviderOutcome {
    /// The event carried no usable properties object, so no side effect was
    /// attempted.
    MissingProperties,
    /// The side effect failed, with the reason to report.
    Failed(String),
    /// The side effect succeeded, with the output attributes to report, if
    /// any.
    Succeeded(Option<JsonValue>),
}

/// The response an outcome is reported as, starting from the request's
/// initial (failure-default) response.
pub open spec fn outcome_model(h: EventHeader, outcome: ProviderOutcome) -> ResponseModel {
    match outcome {
        ProviderOutcome::MissingProperties => ResponseModel {
            status: ResponseStatus::Failed,
            reason: "Missing or invalid 'ResourceProperties' parameter"@,
            ..initial_response(h)
        },
        ProviderOutcome::Failed(reason) => ResponseModel {
            status: ResponseStatus::Failed,
            reason: reason@,
            ..initial_response(h)
        },
        ProviderOutcome::Succeeded(data) => ResponseModel {
            status: ResponseStatus::Success,
            reason: "Ok"@,
            data: data,
            ..initial_response(h)
        },
    }
}

/// Turns a provider operation's outcome into the response it reports:
/// missing properties and failed side effects become Failed responses with
/// their reasons, a successful side effect becomes a Success response
/// carrying its output attributes. Every outcome yields a response; a fault
/// is never propagated upward.
pub fn outcome_response<E: ProviderRequestEventDetails>(event: E, outcome: ProviderOutcome) -> (r:
    ProviderResponse)
    requires
        digestible(event.spec_header().stack_id, event.spec_header().logical_resource_id),
    ensures
        r@ == outcome_model(event.spec_header(), outcome),
{
    let builder = ProviderResponseBuilder::from_event(event);
    match outcome {
        ProviderOutcome::MissingProperties => builder.status(ResponseStatus::Failed).reason(
            String::from_str("Missing or invalid 'ResourceProperties' parameter"),
        ).build(),
        ProviderOutcome::Failed(reason) => builder.status(ResponseStatus::Failed).reason(
            reason,
        ).build(),
        ProviderOutcome::Succeeded(data) => {
            let builder = builder.status(ResponseStatus::Success).reason(String::from_str("Ok"));
            match data {
                Option::None => builder.build(),
                Option::Some(d) => builder.data(d).build(),
            }
        },
    }
}

} // verus!
