//! The untyped inbound document, reduced to the members this protocol reads.
//! A host hands the dispatcher one of these: each header member is the
//! document's string at that exact, case-sensitive name (absent or non-string
//! members are `None`), and each properties member is the outcome of decoding
//! the document's object at that name against the provider's declared type.
use crate::events::RequestType;
use vstd::prelude::*;
use vstd::string::StringExecFns;

verus! {

/// The outcome of decoding an optional, provider-defined properties object.
/// An absent member is not a failure; a present member that does not fit the
/// declared type is.
#[derive(Debug, PartialEq)]
pub enum PropsField<T> {
    /// The member is absent from the document.
    Absent,
    /// The member is present and fits the declared type.
    Valid(T),
    /// The member is present but does not fit the declared type; the payload
    /// says why, as the decoder rendered it.
    Invalid(String),
}

/// A raw lifecycle event: the document's members before any per-phase shape
/// is enforced. `C`, `U` and `D` are the provider's properties types for the
/// three phases; each properties member is decoded against the type of the
/// phase that reads it.
#[derive(Debug, PartialEq)]
pub struct RawEvent<C, U, D> {
    /// The document's `RequestType` string.
    pub request_type: Option<String>,
    /// The document's `ResponseURL` string.
    pub response_url: Option<String>,
    /// The document's `StackId` string.
    pub stack_id: Option<String>,
    /// The document's `RequestId` string.
    pub request_id: Option<String>,
    /// The document's `ResourceType` string.
    pub resource_type: Option<String>,
    /// The document's `LogicalResourceId` string.
    pub logical_resource_id: Option<String>,
    /// The document's `PhysicalResourceId` string.
    pub physical_resource_id: Option<String>,
    /// The document's `ResourceProperties` object, decoded against `C`.
    pub create_properties: PropsField<C>,
    /// The document's `ResourceProperties` object, decoded against `U`.
    pub update_properties: PropsField<U>,
    /// The document's `OldResourceProperties` object, decoded against `U`.
    pub old_update_properties: PropsField<U>,
    /// The document's `ResourceProperties` object, decoded against `D`.
    pub delete_properties: PropsField<D>,
}

/// Phase detection: `"Create"`, `"Update"` and `"Delete"` map to their
/// phases; any other value, and an absent or non-string member, to nothing.
pub open spec fn spec_request_type(raw: Option<String>) -> Option<RequestType> {
    match raw {
        Option::None => None,
        Option::Some(s) => if s@ == "Create"@ {
            Some(RequestType::Create)
        } else if s@ == "Update"@ {
            Some(RequestType::Update)
        } else if s@ == "Delete"@ {
            Some(RequestType::Delete)
        } else {
            None
        },
    }
}

/// Reads the event's phase from its `RequestType` member, matched exactly
/// and case-sensitively against the three recognized values.
pub fn request_type<C, U, D>(event: &RawEvent<C, U, D>) -> (r: Option<RequestType>)
    ensures
        r == spec_request_type(event.request_type),
{
    match &event.request_type {
        Option::None => None,
        Option::Some(s) => {
            if *s == String::from_str("Create") {
                Some(RequestType::Create)
            } else if *s == String::from_str("Update") {
                Some(RequestType::Update)
            } else if *s == String::from_str("Delete") {
                Some(RequestType::Delete)
            } else {
                None
            }
        },
    }
}

} // verus!
