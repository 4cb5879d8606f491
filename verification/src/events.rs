//! Typed representations of the three lifecycle request shapes. Each phase
//! has its own envelope: a Create event never carries a physical resource id,
//! while Update and Delete events always do, and only an Update event carries
//! the previous resource properties.
use vstd::prelude::*;

verus! {

/// The lifecycle phase of a request: a closed set of three.
#[derive(Debug, Clone, Copy, PartialEq, Eq, Structural)]
pub enum RequestType {
    Create,
    Update,
    Delete,
}

/// The header fields shared by every request envelope, at specification level.
pub struct EventHeader {
    pub request_type: RequestType,
    pub response_url: Seq<char>,
    pub stack_id: Seq<char>,
    pub request_id: Seq<char>,
    pub resource_type: Seq<char>,
    pub logical_resource_id: Seq<char>,
}

/// The header fields shared by every request envelope, whatever its phase.
pub trait ProviderRequestEventDetails {
    /// The envelope's header, at specification level.
    spec fn spec_header(&self) -> EventHeader;

    fn request_type(&self) -> (r: RequestType)
        ensures
            r == self.spec_header().request_type,
    ;

    fn response_url(&self) -> (r: String)
        ensures
            r@ == self.spec_header().response_url,
    ;

    fn stack_id(&self) -> (r: String)
        ensures
            r@ == self.spec_header().stack_id,
    ;

    fn request_id(&self) -> (r: String)
        ensures
            r@ == self.spec_header().request_id,
    ;

    fn resource_type(&self) -> (r: String)
        ensures
            r@ == self.spec_header().resource_type,
    ;

    fn logical_resource_id(&self) -> (r: String)
        ensures
            r@ == self.spec_header().logical_resource_id,
    ;
}

/// A parsed Create request. Carries no physical resource id: none exists yet.
#[derive(Debug, PartialEq)]
pub struct ProviderRequestCreateEvent<T> {
    pub request_type: RequestType,
    pub response_url: String,
    pub stack_id: String,
    pub request_id: String,
    pub resource_type: String,
    pub logical_resource_id: String,
    pub resource_properties: Option<T>,
}

/// A parsed Update request. Always carries the physical resource id chosen
/// when the resource was created, and may carry the previous properties.
#[derive(Debug, PartialEq)]
pub struct ProviderRequestUpdateEvent<T> {
    pub request_type: RequestType,
    pub response_url: String,
    pub stack_id: String,
    pub request_id: String,
    pub resource_type: String,
    pub logical_resource_id: String,
    pub physical_resource_id: String,
    pub resource_properties: Option<T>,
    pub old_resource_properties: Option<T>,
}

/// A parsed Delete request. Always carries the physical resource id.
#[derive(Debug, PartialEq)]
pub struct ProviderRequestDeleteEvent<T> {
    pub request_type: RequestType,
    pub response_url: String,
    pub stack_id: String,
    pub request_id: String,
    pub resource_type: String,
    pub logical_resource_id: String,
    pub resource_properties: Option<T>,
    pub physical_resource_id: String,
}

impl<T> ProviderRequestEventDetails for ProviderRequestCreateEvent<T> {
    open spec fn spec_header(&self) -> EventHeader {
        EventHeader {
            request_type: self.request_type,
            response_url: self.response_url@,
            stack_id: self.stack_id@,
            request_id: self.request_id@,
            resource_type: self.resource_type@,
            logical_resource_id: self.logical_resource_id@,
        }
    }

    fn request_type(&self) -> RequestType {
        self.request_type.clone()
    }

    fn response_url(&self) -> String {
        self.response_url.clone()
    }

    fn stack_id(&self) -> String {
        self.stack_id.clone()
    }

    fn request_id(&self) -> String {
        self.request_id.clone()
    }

    fn resource_type(&self) -> String {
        self.resource_type.clone()
    }

    fn logical_resource_id(&self) -> String {
        self.logical_resource_id.clone()
    }
}

impl<T> ProviderRequestEventDetails for ProviderRequestUpdateEvent<T> {
    open spec fn spec_header(&self) -> EventHeader {
        EventHeader {
            request_type: self.request_type,
            response_url: self.response_url@,
            stack_id: self.stack_id@,
            request_id: self.request_id@,
            resource_type: self.resource_type@,
            logical_resource_id: self.logical_resource_id@,
        }
    }

    fn request_type(&self) -> RequestType {
        self.request_type.clone()
    }

    fn response_url(&self) -> String {
        self.response_url.clone()
    }

    fn stack_id(&self) -> String {
        self.stack_id.clone()
    }

    fn request_id(&self) -> String {
        self.request_id.clone()
    }

    fn resource_type(&self) -> String {
        self.resource_type.clone()
    }

    fn logical_resource_id(&self) -> String {
        self.logical_resource_id.clone()
    }
}

impl<T> ProviderRequestEventDetails for ProviderRequestDeleteEvent<T> {
    open spec fn spec_header(&self) -> EventHeader {
        EventHeader {
            request_type: self.request_type,
            response_url: self.response_url@,
            stack_id: self.stack_id@,
            request_id: self.request_id@,
            resource_type: self.resource_type@,
            logical_resource_id: self.logical_resource_id@,
        }
    }

    fn request_type(&self) -> RequestType {
        self.request_type.clone()
    }

    fn response_url(&self) -> String {
        self.response_url.clone()
    }

    fn stack_id(&self) -> String {
        self.stack_id.clone()
    }

    fn request_id(&self) -> String {
        self.request_id.clone()
    }

    fn resource_type(&self) -> String {
        self.resource_type.clone()
    }

    fn logical_resource_id(&self) -> String {
        self.logical_resource_id.clone()
    }
}

} // verus!
