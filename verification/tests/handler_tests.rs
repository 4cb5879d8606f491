use custom_resource_provider::error::Error;
use custom_resource_provider::events::RequestType;
use custom_resource_provider::handler::custom_resource_handler;
use custom_resource_provider::json::JsonValue;
use custom_resource_provider::raw::{request_type, PropsField, RawEvent};
use custom_resource_provider::response::{ProviderResponse, ProviderResponseBuilder, ResponseStatus};
use custom_resource_provider::types::{
    outcome_response, CreateEvent, DeleteEvent, Provider, ProviderOutcome, UpdateEvent,
};

#[derive(Debug, PartialEq)]
struct TestProps {
    name: String,
}

/// A provider that reports which operation ran and whether it saw properties.
struct EchoProvider;

impl Provider for EchoProvider {
    type C = TestProps;
    type U = TestProps;
    type D = TestProps;

    fn create(&self, create_event: CreateEvent<TestProps>) -> ProviderResponse {
        let event = create_event.0;
        if event.resource_properties.is_none() {
            return ProviderResponseBuilder::from_event(event)
                .status(ResponseStatus::Failed)
                .reason("Missing or invalid 'ResourceProperties' parameter".to_string())
                .build();
        }
        let name = event.resource_properties.as_ref().unwrap().name.clone();
        outcome_response(
            event,
            ProviderOutcome::Succeeded(Some(JsonValue::Object(vec![(
                "created".to_string(),
                JsonValue::Str(name),
            )]))),
        )
    }

    fn update(&self, update_event: UpdateEvent<TestProps>) -> ProviderResponse {
        outcome_response(update_event.0, ProviderOutcome::Succeeded(None))
    }

    fn delete(&self, delete_event: DeleteEvent<TestProps>) -> ProviderResponse {
        outcome_response(delete_event.0, ProviderOutcome::Failed("delete broke".to_string()))
    }
}

fn valid_create_event() -> RawEvent<TestProps, TestProps, TestProps> {
    RawEvent {
        request_type: Some("Create".to_string()),
        response_url: Some("https://example.test/cb".to_string()),
        stack_id: Some("stack-1".to_string()),
        request_id: Some("request-1".to_string()),
        resource_type: Some("Custom::Thing".to_string()),
        logical_resource_id: Some("Thing".to_string()),
        physical_resource_id: None,
        create_properties: PropsField::Valid(TestProps { name: "alpha".to_string() }),
        update_properties: PropsField::Absent,
        old_update_properties: PropsField::Absent,
        delete_properties: PropsField::Absent,
    }
}

#[test]
fn unrecognized_request_type_fails_fatally_without_a_callback() {
    let mut event = valid_create_event();
    event.request_type = Some("Launch".to_string());
    let result = custom_resource_handler(&EchoProvider, event);
    assert_eq!(result.unwrap_err(), Error::InvalidRequestType);
}

#[test]
fn absent_request_type_fails_fatally() {
    let mut event = valid_create_event();
    event.request_type = None;
    let result = custom_resource_handler(&EchoProvider, event);
    assert_eq!(result.unwrap_err(), Error::InvalidRequestType);
}

#[test]
fn invalid_callback_url_fails_before_phase_detection() {
    let mut event = valid_create_event();
    event.response_url = Some("not a url".to_string());
    // The phase is also unrecognizable; the callback target still decides.
    event.request_type = Some("Launch".to_string());
    let result = custom_resource_handler(&EchoProvider, event);
    assert_eq!(result.unwrap_err(), Error::InvalidResponseURI);
}

#[test]
fn relative_callback_url_fails_fatally() {
    let mut event = valid_create_event();
    event.response_url = Some("foo/bar".to_string());
    let result = custom_resource_handler(&EchoProvider, event);
    assert_eq!(result.unwrap_err(), Error::InvalidResponseURI);
}

#[test]
fn absent_callback_url_fails_fatally() {
    let mut event = valid_create_event();
    event.response_url = None;
    let result = custom_resource_handler(&EchoProvider, event);
    assert_eq!(result.unwrap_err(), Error::InvalidResponseURI);
}

#[test]
fn missing_header_member_is_a_deserialization_failure() {
    let mut event = valid_create_event();
    event.stack_id = None;
    let result = custom_resource_handler(&EchoProvider, event);
    assert_eq!(
        result.unwrap_err(),
        Error::InvalidEvent(
            RequestType::Create,
            "the StackId member is absent or not a string".to_string()
        )
    );
}

#[test]
fn ill_shaped_properties_are_a_deserialization_failure() {
    let mut event = valid_create_event();
    event.create_properties = PropsField::Invalid("missing field `ssm_name`".to_string());
    let result = custom_resource_handler(&EchoProvider, event);
    assert_eq!(
        result.unwrap_err(),
        Error::InvalidEvent(RequestType::Create, "missing field `ssm_name`".to_string())
    );
}

#[test]
fn update_without_physical_id_is_a_deserialization_failure() {
    let mut event = valid_create_event();
    event.request_type = Some("Update".to_string());
    event.physical_resource_id = None;
    let result = custom_resource_handler(&EchoProvider, event);
    assert_eq!(
        result.unwrap_err(),
        Error::InvalidEvent(
            RequestType::Update,
            "the PhysicalResourceId member is absent or not a string".to_string()
        )
    );
}

#[test]
fn absent_properties_reach_the_provider_as_absent_not_as_an_error() {
    let mut event = valid_create_event();
    event.create_properties = PropsField::Absent;
    let delivery = custom_resource_handler(&EchoProvider, event).unwrap();
    assert_eq!(delivery.response.status, ResponseStatus::Failed);
    assert_eq!(delivery.response.reason, "Missing or invalid 'ResourceProperties' parameter");
    assert!(delivery.body.contains("\"Status\":\"FAILED\""));
    assert!(delivery.body.contains("Missing or invalid 'ResourceProperties' parameter"));
}

#[test]
fn successful_create_is_routed_serialized_and_addressed() {
    let delivery = custom_resource_handler(&EchoProvider, valid_create_event()).unwrap();
    assert_eq!(delivery.url, "https://example.test/cb");
    assert_eq!(delivery.response.status, ResponseStatus::Success);
    assert!(delivery.body.contains("\"Status\":\"SUCCESS\""));
    assert!(delivery.body.contains("\"Data\":{\"created\":\"alpha\"}"));
    assert!(delivery.body.contains("\"StackId\":\"stack-1\""));
    assert!(delivery.body.contains("\"RequestId\":\"request-1\""));
    assert!(delivery.body.contains("\"LogicalResourceId\":\"Thing\""));
}

#[test]
fn update_is_routed_to_the_update_operation() {
    let mut event = valid_create_event();
    event.request_type = Some("Update".to_string());
    event.physical_resource_id = Some("phys-1".to_string());
    event.update_properties = PropsField::Valid(TestProps { name: "beta".to_string() });
    let delivery = custom_resource_handler(&EchoProvider, event).unwrap();
    assert_eq!(delivery.response.status, ResponseStatus::Success);
    assert_eq!(delivery.response.reason, "Ok");
    assert!(delivery.response.data.is_none());
    assert!(!delivery.body.contains("\"Data\""));
}

#[test]
fn delete_is_routed_to_the_delete_operation() {
    let mut event = valid_create_event();
    event.request_type = Some("Delete".to_string());
    event.physical_resource_id = Some("phys-1".to_string());
    let delivery = custom_resource_handler(&EchoProvider, event).unwrap();
    assert_eq!(delivery.response.status, ResponseStatus::Failed);
    assert_eq!(delivery.response.reason, "delete broke");
}

#[test]
fn update_parse_carries_both_property_sets() {
    let mut event = valid_create_event();
    event.request_type = Some("Update".to_string());
    event.physical_resource_id = Some("phys-1".to_string());
    event.update_properties = PropsField::Valid(TestProps { name: "new".to_string() });
    event.old_update_properties = PropsField::Valid(TestProps { name: "old".to_string() });
    let parsed = UpdateEvent::try_from(event).unwrap().0;
    assert_eq!(parsed.request_type, RequestType::Update);
    assert_eq!(parsed.physical_resource_id, "phys-1");
    assert_eq!(parsed.resource_properties, Some(TestProps { name: "new".to_string() }));
    assert_eq!(parsed.old_resource_properties, Some(TestProps { name: "old".to_string() }));
}

#[test]
fn ill_shaped_old_properties_are_a_deserialization_failure() {
    let mut event = valid_create_event();
    event.request_type = Some("Update".to_string());
    event.physical_resource_id = Some("phys-1".to_string());
    event.old_update_properties = PropsField::Invalid("unknown field `extra`".to_string());
    let result = UpdateEvent::<TestProps>::try_from(event);
    assert_eq!(
        result.unwrap_err(),
        Error::InvalidEvent(RequestType::Update, "unknown field `extra`".to_string())
    );
}

#[test]
fn phase_detection_matches_exactly_and_case_sensitively() {
    let mut event = valid_create_event();
    assert_eq!(request_type(&event), Some(RequestType::Create));
    event.request_type = Some("Update".to_string());
    assert_eq!(request_type(&event), Some(RequestType::Update));
    event.request_type = Some("Delete".to_string());
    assert_eq!(request_type(&event), Some(RequestType::Delete));
    event.request_type = Some("create".to_string());
    assert_eq!(request_type(&event), None);
    event.request_type = Some(" Create".to_string());
    assert_eq!(request_type(&event), None);
    event.request_type = None;
    assert_eq!(request_type(&event), None);
}

#[test]
fn error_descriptions_name_each_kind() {
    assert_eq!(Error::InvalidRequestType.description(), "invalid or unknown RequestType");
    assert_eq!(
        Error::InvalidResponseURI.description(),
        "invalid or missing ResponseURI value in the event"
    );
    assert_eq!(
        Error::InvalidEvent(RequestType::Update, "no StackId".to_string()).description(),
        "invalid result from event deserialization attempt"
    );
}
