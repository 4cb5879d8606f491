use custom_resource_provider::events::{ProviderRequestDeleteEvent, ProviderRequestEventDetails, ProviderRequestUpdateEvent, RequestType};
use custom_resource_provider::json::JsonValue;
use custom_resource_provider::response::{
    response_to_json, ProviderResponse, ResponseStatus,
};

fn sample_response() -> ProviderResponse {
    ProviderResponse {
        status: ResponseStatus::Success,
        reason: "Ok".to_string(),
        physical_resource_id: "phys-1".to_string(),
        stack_id: "stack-1".to_string(),
        request_id: "request-1".to_string(),
        logical_resource_id: "Thing".to_string(),
        no_echo: false,
        data: None,
    }
}

#[test]
fn wire_form_without_data_has_no_data_member_at_all() {
    let body = response_to_json(&sample_response());
    assert_eq!(
        body,
        "{\"Status\":\"SUCCESS\",\"Reason\":\"Ok\",\"PhysicalResourceId\":\"phys-1\",\
         \"StackId\":\"stack-1\",\"RequestId\":\"request-1\",\
         \"LogicalResourceId\":\"Thing\",\"NoEcho\":false}"
    );
    assert!(!body.contains("Data"));
    assert!(!body.contains("null"));
}

#[test]
fn wire_form_with_data_carries_the_data_member_last() {
    let mut response = sample_response();
    response.data = Some(JsonValue::Object(vec![("x".to_string(), JsonValue::Int(1))]));
    let body = response_to_json(&response);
    assert_eq!(
        body,
        "{\"Status\":\"SUCCESS\",\"Reason\":\"Ok\",\"PhysicalResourceId\":\"phys-1\",\
         \"StackId\":\"stack-1\",\"RequestId\":\"request-1\",\
         \"LogicalResourceId\":\"Thing\",\"NoEcho\":false,\"Data\":{\"x\":1}}"
    );
    assert!(body.contains("\"Status\":\"SUCCESS\""));
    assert!(body.contains("\"Data\":{\"x\":1}"));
}

#[test]
fn wire_form_escapes_field_content() {
    let mut response = sample_response();
    response.status = ResponseStatus::Failed;
    response.reason = "went \"wrong\"\n".to_string();
    response.no_echo = true;
    let body = response_to_json(&response);
    assert!(body.starts_with("{\"Status\":\"FAILED\",\"Reason\":\"went \\\"wrong\\\"\\n\","));
    assert!(body.contains("\"NoEcho\":true"));
}

#[test]
fn envelope_getters_return_the_header_members() {
    let update = ProviderRequestUpdateEvent::<u8> {
        request_type: RequestType::Update,
        response_url: "https://example.test/cb".to_string(),
        stack_id: "stack-1".to_string(),
        request_id: "request-2".to_string(),
        resource_type: "Custom::Thing".to_string(),
        logical_resource_id: "Thing".to_string(),
        physical_resource_id: "phys-1".to_string(),
        resource_properties: None,
        old_resource_properties: None,
    };
    assert_eq!(update.request_type(), RequestType::Update);
    assert_eq!(update.response_url(), "https://example.test/cb");
    assert_eq!(update.stack_id(), "stack-1");
    assert_eq!(update.request_id(), "request-2");
    assert_eq!(update.resource_type(), "Custom::Thing");
    assert_eq!(update.logical_resource_id(), "Thing");

    let delete = ProviderRequestDeleteEvent::<u8> {
        request_type: RequestType::Delete,
        response_url: "https://example.test/cb".to_string(),
        stack_id: "stack-1".to_string(),
        request_id: "request-3".to_string(),
        resource_type: "Custom::Thing".to_string(),
        logical_resource_id: "Thing".to_string(),
        resource_properties: None,
        physical_resource_id: "phys-1".to_string(),
    };
    assert_eq!(delete.request_type(), RequestType::Delete);
    assert_eq!(delete.request_id(), "request-3");
}
