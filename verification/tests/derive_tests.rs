use custom_resource_provider::events::{ProviderRequestCreateEvent, ProviderRequestUpdateEvent, RequestType};
use custom_resource_provider::physical_id::build_physical_resource_id;
use custom_resource_provider::response::ProviderResponseBuilder;

#[test]
fn derive_matches_known_digest() {
    let id = build_physical_resource_id("st".to_string(), "lg".to_string());
    assert_eq!(id, "63281323d65777deeab77c7ab27f7011ac49ffa6475ea89b165cfda9d1d079a2");
}

#[test]
fn derive_matches_known_digest_realistic_ids() {
    let id = build_physical_resource_id(
        "arn:aws:cloudformation:us-east-1:123456789012:stack/mystack/abc123".to_string(),
        "MyResource".to_string(),
    );
    assert_eq!(id, "cca11808bb783d5772b9d03ba9b9f57d4bda45d02a6688d6662f18c0db0cdba4");
}

#[test]
fn derive_is_deterministic_across_calls() {
    let a = build_physical_resource_id("stack-a".to_string(), "logical-a".to_string());
    let b = build_physical_resource_id("stack-a".to_string(), "logical-a".to_string());
    assert_eq!(a, b);
}

#[test]
fn derive_differs_for_differing_inputs() {
    let a = build_physical_resource_id("stack-a".to_string(), "logical-a".to_string());
    let b = build_physical_resource_id("stack-a".to_string(), "logical-b".to_string());
    let c = build_physical_resource_id("stack-b".to_string(), "logical-a".to_string());
    assert_ne!(a, b);
    assert_ne!(a, c);
    assert_ne!(b, c);
}

#[test]
fn derive_is_lowercase_hex_of_fixed_length() {
    let id = build_physical_resource_id("some stack".to_string(), "some resource".to_string());
    assert_eq!(id.len(), 64);
    assert!(id.chars().all(|c| c.is_ascii_hexdigit() && !c.is_ascii_uppercase()));
}

#[test]
fn default_physical_id_stable_across_invocations() {
    let create = ProviderRequestCreateEvent::<u8> {
        request_type: RequestType::Create,
        response_url: "https://example.test/cb".to_string(),
        stack_id: "stack-1".to_string(),
        request_id: "request-1".to_string(),
        resource_type: "Custom::Thing".to_string(),
        logical_resource_id: "Thing".to_string(),
        resource_properties: None,
    };
    let update = ProviderRequestUpdateEvent::<u8> {
        request_type: RequestType::Update,
        response_url: "https://example.test/cb".to_string(),
        stack_id: "stack-1".to_string(),
        request_id: "request-2".to_string(),
        resource_type: "Custom::Thing".to_string(),
        logical_resource_id: "Thing".to_string(),
        physical_resource_id: "existing".to_string(),
        resource_properties: None,
        old_resource_properties: None,
    };
    let first = ProviderResponseBuilder::from_event(create).build();
    let second = ProviderResponseBuilder::from_event(update).build();
    assert_eq!(first.physical_resource_id, second.physical_resource_id);
    assert_ne!(first.request_id, second.request_id);
}
