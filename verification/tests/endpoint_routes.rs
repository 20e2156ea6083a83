use given_content_engine::endpoint;
use given_content_engine::endpoint::request::Request;

#[test]
fn endpoint_extract_resource_test() {
    let id = "/config";
    let request = Request { path: &id };

    assert_eq!(request.resource(), "/config");
    assert_eq!(request.resource_params(), None);
    assert_eq!(request.query_string().len(), 0);
}

#[test]
fn endpoint_extract_resource_with_member_test() {
    let id = "/posts/12";
    let request = Request { path: &id };

    assert_eq!(request.resource(), "/posts");
    assert_eq!(request.resource_params(), Some("12"));
}

#[test]
fn endpoint_handles_empty_members_test() {
    let id = "/posts/";
    let request = Request { path: &id };

    assert_eq!(request.resource(), "/posts");
    assert_eq!(request.resource_params(), Some(""));
}

#[test]
fn request_extract_resource_test() {
    let id = "/config";
    let request = Request { path: &id };

    assert_eq!(request.resource(), "/config");
    assert_eq!(request.resource_params(), None);
    assert_eq!(request.query_string().len(), 0);
}

#[test]
fn request_extract_resource_with_member_test() {
    let id = "/posts/12";
    let request = Request { path: &id };

    assert_eq!(request.resource(), "/posts");
    assert_eq!(request.resource_params(), Some("12"));
}

#[test]
fn request_handles_empty_members_test() {
    let id = "/posts/";
    let request = Request { path: &id };

    assert_eq!(request.resource(), "/posts");
    assert_eq!(request.resource_params(), Some(""));
}

#[test]
fn call_answers_the_config_resource() {
    let answer = endpoint::call("/config").unwrap();
    assert_eq!(
        answer,
        "config handle for resource: /config and resource_params: None with query_string []"
    );
}

#[test]
fn call_rejects_unknown_resources() {
    let answer = endpoint::call("/nope/12");
    assert_eq!(answer, Err("Cannot find path /nope".to_string()));
}
