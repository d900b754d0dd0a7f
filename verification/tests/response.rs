use pokemon_api::response::Response;

#[test]
fn json_response_sets_the_content_type() {
    let response = Response::json(200, "{}".to_string());
    assert_eq!(response.status, 200);
    assert_eq!(response.content_type, Some("application/json".to_string()));
    assert_eq!(response.body, "{}");
}

#[test]
fn bare_response_has_no_content() {
    let response = Response::bare(500);
    assert_eq!(response.status, 500);
    assert_eq!(response.content_type, None);
    assert_eq!(response.body, "");
}
