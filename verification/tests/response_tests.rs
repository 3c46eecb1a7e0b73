use tracy::response::{
    asset_response, bad_request, not_found, save_response, token_response, Response, Status,
};

#[test]
fn status_lines() {
    assert_eq!(Status::Success.line(), "200 OK");
    assert_eq!(Status::NotFound.line(), "404 Not Found");
    assert_eq!(Status::BadRequest.line(), "400 Bad Request");
    assert_eq!(Status::ServerError.line(), "500 Server Error");
}

#[test]
fn not_found_has_a_body() {
    let response = not_found();
    assert_eq!(response.status, Status::NotFound);
    assert_eq!(response.status.line(), "404 Not Found");
    assert_eq!(response.body, "No resource found");
    assert!(!response.body.is_empty());
}

#[test]
fn bad_request_has_its_status() {
    let response = bad_request();
    assert_eq!(response.status, Status::BadRequest);
    assert_eq!(response.status.line(), "400 Bad Request");
    assert_eq!(response.body, "Bad request");
    assert_eq!(
        bad_request(),
        Response { status: Status::BadRequest, body: String::from("Bad request") }
    );
}

#[test]
fn asset_is_answered_byte_for_byte() {
    let content = "<!doctype html>\n<p>é — 日本語 \u{1d11e}</p>\r\n\t\u{0}";
    let response = asset_response(Ok(String::from(content)));
    assert_eq!(response.status, Status::Success);
    assert_eq!(response.body.as_bytes(), content.as_bytes());
}

#[test]
fn empty_asset_is_answered_empty() {
    assert_eq!(
        asset_response(Ok(String::new())),
        Response { status: Status::Success, body: String::new() }
    );
}

#[test]
fn asset_that_cannot_be_read_is_a_server_error() {
    assert_eq!(
        asset_response(Err(String::from("No file found"))),
        Response {
            status: Status::ServerError,
            body: String::from("Error on providing static resource: No file found"),
        }
    );
    assert_eq!(
        asset_response(Err(String::new())).body,
        "Error on providing static resource: "
    );
}

#[test]
fn token_is_answered_as_read() {
    assert_eq!(
        token_response(Some(String::from("XYZ"))),
        Response { status: Status::Success, body: String::from("XYZ") }
    );
    assert_eq!(
        token_response(Some(String::new())),
        Response { status: Status::Success, body: String::new() }
    );
}

#[test]
fn token_that_cannot_be_read_is_failed() {
    assert_eq!(
        token_response(None),
        Response { status: Status::Success, body: String::from("failed") }
    );
}

#[test]
fn save_says_saved_or_failed() {
    assert_eq!(
        save_response(true),
        Response { status: Status::Success, body: String::from("saved") }
    );
    assert_eq!(
        save_response(false),
        Response { status: Status::Success, body: String::from("failed") }
    );
}
