use tracy::asset::{missing_asset, Asset};
use tracy::request::{route_client, saved_token, Route};
use tracy::response::{
    asset_response, bad_request, not_found, save_response, token_response, Response, Status,
};

/// Files that behave: a token file that holds text, and the five assets.
struct Files {
    token: String,
    keys_js: Option<String>,
}

fn content(files: &Files, asset: Asset) -> Result<String, String> {
    match asset {
        Asset::AppHtml => Ok(String::from("<html>app</html>")),
        Asset::ThemeCss => Ok(String::from("body { margin: 0 }")),
        Asset::AppJs => Ok(String::from("let app = 1;")),
        Asset::KeysJs => files.keys_js.clone().ok_or(missing_asset()),
        Asset::WindowsHtml => Ok(String::from("<html>windows</html>")),
    }
}

fn serve(files: &mut Files, request: Option<&str>) -> Response {
    match route_client(request) {
        Route::Asset(asset) => asset_response(content(files, asset)),
        Route::GetToken => token_response(Some(files.token.clone())),
        Route::SaveToken => match request.and_then(saved_token) {
            Some(token) => {
                files.token = String::from(token);
                save_response(true)
            }
            None => save_response(false),
        },
        Route::NotFound => not_found(),
        Route::BadRequest => bad_request(),
    }
}

fn fresh() -> Files {
    Files { token: String::new(), keys_js: Some(String::from("let keys = [];")) }
}

#[test]
fn static_paths_give_their_content() {
    let mut files = fresh();
    for (request, body) in [
        ("/", "<html>app</html>"),
        ("/app.html", "<html>app</html>"),
        ("/theme.css", "body { margin: 0 }"),
        ("/app.js", "let app = 1;"),
        ("/keys.js", "let keys = [];"),
        ("/windows", "<html>windows</html>"),
        ("/app.js?v=2", "let app = 1;"),
    ] {
        let response = serve(&mut files, Some(request));
        assert_eq!(response.status, Status::Success, "{}", request);
        assert_eq!(response.body.as_bytes(), body.as_bytes(), "{}", request);
    }
    assert_eq!(files.token, "");
}

#[test]
fn missing_asset_is_a_server_error() {
    let mut files = Files { token: String::new(), keys_js: None };
    let response = serve(&mut files, Some("/keys.js"));
    assert_eq!(response.status.line(), "500 Server Error");
    assert_eq!(response.body, "Error on providing static resource: No file found");
}

#[test]
fn unknown_path_gets_404_and_a_body() {
    let mut files = fresh();
    let response = serve(&mut files, Some("/nothing/here?x"));
    assert_eq!(response.status.line(), "404 Not Found");
    assert!(!response.body.is_empty());
    assert_eq!(files.token, "");
}

#[test]
fn client_without_a_path_gets_400() {
    let mut files = fresh();
    files.token = String::from("tok");
    let response = serve(&mut files, None);
    assert_eq!(response.status, Status::BadRequest);
    assert_eq!(response.status.line(), "400 Bad Request");
    assert_eq!(response.body, "Bad request");
    assert_ne!(response.body, "saved");
    assert_eq!(files.token, "tok");
}

#[test]
fn save_without_a_token_fails_and_keeps_the_file() {
    for request in ["/saveToken", "/saveToken?", "/saveToken?token", "/saveToken?toké"] {
        let mut files = fresh();
        files.token = String::from("tok");
        let response = serve(&mut files, Some(request));
        assert_eq!(
            response,
            Response { status: Status::Success, body: String::from("failed") },
            "{:?}",
            request
        );
        assert_eq!(files.token, "tok", "{:?}", request);
    }
}

#[test]
fn save_without_a_token_does_not_count_as_the_last_save() {
    let mut files = fresh();
    assert_eq!(serve(&mut files, Some("/saveToken?token=first")).body, "saved");
    assert_eq!(serve(&mut files, Some("/saveToken")).body, "failed");
    assert_eq!(serve(&mut files, None).body, "Bad request");
    assert_eq!(serve(&mut files, Some("/getToken")).body, "first");
}

#[test]
fn get_token_before_any_save_is_empty() {
    let mut files = fresh();
    let response = serve(&mut files, Some("/getToken"));
    assert_eq!(response.status, Status::Success);
    assert_eq!(response.body, "");
    assert_ne!(response.body, "failed");
}

#[test]
fn save_then_get_returns_the_token() {
    let mut files = fresh();
    let saved = serve(&mut files, Some("/saveToken?abcdefXYZ"));
    assert_eq!(saved, Response { status: Status::Success, body: String::from("saved") });
    let got = serve(&mut files, Some("/getToken"));
    assert_eq!(got, Response { status: Status::Success, body: String::from("XYZ") });
}

#[test]
fn save_then_get_round_trip() {
    for token in ["", "a", "XYZ", "a b c", "é日本語𝄞", "x?y=z&w", "failed", "saved", "\r\n"] {
        let mut files = fresh();
        let request = format!("/saveToken?token={}", token);
        assert_eq!(serve(&mut files, Some(&request)).body, "saved");
        let got = serve(&mut files, Some("/getToken?again"));
        assert_eq!(got.status, Status::Success);
        assert_eq!(got.body, token);
    }
}

#[test]
fn last_save_wins() {
    let mut files = fresh();
    for i in 0..100 {
        let request = format!("/saveToken?token=value-{}", i);
        assert_eq!(serve(&mut files, Some(&request)).body, "saved");
    }
    assert_eq!(files.token, "value-99");
    assert_eq!(serve(&mut files, Some("/getToken")).body, "value-99");
}

#[test]
fn shorter_token_leaves_nothing_of_a_longer_one() {
    let mut files = fresh();
    serve(&mut files, Some("/saveToken?token=a-long-token-value"));
    serve(&mut files, Some("/app.js"));
    serve(&mut files, Some("/saveToken?token=b"));
    serve(&mut files, Some("/nothing"));
    serve(&mut files, Some("/getToken"));
    assert_eq!(files.token, "b");
    assert_eq!(serve(&mut files, Some("/getToken")).body, "b");
}
