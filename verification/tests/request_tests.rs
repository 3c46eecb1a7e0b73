use tracy::asset::{missing_asset, Asset};
use tracy::request::{
    first_segment, route, route_client, route_request, saved_token, Route, TOKEN_OFFSET,
};
use tracy::text::same_text;

#[test]
fn root_and_app_page_are_the_same_asset() {
    assert_eq!(route("/"), Route::Asset(Asset::AppHtml));
    assert_eq!(route("/app.html"), Route::Asset(Asset::AppHtml));
}

#[test]
fn every_static_path_has_its_asset() {
    assert_eq!(route("/theme.css"), Route::Asset(Asset::ThemeCss));
    assert_eq!(route("/app.js"), Route::Asset(Asset::AppJs));
    assert_eq!(route("/keys.js"), Route::Asset(Asset::KeysJs));
    assert_eq!(route("/windows"), Route::Asset(Asset::WindowsHtml));
}

#[test]
fn token_paths_have_their_routes() {
    assert_eq!(route("/getToken"), Route::GetToken);
    assert_eq!(route("/saveToken"), Route::SaveToken);
}

#[test]
fn unknown_path_is_not_found() {
    for path in [
        "", "//", "/app", "/app.html/", "/APP.HTML", "/app.htm", "/app.html ", " /app.html",
        "app.html", "/windows.html", "/gettoken", "/getToken/", "/saveToken=", "/favicon.ico",
        "/thème.css", "/théme.css",
    ] {
        assert_eq!(route(path), Route::NotFound, "{:?}", path);
    }
}

#[test]
fn missing_path_is_a_bad_request() {
    assert_eq!(route_client(None), Route::BadRequest);
}

#[test]
fn request_that_was_read_is_never_a_bad_request() {
    for request in ["", "?", "/", "/app.html", "/nothing", "/getToken", "/saveToken", " ", "é"] {
        assert_ne!(route_client(Some(request)), Route::BadRequest, "{:?}", request);
        assert_eq!(route_client(Some(request)), route_request(request), "{:?}", request);
    }
}

#[test]
fn client_route_follows_the_request() {
    assert_eq!(route_client(Some("/?x")), Route::Asset(Asset::AppHtml));
    assert_eq!(route_client(Some("/keys.js")), Route::Asset(Asset::KeysJs));
    assert_eq!(route_client(Some("/getToken?")), Route::GetToken);
    assert_eq!(route_client(Some("/saveToken?token=XYZ")), Route::SaveToken);
    assert_eq!(route_client(Some("/unknown")), Route::NotFound);
    assert_eq!(route_client(Some("")), Route::NotFound);
}

#[test]
fn path_ends_at_the_first_question_mark() {
    assert_eq!(first_segment("/app.js?x=1"), "/app.js");
    assert_eq!(first_segment("/a?b?c"), "/a");
    assert_eq!(first_segment("/saveToken?token=a?b"), "/saveToken");
    assert_eq!(first_segment("?"), "");
    assert_eq!(first_segment("?x"), "");
    assert_eq!(first_segment("/getToken?"), "/getToken");
}

#[test]
fn request_without_query_is_its_own_path() {
    assert_eq!(first_segment(""), "");
    assert_eq!(first_segment("/"), "/");
    assert_eq!(first_segment("/windows"), "/windows");
}

#[test]
fn path_with_characters_of_several_bytes() {
    assert_eq!(first_segment("/é?x"), "/é");
    assert_eq!(first_segment("/日本語?q=é"), "/日本語");
    assert_eq!(first_segment("/𝄞"), "/𝄞");
    assert_eq!(first_segment("é?"), "é");
    assert_eq!(first_segment("/\u{13f}?"), "/\u{13f}");
}

#[test]
fn path_agrees_with_splitting_at_question_marks() {
    for request in [
        "", "?", "??", "/", "/a?b", "/?", "a?b?c", "/saveToken?token=XYZ", "/é?é", "ÿ?", "\u{7f}?",
        "\u{80}?\u{80}", "\u{7ff}?", "\u{800}?", "\u{ffff}?", "\u{10000}?", "\u{10ffff}?x",
    ] {
        assert_eq!(Some(first_segment(request)), request.split('?').next(), "{:?}", request);
    }
}

#[test]
fn route_looks_at_the_path_alone() {
    assert_eq!(route_request("/?x=1"), Route::Asset(Asset::AppHtml));
    assert_eq!(route_request("/app.js?/getToken"), Route::Asset(Asset::AppJs));
    assert_eq!(route_request("/getToken?anything"), Route::GetToken);
    assert_eq!(route_request("/saveToken?token=XYZ"), Route::SaveToken);
    assert_eq!(route_request("/saveToken"), Route::SaveToken);
    assert_eq!(route_request("/nothing?/app.html"), Route::NotFound);
    assert_eq!(route_request(""), Route::NotFound);
    assert_eq!(route_request("?/app.html"), Route::NotFound);
}

#[test]
fn token_follows_the_usual_prefix() {
    assert_eq!(TOKEN_OFFSET, "/saveToken?token=".len());
    assert_eq!(saved_token("/saveToken?token=XYZ"), Some("XYZ"));
    assert_eq!(saved_token("/saveToken?token=a b?c=d"), Some("a b?c=d"));
}

#[test]
fn token_is_what_follows_seventeen_bytes() {
    assert_eq!(saved_token("/saveToken?abcdefXYZ"), Some("XYZ"));
    assert_eq!(saved_token("0123456789abcdefgh"), Some("h"));
    assert_eq!(saved_token("/saveToken?token=é"), Some("é"));
}

#[test]
fn token_may_be_empty() {
    assert_eq!(saved_token("/saveToken?token="), Some(""));
}

#[test]
fn short_request_carries_no_token() {
    assert_eq!(saved_token(""), None);
    assert_eq!(saved_token("/saveToken"), None);
    assert_eq!(saved_token("/saveToken?token"), None);
}

#[test]
fn token_cannot_start_inside_a_character() {
    // the bytes 16 and 17 are the two bytes of one character
    assert_eq!(saved_token("/saveToken?tokenéXYZ"), None);
    // with the character one byte earlier, byte 17 starts a character again
    assert_eq!(saved_token("/saveToken?tokeéXYZ"), Some("XYZ"));
    // the prefix is counted in bytes: here it holds sixteen characters
    assert_eq!(saved_token("/saveToken?tök=XYZ"), Some("YZ"));
}

#[test]
fn token_agrees_with_slicing() {
    for request in [
        "/saveToken?token=XYZ", "/saveToken?token=", "/saveToken?token=日本語", "01234567890123456",
        "0123456789012345é", "012345678901234é7", "012345678901234日本", "01234567890123𝄞x",
    ] {
        assert_eq!(saved_token(request), request.get(17..), "{:?}", request);
    }
}

#[test]
fn same_text_compares_character_for_character() {
    assert!(same_text("", ""));
    assert!(same_text("/app.html", "/app.html"));
    assert!(same_text("é", "\u{e9}"));
    assert!(!same_text("/app.html", "/app.htm"));
    assert!(!same_text("/app.htm", "/app.html"));
    assert!(!same_text("/app.html", "/app.htmk"));
    assert!(!same_text("a", "b"));
    assert!(!same_text("é", "e\u{301}"));
    assert!(!same_text("", " "));
}

#[test]
fn assets_have_their_file_names() {
    assert_eq!(Asset::AppHtml.file_name(), "app.html");
    assert_eq!(Asset::ThemeCss.file_name(), "theme.css");
    assert_eq!(Asset::AppJs.file_name(), "app.js");
    assert_eq!(Asset::KeysJs.file_name(), "keys.js");
    assert_eq!(Asset::WindowsHtml.file_name(), "windows.html");
}

#[test]
fn development_build_reads_assets_from_the_front_folder() {
    assert_eq!(Asset::AppHtml.development_path(), "front/app.html");
    assert_eq!(Asset::ThemeCss.development_path(), "front/theme.css");
    assert_eq!(Asset::AppJs.development_path(), "front/app.js");
    assert_eq!(Asset::KeysJs.development_path(), "front/keys.js");
    assert_eq!(Asset::WindowsHtml.development_path(), "front/windows.html");
}

#[test]
fn missing_asset_has_its_reason() {
    assert_eq!(missing_asset(), "No file found");
}
