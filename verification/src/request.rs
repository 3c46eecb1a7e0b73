//! What a request asks for.
//!
//! A request is the text that follows the method in a request line, such as
//! `/saveToken?token=abc`. Its path is the text before the first `?`. The
//! path alone decides the route, by exact match; a save request carries its
//! token behind a prefix of fixed length. A client from whose words no such
//! text could be read has made a bad request.

use vstd::prelude::*;
use vstd::string::*;
use vstd::utf8::*;
use crate::asset::Asset;
use crate::text::{
    lemma_ascii_byte_in_encoding, lemma_boundary_is_between_characters,
    lemma_encoding_is_injective, lemma_encoding_of_char, lemma_encoding_splits,
    lemma_encoding_unfolds, lemma_plain_text_length, same_text,
};

verus! {

/// What a request asks the server to do.
#[derive(Clone, Copy, Debug, PartialEq, Eq)]
pub enum Route {
    /// Hand out a static asset.
    Asset(Asset),
    /// Hand out the stored token.
    GetToken,
    /// Store the token that the request carries.
    SaveToken,
    /// The path names nothing that the server knows.
    NotFound,
    /// No path could be read from what the client sent.
    BadRequest,
}

/// Where the query of a request begins: the place of its first `?`, or its
/// length when it holds none.
pub open spec fn query_start(request: Seq<char>) -> int
    decreases request.len(),
{
    if request.len() == 0 || request[0] == '?' {
        0
    } else {
        1 + query_start(request.drop_first())
    }
}

/// The path of a request: the text before its first `?`, and the whole
/// request when it holds none.
pub open spec fn path_of(request: Seq<char>) -> Seq<char> {
    request.take(query_start(request))
}

/// The asset that a path names, if it names one.
pub open spec fn asset_at(path: Seq<char>) -> Option<Asset> {
    if path == "/"@ || path == "/app.html"@ {
        Some(Asset::AppHtml)
    } else if path == "/theme.css"@ {
        Some(Asset::ThemeCss)
    } else if path == "/app.js"@ {
        Some(Asset::AppJs)
    } else if path == "/keys.js"@ {
        Some(Asset::KeysJs)
    } else if path == "/windows"@ {
        Some(Asset::WindowsHtml)
    } else {
        None
    }
}

/// The route that a path stands for. A path stands for a route only as a
/// whole: neither a beginning of it nor a longer path does.
pub open spec fn route_of_path(path: Seq<char>) -> Route {
    match asset_at(path) {
        Some(asset) => Route::Asset(asset),
        None => if path == "/getToken"@ {
            Route::GetToken
        } else if path == "/saveToken"@ {
            Route::SaveToken
        } else {
            Route::NotFound
        },
    }
}

/// The route of a whole request: that of its path.
pub open spec fn route_of_request(request: Seq<char>) -> Route {
    route_of_path(path_of(request))
}

/// The route for what a client sent: that of its request, or the one for a
/// bad request where no request could be read from it.
pub open spec fn route_of_client(request: Option<Seq<char>>) -> Route {
    match request {
        Some(text) => route_of_request(text),
        None => Route::BadRequest,
    }
}

/// The number of bytes in front of the token in a save request: the length
/// of `/saveToken?token=`.
pub const TOKEN_OFFSET: usize = 17;

/// True when a request is long enough to carry a token, and the token starts
/// at a character of the request and not inside one.
pub open spec fn has_token(request: Seq<char>) -> bool {
    is_char_boundary(encode_utf8(request), TOKEN_OFFSET as int)
}

/// The token that a request carries: the text that its bytes spell from
/// `TOKEN_OFFSET` on.
pub open spec fn token_of(request: Seq<char>) -> Seq<char>
    recommends
        has_token(request),
{
    let bytes = encode_utf8(request);
    decode_utf8(bytes.subrange(TOKEN_OFFSET as int, bytes.len() as int))
}

/// The query starts inside the request or at its end, no `?` stands before
/// it, and where it starts inside the request a `?` stands there.
pub proof fn lemma_query_start(request: Seq<char>)
    ensures
        0 <= query_start(request) <= request.len(),
        forall|j: int| 0 <= j < query_start(request) ==> request[j] != '?',
        query_start(request) < request.len() ==> request[query_start(request)] == '?',
    decreases request.len(),
{
    if request.len() == 0 || request[0] == '?' {
    } else {
        let rest = request.drop_first();
        lemma_query_start(rest);
        assert forall|j: int| 0 <= j < query_start(request) implies request[j] != '?' by {
            if j > 0 {
                assert(request[j] == rest[j - 1]);
            }
        }
    }
}

/// The path is the longest beginning of the request that holds no `?`.
pub proof fn lemma_path_is_longest_without_query(request: Seq<char>, other: int)
    requires
        0 <= other <= request.len(),
        forall|j: int| 0 <= j < other ==> request[j] != '?',
    ensures
        path_of(request).is_prefix_of(request),
        !path_of(request).contains('?'),
        other <= path_of(request).len(),
{
    lemma_query_start(request);
    let path = path_of(request);
    if path.contains('?') {
        let j = choose|j: int| 0 <= j < path.len() && path[j] == '?';
        assert(request[j] == '?');
    }
}

/// The rows of the table of routes. Its paths are all different, so that
/// each of them leads to its own route; the empty path is none of them.
pub proof fn lemma_route_table()
    ensures
        route_of_path("/"@) == Route::Asset(Asset::AppHtml),
        route_of_path("/app.html"@) == Route::Asset(Asset::AppHtml),
        route_of_path("/theme.css"@) == Route::Asset(Asset::ThemeCss),
        route_of_path("/app.js"@) == Route::Asset(Asset::AppJs),
        route_of_path("/keys.js"@) == Route::Asset(Asset::KeysJs),
        route_of_path("/windows"@) == Route::Asset(Asset::WindowsHtml),
        route_of_path("/getToken"@) == Route::GetToken,
        route_of_path("/saveToken"@) == Route::SaveToken,
        route_of_path(""@) == Route::NotFound,
{
    reveal_strlit("/");
    reveal_strlit("/app.html");
    reveal_strlit("/theme.css");
    reveal_strlit("/app.js");
    reveal_strlit("/keys.js");
    reveal_strlit("/windows");
    reveal_strlit("/getToken");
    reveal_strlit("/saveToken");
    reveal_strlit("");
    // the paths differ in their lengths or in the character behind the `/`
    assert("/"@.len() == 1 && ""@.len() == 0);
    assert("/app.html"@.len() == 9 && "/app.js"@.len() == 7);
    assert("/app.html"@[1] == 'a' && "/app.js"@[1] == 'a');
    assert("/theme.css"@[1] == 't');
    assert("/keys.js"@[1] == 'k');
    assert("/windows"@[1] == 'w');
    assert("/getToken"@[1] == 'g');
    assert("/saveToken"@[1] == 's');
}

/// Where some first characters of a request take `TOKEN_OFFSET` bytes, the
/// request carries a token: the text behind those characters.
pub proof fn lemma_token_follows_prefix(request: Seq<char>, k: int)
    requires
        0 <= k <= request.len(),
        encode_utf8(request.take(k)).len() == TOKEN_OFFSET,
    ensures
        has_token(request),
        token_of(request) == request.skip(k),
{
    lemma_encoding_splits(request, k);
    let bytes = encode_utf8(request);
    assert(bytes.subrange(TOKEN_OFFSET as int, bytes.len() as int) =~= encode_utf8(
        request.skip(k),
    ));
    encode_utf8_decode_utf8(request.skip(k));
}

/// A request carries a token only where some first characters of it take
/// `TOKEN_OFFSET` bytes: never where byte `TOKEN_OFFSET` is inside a
/// character or behind the end.
pub proof fn lemma_token_has_prefix(request: Seq<char>) -> (k: int)
    requires
        has_token(request),
    ensures
        0 <= k <= request.len(),
        encode_utf8(request.take(k)).len() == TOKEN_OFFSET,
        token_of(request) == request.skip(k),
{
    let k = lemma_boundary_is_between_characters(request, TOKEN_OFFSET as int);
    lemma_token_follows_prefix(request, k);
    k
}

/// Behind a prefix of plain characters, one byte each, the token is the text
/// that follows the first `TOKEN_OFFSET` characters of the request. The usual
/// prefix, `/saveToken?token=`, is such a one.
pub proof fn lemma_token_behind_plain_prefix(request: Seq<char>)
    requires
        request.len() >= TOKEN_OFFSET,
        forall|j: int| 0 <= j < TOKEN_OFFSET ==> #[trigger] request[j] <= '\u{7f}',
    ensures
        has_token(request),
        token_of(request) == request.skip(TOKEN_OFFSET as int),
{
    lemma_plain_text_length(request.take(TOKEN_OFFSET as int));
    lemma_token_follows_prefix(request, TOKEN_OFFSET as int);
}

/// A request of fewer than `TOKEN_OFFSET` bytes carries no token.
pub proof fn lemma_short_request_has_no_token(request: Seq<char>)
    requires
        encode_utf8(request).len() < TOKEN_OFFSET,
    ensures
        !has_token(request),
{
    encode_utf8_valid_utf8(request);
}

/// Among the bytes of a request, the first `?` byte stands where the
/// encoding of the path ends.
proof fn lemma_query_start_in_bytes(request: Seq<char>, i: int)
    requires
        0 <= i <= encode_utf8(request).len(),
        forall|j: int| 0 <= j < i ==> encode_utf8(request)[j] != 0x3f,
        i < encode_utf8(request).len() ==> encode_utf8(request)[i] == 0x3f,
    ensures
        encode_utf8(path_of(request)) =~= encode_utf8(request).subrange(0, i),
    decreases request.len(),
{
    if request.len() > 0 {
        let c = request[0];
        let rest = request.drop_first();
        let head = encode_scalar(c as u32);
        let tail = encode_utf8(rest);
        let bytes = encode_utf8(request);
        lemma_encoding_unfolds(request);
        lemma_encoding_of_char(c);
        lemma_ascii_byte_in_encoding(c, '?');
        if c == '?' {
            // the first byte is the `?`, and the path is empty
            assert(bytes[0] == 0x3f);
        } else {
            // no byte of the first character is a `?`: the search goes past
            // them, and on among the bytes of the rest
            if i < head.len() {
                assert(bytes[i] == head[i]);
            }
            assert forall|j: int| 0 <= j < i - head.len() implies tail[j] != 0x3f by {
                assert(tail[j] == bytes[j + head.len()]);
            }
            if i - head.len() < tail.len() {
                assert(tail[i - head.len()] == bytes[i]);
            }
            lemma_query_start_in_bytes(rest, i - head.len());
            lemma_query_start(rest);
            let path = path_of(request);
            assert(path[0] == c);
            assert(path.drop_first() =~= path_of(rest));
            lemma_encoding_unfolds(path);
        }
    }
}

/// The path of a request: the first of the pieces that its `?` marks divide
/// it into. Every request has this piece, which may be empty.
pub fn first_segment(request: &str) -> (path: &str)
    ensures
        path@ == path_of(request@),
{
    let bytes = request.as_bytes();
    let mut i: usize = 0;
    while i < bytes.len() && bytes[i] != 0x3f
        invariant
            bytes@ == encode_utf8(request@),
            0 <= i <= bytes@.len(),
            forall|j: int| 0 <= j < i ==> bytes@[j] != 0x3f,
        decreases bytes@.len() - i,
    {
        i = i + 1;
    }
    proof {
        encode_utf8_valid_utf8(request@);
        if i < bytes@.len() {
            is_char_boundary_iff_not_is_continuation_byte(bytes@, i as int);
        } else {
            is_char_boundary_start_end_of_seq(bytes@);
        }
        lemma_query_start_in_bytes(request@, i as int);
    }
    let (path, _) = request.split_at(i);
    proof {
        lemma_encoding_is_injective(path@, path_of(request@));
    }
    path
}

/// The route that a path stands for. A path that the table does not hold is
/// not found.
pub fn route(path: &str) -> (r: Route)
    ensures
        r == route_of_path(path@),
{
    if same_text(path, "/") || same_text(path, "/app.html") {
        Route::Asset(Asset::AppHtml)
    } else if same_text(path, "/theme.css") {
        Route::Asset(Asset::ThemeCss)
    } else if same_text(path, "/app.js") {
        Route::Asset(Asset::AppJs)
    } else if same_text(path, "/keys.js") {
        Route::Asset(Asset::KeysJs)
    } else if same_text(path, "/windows") {
        Route::Asset(Asset::WindowsHtml)
    } else if same_text(path, "/getToken") {
        Route::GetToken
    } else if same_text(path, "/saveToken") {
        Route::SaveToken
    } else {
        Route::NotFound
    }
}

/// The route of a whole request: that of the text before its first `?`.
pub fn route_request(request: &str) -> (r: Route)
    ensures
        r == route_of_request(request@),
{
    route(first_segment(request))
}

/// The route for what a client sent. Where no request could be read from it
/// (`None`), the client has made a bad request; otherwise the path of the
/// request decides.
pub fn route_client(request: Option<&str>) -> (r: Route)
    ensures
        r == route_of_client(
            match request {
                Some(text) => Some(text@),
                None => None,
            },
        ),
        request is None ==> r == Route::BadRequest,
{
    match request {
        Some(text) => route_request(text),
        None => Route::BadRequest,
    }
}

/// The token that a save request carries: the text from byte `TOKEN_OFFSET`
/// of the request on. There is none when the request is shorter than that,
/// or when that byte lies inside a character.
pub fn saved_token(request: &str) -> (token: Option<&str>)
    ensures
        token is Some <==> has_token(request@),
        token matches Some(text) ==> text@ == token_of(request@),
{
    if request.is_char_boundary(TOKEN_OFFSET) {
        let (_, text) = request.split_at(TOKEN_OFFSET);
        proof {
            encode_utf8_decode_utf8(text@);
        }
        Some(text)
    } else {
        None
    }
}

} // verus!
