//! Requests in a row.
//!
//! The server itself keeps nothing between two requests: what lasts is the
//! token file. This module says what a run of requests leaves in that file
//! and what each of them is answered, for files that behave: the token file
//! gives back the text that was last written to it, and an asset that is
//! there is read whole.
//!
//! What a client sent is either a request or nothing that could be read as
//! one (`None`).

use vstd::prelude::*;
use crate::asset::{missing_asset_reason, Asset};
use crate::request::{
    asset_at, has_token, path_of, route_of_client, route_of_request, token_of, Route,
};
use crate::response::{
    asset_answer, bad_request_answer, failed_text, not_found_answer, save_answer, saved_text,
    status_line_of, token_answer, Answer, Status,
};

verus! {

/// The files around the server: the text in the token file, and the content
/// of each asset that is there.
pub struct Files {
    pub token: Seq<char>,
    pub assets: Map<Asset, Seq<char>>,
}

/// The files of a first run: the token file is there and empty.
pub open spec fn fresh(assets: Map<Asset, Seq<char>>) -> Files {
    Files { token: Seq::empty(), assets }
}

/// True when what the client sent saves a token: it is a request to save
/// one, and it carries one.
pub open spec fn saves(request: Option<Seq<char>>) -> bool {
    match request {
        Some(text) => route_of_request(text) == Route::SaveToken && has_token(text),
        None => false,
    }
}

/// What reading an asset gives: its content, or the reason why it is missing.
pub open spec fn loaded(files: Files, asset: Asset) -> Result<Seq<char>, Seq<char>> {
    if files.assets.contains_key(asset) {
        Ok(files.assets[asset])
    } else {
        Err(missing_asset_reason())
    }
}

/// The answer to what one client sent. A request to save a token that
/// carries none is answered with the word for a failure.
pub open spec fn answer_to(files: Files, request: Option<Seq<char>>) -> Answer {
    match route_of_client(request) {
        Route::Asset(asset) => asset_answer(loaded(files, asset)),
        Route::GetToken => token_answer(Some(files.token)),
        Route::SaveToken => save_answer(saves(request)),
        Route::NotFound => not_found_answer(),
        Route::BadRequest => bad_request_answer(),
    }
}

/// The files after one client: a request that saves a token puts its token
/// in the place of the old one, and nothing else changes anything.
pub open spec fn files_after(files: Files, request: Option<Seq<char>>) -> Files {
    match request {
        Some(text) if saves(request) => Files { token: token_of(text), assets: files.assets },
        _ => files,
    }
}

/// The files after a run of clients, served one after the other.
pub open spec fn files_after_all(files: Files, requests: Seq<Option<Seq<char>>>) -> Files
    decreases requests.len(),
{
    if requests.len() == 0 {
        files
    } else {
        files_after(files_after_all(files, requests.drop_last()), requests.last())
    }
}

/// The place, in a run of clients, of the last one that saves a token, if
/// any of them does.
pub open spec fn last_save(requests: Seq<Option<Seq<char>>>) -> Option<int>
    decreases requests.len(),
{
    if requests.len() == 0 {
        None
    } else if saves(requests.last()) {
        Some(requests.len() - 1)
    } else {
        last_save(requests.drop_last())
    }
}

/// A request for one of the static paths is answered with the content of the
/// asset that the path names, character for character, whatever query
/// follows the path.
pub proof fn lemma_static_path_gives_asset(files: Files, request: Seq<char>, asset: Asset)
    requires
        asset_at(path_of(request)) == Some(asset),
        files.assets.contains_key(asset),
    ensures
        answer_to(files, Some(request)) == (Answer {
            status: Status::Success,
            body: files.assets[asset],
        }),
        files_after(files, Some(request)) == files,
{
}

/// A request for a path that is neither a static path nor one of the two
/// token paths is answered with the status for what is not found, and with a
/// body that is not empty.
pub proof fn lemma_unknown_path_is_not_found(files: Files, request: Seq<char>)
    requires
        asset_at(path_of(request)) is None,
        path_of(request) != "/getToken"@,
        path_of(request) != "/saveToken"@,
    ensures
        answer_to(files, Some(request)).status == Status::NotFound,
        status_line_of(answer_to(files, Some(request)).status) == "404 Not Found"@,
        answer_to(files, Some(request)).body.len() > 0,
        files_after(files, Some(request)) == files,
{
    reveal_strlit("No resource found");
}

/// A client from whose words no path could be read is answered with the
/// status for a bad request, and with nothing else: no asset and no token is
/// handed out, nothing is saved, and the body is not the word for a save.
pub proof fn lemma_missing_path_is_bad_request(files: Files)
    ensures
        route_of_client(None) == Route::BadRequest,
        answer_to(files, None) == bad_request_answer(),
        answer_to(files, None).status == Status::BadRequest,
        status_line_of(answer_to(files, None).status) == "400 Bad Request"@,
        answer_to(files, None).body != saved_text(),
        files_after(files, None) == files,
{
    reveal_strlit("Bad request");
    reveal_strlit("saved");
    assert(bad_request_answer().body.len() == 11);
    assert(saved_text().len() == 5);
}

/// Only a client that sent nothing readable is told of a bad request: every
/// request has a path, which leads to another route.
pub proof fn lemma_bad_request_means_no_request(request: Option<Seq<char>>)
    ensures
        route_of_client(request) == Route::BadRequest <==> request is None,
{
}

/// A token that was saved is what the next request for the token is answered
/// with, exactly.
pub proof fn lemma_saved_token_is_read_back(files: Files, save: Seq<char>, get: Seq<char>)
    requires
        route_of_request(save) == Route::SaveToken,
        has_token(save),
        route_of_request(get) == Route::GetToken,
    ensures
        answer_to(files, Some(save)) == (Answer { status: Status::Success, body: saved_text() }),
        answer_to(files_after(files, Some(save)), Some(get)) == (Answer {
            status: Status::Success,
            body: token_of(save),
        }),
{
}

/// A request to save a token that carries none is told of the failure, and
/// the token file stays as it was.
pub proof fn lemma_save_without_token_fails(files: Files, save: Seq<char>)
    requires
        route_of_request(save) == Route::SaveToken,
        !has_token(save),
    ensures
        answer_to(files, Some(save)) == (Answer { status: Status::Success, body: failed_text() }),
        files_after(files, Some(save)) == files,
{
}

/// Before any token was saved, a request for the token is answered with the
/// empty text of the fresh token file, and not with the word for a failure.
pub proof fn lemma_fresh_token_is_empty(assets: Map<Asset, Seq<char>>, get: Seq<char>)
    requires
        route_of_request(get) == Route::GetToken,
    ensures
        answer_to(fresh(assets), Some(get)) == (Answer {
            status: Status::Success,
            body: Seq::<char>::empty(),
        }),
        answer_to(fresh(assets), Some(get)).body != failed_text(),
{
    reveal_strlit("failed");
    assert(failed_text().len() == 6);
}

/// `last_save` finds a client that saves a token, none that saves one comes
/// after it, and where it finds nothing no client of the run saves one.
pub proof fn lemma_last_save(requests: Seq<Option<Seq<char>>>)
    ensures
        match last_save(requests) {
            Some(i) => {
                &&& 0 <= i < requests.len()
                &&& saves(requests[i])
                &&& forall|j: int| i < j < requests.len() ==> !saves(#[trigger] requests[j])
            },
            None => forall|j: int| 0 <= j < requests.len() ==> !saves(#[trigger] requests[j]),
        },
    decreases requests.len(),
{
    if requests.len() > 0 && !saves(requests.last()) {
        let earlier = requests.drop_last();
        lemma_last_save(earlier);
        assert forall|j: int| 0 <= j < requests.len() - 1 implies requests[j] == earlier[j] by {}
    }
}

/// After a run of clients that ends with one that saves a token, the token
/// file holds the token of that last request and nothing else, whatever was
/// saved or asked before.
pub proof fn lemma_last_save_wins(files: Files, requests: Seq<Option<Seq<char>>>)
    requires
        requests.len() > 0,
        saves(requests.last()),
    ensures
        files_after_all(files, requests).token == token_of(requests.last()->0),
{
}

/// The token file never holds a mixture: after any run of clients its text
/// is the token of the last request of the run that saved one, or, where
/// none did, the text that it held before.
pub proof fn lemma_token_is_from_last_save(files: Files, requests: Seq<Option<Seq<char>>>)
    ensures
        files_after_all(files, requests).token == match last_save(requests) {
            Some(i) => token_of(requests[i]->0),
            None => files.token,
        },
    decreases requests.len(),
{
    if requests.len() > 0 && !saves(requests.last()) {
        let earlier = requests.drop_last();
        lemma_token_is_from_last_save(files, earlier);
        lemma_last_save(earlier);
    }
}

/// No client changes an asset.
pub proof fn lemma_assets_stay(files: Files, requests: Seq<Option<Seq<char>>>)
    ensures
        files_after_all(files, requests).assets == files.assets,
    decreases requests.len(),
{
    if requests.len() > 0 {
        lemma_assets_stay(files, requests.drop_last());
    }
}

} // verus!
