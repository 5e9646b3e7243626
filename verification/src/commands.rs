//! The commands the GUI layer can invoke, as request plans.
//!
//! Each command maps its string arguments to the one [`OutboundRequest`]
//! it performs. Planning is the whole of a command's own logic: the I/O
//! layer executes the plan verbatim and reports a
//! [`crate::outcome::TransferOutcome`], which [`crate::outcome::settle`]
//! folds into the caller's result. Only the metadata fetch carries a
//! deadline; the upload and job commands leave the transport unbounded,
//! an asymmetry of the design that is preserved, not repaired.

use vstd::prelude::*;
use vstd::string::StringExecFns;
use crate::media_type::{guess_media_type, media_type_guess};
use crate::outcome::{settled, OutcomeModel};
use crate::paths::{file_name_of, file_name_spec};
use crate::request::{
    bearer_auth, bearer_auth_value, token_auth, token_auth_value, BodyModel, Method,
    OutboundRequest, RequestBody, RequestModel,
};

verus! {

/// The fixed speech-to-text submission endpoint of the first vendor.
pub open spec fn deepgram_listen_url() -> Seq<char> {
    "https://api.deepgram.com/v1/listen?smart_format=true&punctuate=true&diarize=true&language=en&model=nova-2"@
}

/// The fixed job-submission endpoint of the second vendor.
pub open spec fn rev_jobs_url() -> Seq<char> {
    "https://api.rev.ai/speechtotext/v1/jobs"@
}

/// The status endpoint for the job called `id`.
pub open spec fn rev_job_url(id: Seq<char>) -> Seq<char> {
    "https://api.rev.ai/speechtotext/v1/jobs/"@ + id
}

/// The transcript endpoint for the job called `id`.
pub open spec fn rev_transcript_url(id: Seq<char>) -> Seq<char> {
    rev_job_url(id) + "/transcript"@
}

/// The plan of the metadata fetch: a bare GET of the caller's URL, bounded
/// by five seconds.
pub open spec fn get_meta_plan(url: Seq<char>) -> RequestModel {
    RequestModel {
        method: Method::Get,
        url: url,
        headers: Seq::empty(),
        body: BodyModel::Empty,
        timeout_ms: Some(5000u64),
    }
}

/// The plan of the raw-body upload: POST the file's bytes to the fixed
/// submission endpoint under a token-style authorization, with no
/// deadline.
pub open spec fn upload_dg_plan(path: Seq<char>, key: Seq<char>) -> RequestModel {
    RequestModel {
        method: Method::Post,
        url: deepgram_listen_url(),
        headers: seq![("Authorization"@, token_auth_value(key))],
        body: BodyModel::FileContents { path: path },
        timeout_ms: None,
    }
}

/// The plan of the multipart upload, or its refusal: a path that carries
/// no file name or no recognized media type is turned away with
/// `file path error` before any file or network work; otherwise the file
/// streams as the one form part, named `media`, under a bearer-style
/// authorization, with no deadline.
pub open spec fn upload_rev_plan(path: Seq<char>, key: Seq<char>) -> Result<
    RequestModel,
    Seq<char>,
> {
    if file_name_spec(path) is None || media_type_guess(path) is None {
        Err("file path error"@)
    } else {
        Ok(
            RequestModel {
                method: Method::Post,
                url: rev_jobs_url(),
                headers: seq![("Authorization"@, bearer_auth_value(key))],
                body: BodyModel::MultipartFile {
                    field: "media"@,
                    file_name: file_name_spec(path)->Some_0,
                    media_type: media_type_guess(path)->Some_0,
                    path: path,
                },
                timeout_ms: None,
            },
        )
    }
}

/// The plan of the job-status poll: GET the job's status endpoint under a
/// bearer-style authorization, with no deadline.
pub open spec fn check_rev_plan(id: Seq<char>, key: Seq<char>) -> RequestModel {
    RequestModel {
        method: Method::Get,
        url: rev_job_url(id),
        headers: seq![("Authorization"@, bearer_auth_value(key))],
        body: BodyModel::Empty,
        timeout_ms: None,
    }
}

/// The plan of the transcript fetch: GET the job's transcript endpoint,
/// asking for plain text, under a bearer-style authorization, with no
/// deadline.
pub open spec fn transcript_rev_plan(id: Seq<char>, key: Seq<char>) -> RequestModel {
    RequestModel {
        method: Method::Get,
        url: rev_transcript_url(id),
        headers: seq![("Authorization"@, bearer_auth_value(key)), ("Accept"@, "text/plain"@)],
        body: BodyModel::Empty,
        timeout_ms: None,
    }
}

/// Plan the metadata fetch for `url`.
pub fn get_meta_request(url: &str) -> (r: OutboundRequest)
    ensures
        r@ == get_meta_plan(url@),
{
    let r = OutboundRequest {
        method: Method::Get,
        url: url.to_owned(),
        headers: Vec::new(),
        body: RequestBody::Empty,
        timeout_ms: Some(5000),
    };
    proof {
        assert(r@ =~~= get_meta_plan(url@));
    }
    r
}

/// Plan the raw-body upload of the file at `path` under the credential
/// `key`.
pub fn upload_dg_request(path: &str, key: &str) -> (r: OutboundRequest)
    ensures
        r@ == upload_dg_plan(path@, key@),
{
    let mut headers: Vec<(String, String)> = Vec::new();
    headers.push((("Authorization").to_owned(), token_auth(key)));
    let r = OutboundRequest {
        method: Method::Post,
        url: (
        "https://api.deepgram.com/v1/listen?smart_format=true&punctuate=true&diarize=true&language=en&model=nova-2"
        ).to_owned(),
        headers,
        body: RequestBody::FileContents { path: path.to_owned() },
        timeout_ms: None,
    };
    proof {
        assert(r@ =~~= upload_dg_plan(path@, key@));
    }
    r
}

/// Plan the multipart upload of the file at `path` under the credential
/// `key`, or refuse it with `file path error` when the path carries no
/// file name or no recognized media type.
pub fn upload_rev_request(path: &str, key: &str) -> (r: Result<OutboundRequest, String>)
    ensures
        r is Ok <==> upload_rev_plan(path@, key@) is Ok,
        r matches Ok(req) ==> Ok::<RequestModel, Seq<char>>(req@) == upload_rev_plan(path@, key@),
        r matches Err(m) ==> Err::<RequestModel, Seq<char>>(m@) == upload_rev_plan(path@, key@),
{
    let file_name_opt = file_name_of(path);
    let media_type_opt = guess_media_type(path);
    if file_name_opt.is_none() || media_type_opt.is_none() {
        return Err(("file path error").to_owned());
    }
    let file_name = file_name_opt.unwrap();
    let media_type = media_type_opt.unwrap();
    let mut headers: Vec<(String, String)> = Vec::new();
    headers.push((("Authorization").to_owned(), bearer_auth(key)));
    let req = OutboundRequest {
        method: Method::Post,
        url: ("https://api.rev.ai/speechtotext/v1/jobs").to_owned(),
        headers,
        body: RequestBody::MultipartFile {
            field: ("media").to_owned(),
            file_name,
            media_type,
            path: path.to_owned(),
        },
        timeout_ms: None,
    };
    proof {
        assert(req@ =~~= upload_rev_plan(path@, key@)->Ok_0);
    }
    Ok(req)
}

/// Plan the status poll for the job called `id` under the credential
/// `key`.
pub fn check_rev_request(id: &str, key: &str) -> (r: OutboundRequest)
    ensures
        r@ == check_rev_plan(id@, key@),
{
    let mut url = ("https://api.rev.ai/speechtotext/v1/jobs/").to_owned();
    url.append(id);
    let mut headers: Vec<(String, String)> = Vec::new();
    headers.push((("Authorization").to_owned(), bearer_auth(key)));
    let r = OutboundRequest {
        method: Method::Get,
        url,
        headers,
        body: RequestBody::Empty,
        timeout_ms: None,
    };
    proof {
        assert(r@ =~~= check_rev_plan(id@, key@));
    }
    r
}

/// Plan the transcript fetch for the job called `id` under the credential
/// `key`.
pub fn transcript_rev_request(id: &str, key: &str) -> (r: OutboundRequest)
    ensures
        r@ == transcript_rev_plan(id@, key@),
{
    let mut url = ("https://api.rev.ai/speechtotext/v1/jobs/").to_owned();
    url.append(id);
    url.append("/transcript");
    let mut headers: Vec<(String, String)> = Vec::new();
    headers.push((("Authorization").to_owned(), bearer_auth(key)));
    headers.push((("Accept").to_owned(), ("text/plain").to_owned()));
    let r = OutboundRequest {
        method: Method::Get,
        url,
        headers,
        body: RequestBody::Empty,
        timeout_ms: None,
    };
    proof {
        assert(r@ =~~= transcript_rev_plan(id@, key@));
    }
    r
}

/// The result of one whole multipart-upload command, as a function of the
/// arguments and of however the transfer then went: a refused plan is
/// itself the result, untouched by anything the transport might report.
pub open spec fn upload_rev_result(
    path: Seq<char>,
    key: Seq<char>,
    transfer: OutcomeModel,
) -> Result<Seq<char>, Seq<char>> {
    match upload_rev_plan(path, key) {
        Err(m) => Err(m),
        Ok(_) => settled(transfer),
    }
}

/// A completed transaction's body is handed back verbatim as the success
/// value; nothing else about the response — in particular no status code —
/// takes part in the answer.
pub proof fn lemma_completed_body_verbatim(body: Seq<char>)
    ensures
        settled(OutcomeModel::Completed { body }) == Ok::<Seq<char>, Seq<char>>(body),
{
}

/// Only the metadata fetch carries a deadline — five seconds — while the
/// upload and job commands leave the transport unbounded.
pub proof fn lemma_timeout_asymmetry(
    url: Seq<char>,
    path: Seq<char>,
    id: Seq<char>,
    key: Seq<char>,
)
    ensures
        get_meta_plan(url).timeout_ms == Some(5000u64),
        upload_dg_plan(path, key).timeout_ms is None,
        upload_rev_plan(path, key) matches Ok(m) ==> m.timeout_ms is None,
        check_rev_plan(id, key).timeout_ms is None,
        transcript_rev_plan(id, key).timeout_ms is None,
{
}

/// A path that yields no file name or no recognized media type is refused
/// with exactly `file path error`, and those are the only refusals the
/// planner makes.
pub proof fn lemma_bad_path_refused(path: Seq<char>, key: Seq<char>)
    ensures
        (file_name_spec(path) is None || media_type_guess(path) is None) <==> upload_rev_plan(
            path,
            key,
        ) == Err::<RequestModel, Seq<char>>("file path error"@),
        upload_rev_plan(path, key) is Err ==> upload_rev_plan(path, key) == Err::<
            RequestModel,
            Seq<char>,
        >("file path error"@),
{
}

/// When the planner refuses a path, the command's result is that refusal,
/// whatever any transfer might have reported: no transaction takes part in
/// the answer.
pub proof fn lemma_refused_plan_ignores_transfer(
    path: Seq<char>,
    key: Seq<char>,
    o1: OutcomeModel,
    o2: OutcomeModel,
)
    ensures
        upload_rev_plan(path, key) is Err ==> upload_rev_result(path, key, o1)
            == upload_rev_result(path, key, o2),
        upload_rev_plan(path, key) matches Err(m) ==> upload_rev_result(path, key, o1) == Err::<
            Seq<char>,
            Seq<char>,
        >(m),
{
}

/// The transcript fetch always asks for plain text: its header list
/// carries `Accept: text/plain` alongside the bearer authorization.
pub proof fn lemma_transcript_asks_plain_text(id: Seq<char>, key: Seq<char>)
    ensures
        exists|i: int|
            0 <= i < transcript_rev_plan(id, key).headers.len() && transcript_rev_plan(
                id,
                key,
            ).headers[i] == ("Accept"@, "text/plain"@),
{
    assert(transcript_rev_plan(id, key).headers[1] == ("Accept"@, "text/plain"@));
}

} // verus!

