use transcriber::commands::{
    check_rev_request, get_meta_request, transcript_rev_request, upload_dg_request,
    upload_rev_request,
};
use transcriber::request::{Method, RequestBody};

#[test]
fn meta_fetch_is_a_bounded_bare_get() {
    let req = get_meta_request("https://example.com/page");
    assert_eq!(req.method, Method::Get);
    assert_eq!(req.url, "https://example.com/page");
    assert!(req.headers.is_empty());
    assert!(matches!(req.body, RequestBody::Empty));
    assert_eq!(req.timeout_ms, Some(5000));
}

#[test]
fn raw_upload_posts_the_file_with_token_auth() {
    let req = upload_dg_request("audio/clip.wav", "k123");
    assert_eq!(req.method, Method::Post);
    assert_eq!(
        req.url,
        "https://api.deepgram.com/v1/listen?smart_format=true&punctuate=true&diarize=true&language=en&model=nova-2"
    );
    assert_eq!(req.headers, vec![("Authorization".to_string(), "Token k123".to_string())]);
    match req.body {
        RequestBody::FileContents { path } => assert_eq!(path, "audio/clip.wav"),
        _ => panic!("the raw upload must stream the file as the whole body"),
    }
    assert_eq!(req.timeout_ms, None);
}

#[test]
fn multipart_upload_carries_name_and_media_type() {
    let req = upload_rev_request("dir/clip.mp3", "secret")
        .expect("a recognized audio file is accepted");
    assert_eq!(req.method, Method::Post);
    assert_eq!(req.url, "https://api.rev.ai/speechtotext/v1/jobs");
    assert_eq!(req.headers, vec![("Authorization".to_string(), "Bearer secret".to_string())]);
    match req.body {
        RequestBody::MultipartFile { field, file_name, media_type, path } => {
            assert_eq!(field, "media");
            assert_eq!(file_name, "clip.mp3");
            assert_eq!(media_type, "audio/mpeg");
            assert_eq!(path, "dir/clip.mp3");
        }
        _ => panic!("the multipart upload must stream the file as one form part"),
    }
    assert_eq!(req.timeout_ms, None);
}

#[test]
fn unrecognized_extension_is_refused() {
    match upload_rev_request("notes.zz9q", "k") {
        Err(m) => assert_eq!(m, "file path error"),
        Ok(_) => panic!("an unrecognized extension must be refused"),
    }
}

#[test]
fn missing_file_name_is_refused() {
    match upload_rev_request("audio/", "k") {
        Err(m) => assert_eq!(m, "file path error"),
        Ok(_) => panic!("a path without a final segment must be refused"),
    }
    match upload_rev_request("", "k") {
        Err(m) => assert_eq!(m, "file path error"),
        Ok(_) => panic!("an empty path must be refused"),
    }
}

#[test]
fn status_poll_targets_the_job_url() {
    let req = check_rev_request("JOB42", "k");
    assert_eq!(req.method, Method::Get);
    assert_eq!(req.url, "https://api.rev.ai/speechtotext/v1/jobs/JOB42");
    assert_eq!(req.headers, vec![("Authorization".to_string(), "Bearer k".to_string())]);
    assert!(matches!(req.body, RequestBody::Empty));
    assert_eq!(req.timeout_ms, None);
}

#[test]
fn transcript_fetch_asks_for_plain_text() {
    let req = transcript_rev_request("JOB42", "k");
    assert_eq!(req.method, Method::Get);
    assert_eq!(req.url, "https://api.rev.ai/speechtotext/v1/jobs/JOB42/transcript");
    assert_eq!(req.headers[0], ("Authorization".to_string(), "Bearer k".to_string()));
    assert!(req.headers.contains(&("Accept".to_string(), "text/plain".to_string())));
    assert!(matches!(req.body, RequestBody::Empty));
    assert_eq!(req.timeout_ms, None);
}
