use http_visualizer_app::error::{AppError, RequestFailure};
use http_visualizer_app::routes::static_files::{
    answer_with, asset_candidates, pick_asset, serve_static,
};

fn names(list: &[&str]) -> Vec<String> {
    list.iter().map(|name| name.to_string()).collect()
}

#[test]
fn file_paths_are_tried_as_they_are() {
    assert_eq!(
        asset_candidates("/assets/app.js"),
        names(&["assets/app.js", "assets/app.js.html", "assets/app.js/index.html", "index.html"])
    );
}

#[test]
fn page_paths_fall_back_to_the_index() {
    assert_eq!(
        asset_candidates("/about"),
        names(&["about", "index.html", "about.html", "about/index.html", "index.html"])
    );
    assert_eq!(
        asset_candidates("/"),
        names(&["", "index.html", ".html", "/index.html", "index.html"])
    );
    assert_eq!(
        asset_candidates(""),
        names(&["", "index.html", ".html", "/index.html", "index.html"])
    );
}

#[test]
fn only_leading_slashes_are_taken_off() {
    assert_eq!(asset_candidates("///a/b/")[0], "a/b/");
    assert_eq!(asset_candidates("a//b")[0], "a//b");
    assert_eq!(asset_candidates("//")[0], "");
}

#[test]
fn first_candidate_that_exists_is_picked() {
    let available = names(&["index.html", "about.html", "assets/app.js", "docs/index.html"]);
    assert_eq!(pick_asset("/assets/app.js", &available).as_deref(), Some("assets/app.js"));
    // A page is answered by the index before its own document is tried.
    assert_eq!(pick_asset("/about", &available).as_deref(), Some("index.html"));
    assert_eq!(pick_asset("/docs", &available).as_deref(), Some("index.html"));
    assert_eq!(pick_asset("/missing.png", &available).as_deref(), Some("index.html"));
    assert_eq!(pick_asset("/", &available).as_deref(), Some("index.html"));

    let without_index = names(&["about.html", "docs/index.html", "v1.2/index.html", "a.b.html"]);
    assert_eq!(pick_asset("/about", &without_index).as_deref(), Some("about.html"));
    assert_eq!(pick_asset("/docs", &without_index).as_deref(), Some("docs/index.html"));
    assert_eq!(pick_asset("/v1.2", &without_index).as_deref(), Some("v1.2/index.html"));
    assert_eq!(pick_asset("/a.b", &without_index).as_deref(), Some("a.b.html"));

    assert_eq!(pick_asset("/gone", &without_index), None);
    assert_eq!(pick_asset("/", &Vec::new()), None);
}

#[test]
fn assets_are_answered_with_their_media_type() {
    let available = names(&["index.html", "assets/app.js", "logo.png", "data.unknownext"]);
    let answer = serve_static("/assets/app.js", &available).unwrap();
    assert_eq!(answer.name, "assets/app.js");
    assert!(answer.content_type.contains("javascript"), "{}", answer.content_type);
    assert_eq!(answer.cache_control, "public, max-age=31536000, immutable");

    let answer = serve_static("/logo.png", &available).unwrap();
    assert_eq!(answer.content_type, "image/png");
    let answer = serve_static("/somewhere", &available).unwrap();
    assert_eq!(answer.name, "index.html");
    assert_eq!(answer.content_type, "text/html");
    let answer = serve_static("/data.unknownext", &available).unwrap();
    assert_eq!(answer.content_type, "application/octet-stream");

    assert!(serve_static("/x", &Vec::new()).is_none());

    let answer = answer_with("a".to_string(), "b/c".to_string());
    assert_eq!(answer.name, "a");
    assert_eq!(answer.content_type, "b/c");
    assert_eq!(answer.cache_control, "public, max-age=31536000, immutable");
}

#[test]
fn failed_requests_are_classified() {
    assert_eq!(RequestFailure::classify(true, true, true), RequestFailure::Timeout);
    assert_eq!(RequestFailure::classify(true, false, false), RequestFailure::Timeout);
    assert_eq!(RequestFailure::classify(false, true, true), RequestFailure::Connect);
    assert_eq!(RequestFailure::classify(false, false, true), RequestFailure::Request);
    assert_eq!(RequestFailure::classify(false, false, false), RequestFailure::Other);
}

#[test]
fn server_errors_have_status_code_and_message() {
    let failed = |failure| AppError::RequestFailed { failure, detail: "boom".to_string() };
    let error = failed(RequestFailure::Timeout);
    assert_eq!((error.status(), error.code()), (502, "TIMEOUT"));
    assert_eq!(error.message(), "Request failed: boom");
    assert_eq!(failed(RequestFailure::Connect).code(), "CONNECTION_FAILED");
    assert_eq!(failed(RequestFailure::Request).code(), "REQUEST_ERROR");
    assert_eq!(failed(RequestFailure::Other).code(), "REQUEST_FAILED");
    assert_eq!(failed(RequestFailure::Other).status(), 502);

    let error = AppError::InvalidUrl("x y".to_string());
    assert_eq!((error.status(), error.code()), (400, "INVALID_URL"));
    assert_eq!(error.message(), "Invalid URL: x y");
    let error = AppError::Timeout("30s".to_string());
    assert_eq!((error.status(), error.code()), (504, "TIMEOUT"));
    assert_eq!(error.message(), "Timeout: 30s");
    let error = AppError::Internal("oops".to_string());
    assert_eq!((error.status(), error.code()), (500, "INTERNAL_ERROR"));
    assert_eq!(error.message(), "Internal error: oops");
}
