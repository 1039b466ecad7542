use tts_api_server::dispatch::{handle_request, immediate_response};
use tts_api_server::http::{Method, Payload};
use tts_api_server::routing::{normalize_path, route, route_get, Route};

fn id_of(r: &Route) -> Option<String> {
    match r {
        Route::Retrieve { id }
        | Route::RetrieveContent { id }
        | Route::Download { id }
        | Route::Delete { id } => Some(id.clone()),
        _ => None,
    }
}

#[test]
fn download_path_is_not_plain_retrieve() {
    let r = route(Method::Get, "/v1/files/download/file_abc");
    assert!(matches!(r, Route::Download { .. }));
    assert_eq!(id_of(&r), Some("file_abc".to_string()));
}

#[test]
fn content_path_is_not_plain_retrieve() {
    let r = route(Method::Get, "/v1/files/file_abc/content");
    assert!(matches!(r, Route::RetrieveContent { .. }));
    assert_eq!(id_of(&r), Some("file_abc".to_string()));
}

#[test]
fn plain_retrieve_path() {
    let r = route(Method::Get, "/v1/files/file_abc");
    assert!(matches!(r, Route::Retrieve { .. }));
    assert_eq!(id_of(&r), Some("file_abc".to_string()));
}

#[test]
fn retrieve_needs_file_prefix() {
    match route(Method::Get, "/v1/files/abc") {
        Route::UnsupportedPath { path } => assert_eq!(path, "/v1/files/abc"),
        other => panic!("unexpected route {:?}", other),
    }
    assert!(matches!(
        route(Method::Get, "/v1/files/abc/content"),
        Route::UnsupportedPath { .. }
    ));
}

#[test]
fn path_is_trimmed_and_lowercased() {
    assert_eq!(normalize_path("/V1/Files/FILE_ABC//"), "/v1/files/file_abc");
    let r = route(Method::Get, "/v1/files/FILE_Abc/");
    assert!(matches!(r, Route::Retrieve { .. }));
    assert_eq!(id_of(&r), Some("file_abc".to_string()));
    assert!(matches!(route(Method::Get, "/v1/files/"), Route::List));
    assert!(matches!(route(Method::Get, "/v1/files"), Route::List));
    assert!(matches!(route(Method::Get, "/V1/files/file_abc"), Route::NotFound { .. }));
}

#[test]
fn get_shapes_from_normalized_path() {
    assert!(matches!(route_get("/v1/files"), Route::List));
    assert!(matches!(route_get("/v1/files/a/b/c"), Route::UnsupportedPath { .. }));
    assert!(matches!(route_get("/v2/files"), Route::UnsupportedPath { .. }));
    assert!(matches!(route_get("/v1/files/download/content"), Route::UnsupportedPath { .. }));
}

#[test]
fn delete_takes_the_path_remainder() {
    let r = route(Method::Delete, "/v1/files/file_1");
    assert!(matches!(r, Route::Delete { .. }));
    assert_eq!(id_of(&r), Some("file_1".to_string()));
    let nested = route(Method::Delete, "/v1/files/file_1/extra");
    assert_eq!(id_of(&nested), Some("file_1/extra".to_string()));
    let doubled = route(Method::Delete, "/v1/files//v1/files/x");
    assert_eq!(id_of(&doubled), Some("/v1/files/x".to_string()));
    assert!(matches!(route(Method::Delete, "/v1/files"), Route::NotFound { .. }));
    assert!(matches!(route(Method::Delete, "/v1/files/"), Route::NotFound { .. }));
}

#[test]
fn post_routes() {
    assert!(matches!(route(Method::Post, "/v1/files"), Route::Upload));
    assert!(matches!(route(Method::Post, "/v1/audio/speech"), Route::Speech));
}

#[test]
fn unknown_routes_are_refused() {
    match route(Method::Get, "/v1/audio/speech") {
        Route::NotFound { path } => assert_eq!(path, "/v1/audio/speech"),
        other => panic!("unexpected route {:?}", other),
    }
    assert!(matches!(route(Method::Get, "/v2/models"), Route::NotFound { .. }));
    assert!(matches!(route(Method::Other, "/v1/files"), Route::UnsupportedMethod));
}

#[test]
fn options_is_preflight_anywhere() {
    assert!(matches!(route(Method::Options, "/v1/files"), Route::Preflight));
    assert!(matches!(route(Method::Options, "/nowhere"), Route::Preflight));
}

#[test]
fn options_files_answers_without_collaborator() {
    let (r, resp) = handle_request(Method::Options, "/v1/files");
    assert!(matches!(r, Route::Preflight));
    let resp = resp.expect("a pre-flight request is answered at once");
    assert_eq!(resp.status, 200);
    assert!(matches!(resp.body, Payload::Empty));
    let names: Vec<(String, String)> =
        resp.headers.iter().map(|h| (h.name.clone(), h.value.clone())).collect();
    for name in [
        "Access-Control-Allow-Origin",
        "Access-Control-Allow-Methods",
        "Access-Control-Allow-Headers",
    ] {
        assert!(names.contains(&(name.to_string(), "*".to_string())));
    }
}

#[test]
fn collaborator_routes_get_no_immediate_answer() {
    for (m, p) in [
        (Method::Get, "/v1/files"),
        (Method::Post, "/v1/files"),
        (Method::Post, "/v1/audio/speech"),
        (Method::Delete, "/v1/files/file_1"),
        (Method::Get, "/v1/files/download/file_1"),
    ] {
        let (_, resp) = handle_request(m, p);
        assert!(resp.is_none());
    }
}

#[test]
fn refusals_are_internal_errors() {
    let r = route(Method::Get, "/v1/files/abc");
    let resp = immediate_response(&r).expect("refused at once");
    assert_eq!(resp.status, 500);
    match resp.body {
        Payload::Text(t) => assert_eq!(t, "{\"message\":\"unsupported uri path: /v1/files/abc\"}"),
        _ => panic!("error bodies are text"),
    }
    let resp = immediate_response(&route(Method::Get, "/v2/x")).expect("refused at once");
    assert_eq!(resp.status, 500);
    match resp.body {
        Payload::Text(t) => assert_eq!(t, "{\"message\":\"route not found: /v2/x\"}"),
        _ => panic!("error bodies are text"),
    }
}
