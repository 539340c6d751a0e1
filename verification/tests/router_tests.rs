use http_horse::router::{
    index_candidates, method_not_allowed, not_found, path_contains, request_handler_project,
    request_handler_status, resolve_canonical, server_error, trim_leading_separators,
    ProjectRoute, ResolveDecision, StatusRoute, content_type_for, status_code_for, ok_response,
};

#[test]
fn post_is_method_not_allowed_on_both_servers() {
    assert_eq!(
        request_handler_status(b"POST", b"/"),
        StatusRoute::MethodNotAllowed
    );
    assert!(matches!(
        request_handler_project(b"POST", b"/"),
        ProjectRoute::MethodNotAllowed
    ));
    let parts = method_not_allowed();
    assert_eq!(parts.status, 405);
    assert_eq!(parts.allow, Some(b"GET".to_vec()));
    assert_eq!(parts.body, b"HTTP 405. Method not allowed.".to_vec());
    assert_eq!(parts.cache_control, b"no-store".to_vec());
}

#[test]
fn traversal_outside_the_root_is_not_found() {
    // GET /../../etc/passwd rooted at /tmp/proj: after canonicalization the
    // target is outside the root and must resolve to not-found.
    assert!(!path_contains(b"/tmp/proj", b"/etc/passwd"));
    assert_eq!(
        resolve_canonical(b"/tmp/proj", b"/etc/passwd", false),
        ResolveDecision::NotFound
    );
    let parts = not_found();
    assert_eq!(parts.status, 404);
    assert_eq!(parts.body, b"HTTP 404. File not found.".to_vec());
    assert_eq!(parts.cache_control, b"no-store".to_vec());
}

#[test]
fn sibling_directory_is_not_contained() {
    // A raw string prefix is not enough: /tmp/proj must not match
    // /tmp/proj-evil.
    assert!(!path_contains(b"/tmp/proj", b"/tmp/proj-evil/secret"));
    assert!(!path_contains(b"/tmp/proj", b"/tmp/proj2"));
    assert!(path_contains(b"/tmp/proj", b"/tmp/proj"));
    assert!(path_contains(b"/tmp/proj", b"/tmp/proj/docs/index.html"));
    assert!(!path_contains(b"/tmp/proj", b"/tmp"));
}

#[test]
fn directories_probe_index_files_in_order() {
    // GET /docs/ and GET /docs both resolve to the directory, which probes
    // index.htm then index.html, in that order.
    match request_handler_project(b"GET", b"/docs/") {
        ProjectRoute::Resolve(p) => assert_eq!(p, b"docs/".to_vec()),
        _ => panic!("expected a resolve route"),
    }
    match request_handler_project(b"GET", b"/docs") {
        ProjectRoute::Resolve(p) => assert_eq!(p, b"docs".to_vec()),
        _ => panic!("expected a resolve route"),
    }
    assert_eq!(
        resolve_canonical(b"/tmp/proj", b"/tmp/proj/docs", true),
        ResolveDecision::TryIndexFiles
    );
    let cands = index_candidates();
    assert_eq!(cands.len(), 2);
    assert_eq!(cands[0], b"index.htm".to_vec());
    assert_eq!(cands[1], b"index.html".to_vec());
    // A 200 around the file bytes is never cached.
    let ok = ok_response(b"text/html".to_vec(), b"<html></html>".to_vec());
    assert_eq!(ok.status, 200);
    assert_eq!(ok.cache_control, b"no-store".to_vec());
    assert_eq!(ok.body, b"<html></html>".to_vec());
}

#[test]
fn leading_separators_are_stripped() {
    assert_eq!(trim_leading_separators(b"///a/b"), b"a/b");
    assert_eq!(trim_leading_separators(b"a/b"), b"a/b");
    assert_eq!(trim_leading_separators(b"////"), b"");
    assert_eq!(trim_leading_separators(b""), b"");
    assert!(matches!(
        request_handler_project(b"GET", b"/"),
        ProjectRoute::RootDir
    ));
    assert!(matches!(
        request_handler_project(b"GET", b""),
        ProjectRoute::RootDir
    ));
}

#[test]
fn regular_file_target_is_served() {
    assert_eq!(
        resolve_canonical(b"/tmp/proj", b"/tmp/proj/a.txt", false),
        ResolveDecision::ServeFile
    );
}

#[test]
fn status_server_routing_table() {
    assert_eq!(request_handler_status(b"GET", b"/"), StatusRoute::IndexPage);
    assert_eq!(request_handler_status(b"GET", b""), StatusRoute::IndexPage);
    assert_eq!(
        request_handler_status(b"GET", b"/favicon.ico"),
        StatusRoute::Favicon
    );
    assert_eq!(
        request_handler_status(b"GET", b"/style/main.css"),
        StatusRoute::Stylesheet
    );
    assert_eq!(
        request_handler_status(b"GET", b"/js/main.js"),
        StatusRoute::Script
    );
    assert_eq!(
        request_handler_status(b"GET", b"/event-stream/"),
        StatusRoute::EventStream
    );
    assert_eq!(
        request_handler_status(b"GET", b"/event-stream"),
        StatusRoute::NotFound
    );
    assert_eq!(
        request_handler_status(b"GET", b"/whatever"),
        StatusRoute::NotFound
    );
    assert_eq!(
        request_handler_status(b"PUT", b"/style/main.css"),
        StatusRoute::MethodNotAllowed
    );
}

#[test]
fn status_route_codes_and_content_types() {
    assert_eq!(status_code_for(&StatusRoute::IndexPage), 200);
    assert_eq!(status_code_for(&StatusRoute::Favicon), 204);
    assert_eq!(status_code_for(&StatusRoute::NotFound), 404);
    assert_eq!(status_code_for(&StatusRoute::MethodNotAllowed), 405);
    assert_eq!(content_type_for(&StatusRoute::IndexPage), b"text/html".to_vec());
    assert_eq!(content_type_for(&StatusRoute::Favicon), b"image/x-icon".to_vec());
    assert_eq!(content_type_for(&StatusRoute::Stylesheet), b"text/css".to_vec());
    assert_eq!(content_type_for(&StatusRoute::Script), b"text/javascript".to_vec());
    assert_eq!(
        content_type_for(&StatusRoute::EventStream),
        b"text/event-stream".to_vec()
    );
}

#[test]
fn server_error_parts_are_fixed() {
    let parts = server_error();
    assert_eq!(parts.status, 500);
    assert_eq!(parts.content_type, b"text/plain".to_vec());
    assert_eq!(parts.body, b"HTTP 500. Internal server error.".to_vec());
    assert_eq!(parts.cache_control, b"no-store".to_vec());
    assert_eq!(parts.allow, None);
}
