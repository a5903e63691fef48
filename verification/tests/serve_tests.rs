use liveserve::paths::{resolve_request, with_index_file};
use liveserve::serve::{
    bytes_eq, cache_control_value, find_first, inject_before_body_close, is_html_path,
    not_found_text, response_body, script_block,
};

#[test]
fn injection_before_single_close_tag() {
    let doc = b"<html><body>Hi</body></html>";
    let block = script_block(b"reload()");
    let out = inject_before_body_close(doc, &block);
    assert_eq!(
        out,
        b"<html><body>Hi<script>reload()</script></body></html>".to_vec()
    );
}

#[test]
fn injection_appends_without_close_tag() {
    let out = inject_before_body_close(b"<p>x</p>", b"<script>s</script>");
    assert_eq!(out, b"<p>x</p><script>s</script>".to_vec());
}

#[test]
fn injection_before_first_of_two_close_tags() {
    let out = inject_before_body_close(b"a</body>b</body>", b"X");
    assert_eq!(out, b"aX</body>b</body>".to_vec());
}

#[test]
fn injection_into_empty_document() {
    assert_eq!(inject_before_body_close(b"", b"X"), b"X".to_vec());
}

#[test]
fn script_block_wraps_code() {
    assert_eq!(script_block(b"s();"), b"<script>s();</script>".to_vec());
}

#[test]
fn non_html_passthrough() {
    let doc = b"\x00\x01</body>\x02";
    assert_eq!(response_body(doc, false, b"X"), doc.to_vec());
}

#[test]
fn html_response_body_injected() {
    assert_eq!(response_body(b"a</body>", true, b"X"), b"aX</body>".to_vec());
}

#[test]
fn find_first_takes_earliest() {
    assert_eq!(find_first(b"abcabc", b"bc"), Some(1));
    assert_eq!(find_first(b"abc", b"abc"), Some(0));
    assert_eq!(find_first(b"abc", b"zz"), None);
    assert_eq!(find_first(b"ab", b"abc"), None);
}

#[test]
fn html_paths_detected() {
    assert!(is_html_path(b"/site/index.html"));
    assert!(is_html_path(b"page.htm"));
}

#[test]
fn non_html_paths_not_detected() {
    assert!(!is_html_path(b"logo.png"));
    assert!(!is_html_path(b"noextension"));
    assert!(!is_html_path(b"style.css"));
}

#[test]
fn cache_header_value() {
    assert_eq!(cache_control_value(), "no-cache, no-store, must-revalidate");
}

#[test]
fn not_found_body_text() {
    assert_eq!(not_found_text(), "404: Page not found.");
}

#[test]
fn bytes_eq_decides_equality() {
    assert!(bytes_eq(b"ab", b"ab"));
    assert!(!bytes_eq(b"ab", b"ac"));
    assert!(!bytes_eq(b"ab", b"abc"));
    assert!(bytes_eq(b"", b""));
}

#[test]
fn scenario_site_root_request() {
    // GET / against root /site: the empty request path resolves to the
    // root, a directory, so the index file is appended.
    let mut path = resolve_request(b"/site", b"").unwrap();
    with_index_file(&mut path);
    assert_eq!(path, b"/site/index.html".to_vec());
    assert!(is_html_path(&path));
    let doc = b"<html><body>Hi</body></html>";
    let block = script_block(b"reload()");
    let body = response_body(doc, true, &block);
    let expected: &[u8] = b"<html><body>Hi<script>reload()</script></body></html>";
    assert_eq!(body, expected.to_vec());
    assert!(body.ends_with(b"Hi<script>reload()</script></body></html>"));
    assert_eq!(cache_control_value(), "no-cache, no-store, must-revalidate");
    // GET /../etc/passwd is answered "not found".
    assert!(resolve_request(b"/site", b"../etc/passwd").is_none());
}
