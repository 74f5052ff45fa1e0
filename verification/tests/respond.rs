use grup::page::stylesheet;
use grup::respond::css_response;
use grup::respond::not_found_response;
use grup::respond::page_response;
use grup::respond::static_content_response;
use grup::respond::wake_response;

#[test]
fn not_found_is_an_empty_404() {
    let r = not_found_response();
    assert_eq!(r.status, 404);
    assert!(r.headers.is_empty());
    assert_eq!(r.body, "");
}

#[test]
fn wake_response_says_yes_with_cache_disabled() {
    let r = wake_response();
    assert_eq!(r.status, 200);
    assert_eq!(r.body, "yes");
    assert_eq!(r.headers.len(), 3);
    assert_eq!(r.headers[0].0, "Cache-Control");
    assert_eq!(r.headers[0].1, "no-cache, no-store, must-revalidate");
    assert_eq!(r.headers[1].0, "Pragma");
    assert_eq!(r.headers[1].1, "no-cache");
    assert_eq!(r.headers[2].0, "Expires");
    assert_eq!(r.headers[2].1, "0");
}

#[test]
fn css_response_serves_the_embedded_bytes() {
    let r = css_response();
    assert_eq!(r.status, 200);
    assert_eq!(r.headers.len(), 1);
    assert_eq!(r.headers[0].0, "Content-type");
    assert_eq!(r.headers[0].1, "text/css");
    assert_eq!(r.body, stylesheet());
    // independent of any configuration: a second call is identical
    let again = css_response();
    assert_eq!(again.body, r.body);
}

#[test]
fn readable_file_renders_as_html() {
    let content = String::from("# Hi");
    let r = page_response(Some(&content), "doc.md", 60);
    assert_eq!(r.status, 200);
    assert_eq!(r.headers.len(), 1);
    assert_eq!(r.headers[0].0, "Content-type");
    assert_eq!(r.headers[0].1, "text/html");
    assert!(r.body.contains("<h1>Hi</h1>"));
    assert!(r.body.contains("<title>doc.md</title>"));
}

#[test]
fn unreadable_file_degrades_to_404() {
    let r = page_response(None, "doc.md", 60);
    assert_eq!(r.status, 404);
    assert!(r.headers.is_empty());
    assert_eq!(r.body, "");
}

#[test]
fn static_content_passes_through_verbatim() {
    let r = static_content_response(Some(String::from("body { color: red }")));
    assert_eq!(r.status, 200);
    assert!(r.headers.is_empty());
    assert_eq!(r.body, "body { color: red }");
}
