//! Plain HTTP responses: status, headers and body as values. The transport
//! that writes them to a socket lives outside the library.

use vstd::prelude::*;
use vstd::string::StringExecFns;
use crate::page::DEFAULT_CSS;
use crate::page::page_spec;
use crate::page::render_page;
use crate::page::rendered_markdown;
use crate::page::stylesheet;

verus! {

/// One response, ready to be written out: its status code, its headers in
/// order, and its body.
pub struct HttpResponse {
    pub status: u16,
    pub headers: Vec<(String, String)>,
    pub body: String,
}

/// The empty 404 response every failure path degrades to: no headers, no
/// body, no detail leaked.
pub fn not_found_response() -> (r: HttpResponse)
    ensures
        r.status == 404,
        r.headers@.len() == 0,
        r.body@ == Seq::<char>::empty(),
{
    HttpResponse { status: 404, headers: Vec::new(), body: String::new() }
}

/// The response that resumes a woken long-poll request: 200, the three
/// cache-disabling headers, and the body `yes` that tells the client to
/// reload.
pub fn wake_response() -> (r: HttpResponse)
    ensures
        r.status == 200,
        r.headers@.len() == 3,
        r.headers@[0].0@ == "Cache-Control"@,
        r.headers@[0].1@ == "no-cache, no-store, must-revalidate"@,
        r.headers@[1].0@ == "Pragma"@,
        r.headers@[1].1@ == "no-cache"@,
        r.headers@[2].0@ == "Expires"@,
        r.headers@[2].1@ == "0"@,
        r.body@ == "yes"@,
{
    let mut headers: Vec<(String, String)> = Vec::new();
    headers.push(
        (
            String::from_str("Cache-Control"),
            String::from_str("no-cache, no-store, must-revalidate"),
        ),
    );
    headers.push((String::from_str("Pragma"), String::from_str("no-cache")));
    headers.push((String::from_str("Expires"), String::from_str("0")));
    HttpResponse { status: 200, headers, body: String::from_str("yes") }
}

/// The embedded stylesheet, served as `text/css` whatever the
/// configuration.
pub fn css_response() -> (r: HttpResponse)
    ensures
        r.status == 200,
        r.headers@.len() == 1,
        r.headers@[0].0@ == "Content-type"@,
        r.headers@[0].1@ == "text/css"@,
        r.body@ == DEFAULT_CSS@,
{
    let mut headers: Vec<(String, String)> = Vec::new();
    headers.push((String::from_str("Content-type"), String::from_str("text/css")));
    HttpResponse { status: 200, headers, body: String::from_str(stylesheet()) }
}

/// The main document response. The file is read fresh by the caller on
/// every request; given its content this renders and wraps it, and given
/// none — the file was unreadable — it degrades to the empty 404.
pub fn page_response(content: Option<&String>, title: &str, interval: u32) -> (r: HttpResponse)
    ensures
        match content {
            Some(text) => r.status == 200 && r.headers@.len() == 1 && r.headers@[0].0@
                == "Content-type"@ && r.headers@[0].1@ == "text/html"@ && r.body@ == page_spec(
                title@,
                rendered_markdown(text@),
                (interval as nat) * 1000,
            ),
            None => r.status == 404 && r.headers@.len() == 0 && r.body@ == Seq::<char>::empty(),
        },
{
    match content {
        Some(text) => {
            let mut headers: Vec<(String, String)> = Vec::new();
            headers.push((String::from_str("Content-type"), String::from_str("text/html")));
            let body = render_page(text.as_str(), title, interval);
            HttpResponse { status: 200, headers, body }
        },
        None => not_found_response(),
    }
}

/// The static-file response: the file's content when the containment check
/// let it be read, the empty 404 otherwise. Static files are served with no
/// content-type header, as plain bytes.
pub fn static_content_response(content: Option<String>) -> (r: HttpResponse)
    ensures
        match content {
            Some(text) => r.status == 200 && r.headers@.len() == 0 && r.body@ == text@,
            None => r.status == 404 && r.headers@.len() == 0 && r.body@ == Seq::<char>::empty(),
        },
{
    match content {
        Some(text) => HttpResponse { status: 200, headers: Vec::new(), body: text },
        None => not_found_response(),
    }
}

} // verus!
