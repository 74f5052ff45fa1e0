//! The rendered document page: markdown conversion, the fixed page shell
//! around it, and the embedded stylesheet.

use vstd::prelude::*;
use vstd::string::StringExecFns;
use crate::text::decimal;
use crate::text::push_decimal;

verus! {

/// What the markdown converter returns for a given source text, under the
/// fixed configuration used here (hard line breaks on, everything else at
/// its default). The result depends on the source text alone.
pub uninterp spec fn rendered_markdown(text: Seq<char>) -> Seq<char>;

/// Relies on comrak::markdown_to_html: a pure conversion from markdown text
/// to HTML, called with hard line breaks enabled and every other option at
/// its default, so the output depends on the input text alone.
#[verifier::external_body]
fn markdown_to_html_hardbreaks(text: &str) -> (r: String)
    ensures
        r@ == rendered_markdown(text@),
{
    let mut options = comrak::Options::default();
    options.render.hardbreaks = true;
    comrak::markdown_to_html(text, &options)
}

pub const PAGE_HEAD: &'static str = r#"<!DOCTYPE html>
         <html>
            <head>
                <meta http-equiv="Content-Type" content="text/html; charset=utf-8"/>
                <style>
                    body {
                    box-sizing: border-box;
                    min-width: 200px;
                    max-width: 980px;
                    margin: 0 auto;
                    padding: 45px;
                    }
                </style>
                <link rel="stylesheet" href="style.css">
                <title>"#;

pub const PAGE_BODY_OPEN: &'static str = r#"</title>
            </head>
            <body>
            <article class="markdown-body">
            "#;

pub const PAGE_SCRIPT_OPEN: &'static str = r#"
            </article>
            <script type="text/javascript">
            function reload_check () {
                var xhr = new XMLHttpRequest();
                xhr.overrideMimeType("text/plain");
                xhr.timeout = "#;

pub const PAGE_SCRIPT_CLOSE: &'static str = r#";
                xhr.onreadystatechange = function () {
                    if(this.readyState === 4) {
                        if (this.status === 200) {
                            if (this.responseText == "yes") {
                                location.reload();
                            } else {
                                reload_check();
                            }
                        }
                    }
                }
                xhr.ontimeout = function () {
                    reload_check();
                }
                xhr.open("GET", "/update", true);
                xhr.send();
            }
            reload_check();
            </script>
            </body>
        </html>"#;

/// The full page: the fixed shell around the title, the rendered body, and
/// the client-side reload loop with its timeout in milliseconds.
pub open spec fn page_spec(title: Seq<char>, body_html: Seq<char>, interval_ms: nat) -> Seq<char> {
    PAGE_HEAD@ + title + PAGE_BODY_OPEN@ + body_html + PAGE_SCRIPT_OPEN@ + decimal(interval_ms)
        + PAGE_SCRIPT_CLOSE@
}

/// Wraps already-rendered HTML in the page shell. The poll interval is
/// multiplied by 1000 on its way into the client script, which treats the
/// result as milliseconds.
pub fn page_document(title: &str, body_html: &str, interval: u32) -> (r: String)
    ensures
        r@ == page_spec(title@, body_html@, (interval as nat) * 1000),
{
    let interval_ms: u64 = (interval as u64) * 1000;
    let mut out = String::new();
    out.append(PAGE_HEAD);
    out.append(title);
    out.append(PAGE_BODY_OPEN);
    out.append(body_html);
    out.append(PAGE_SCRIPT_OPEN);
    push_decimal(&mut out, interval_ms);
    out.append(PAGE_SCRIPT_CLOSE);
    proof {
        assert(interval_ms as nat == (interval as nat) * 1000);
        assert(out@ =~= page_spec(title@, body_html@, (interval as nat) * 1000));
    }
    out
}

/// Reads nothing itself: renders the given markdown source and wraps it in
/// the page shell, titled with the given string.
pub fn render_page(markdown: &str, title: &str, interval: u32) -> (r: String)
    ensures
        r@ == page_spec(title@, rendered_markdown(markdown@), (interval as nat) * 1000),
{
    let body = markdown_to_html_hardbreaks(markdown);
    page_document(title, body.as_str(), interval)
}

/// Rendering is a pure function of the file content: identical input text
/// always yields an identical rendered body, and so an identical page.
pub proof fn lemma_rendering_deterministic(
    a: Seq<char>,
    b: Seq<char>,
    title: Seq<char>,
    interval_ms: nat,
)
    requires
        a == b,
    ensures
        rendered_markdown(a) == rendered_markdown(b),
        page_spec(title, rendered_markdown(a), interval_ms) == page_spec(
            title,
            rendered_markdown(b),
            interval_ms,
        ),
{
}

pub const DEFAULT_CSS: &'static str = r#".markdown-body {
    -ms-text-size-adjust: 100%;
    -webkit-text-size-adjust: 100%;
    color: #24292e;
    font-family: -apple-system, BlinkMacSystemFont, "Segoe UI", Helvetica, Arial, sans-serif;
    font-size: 16px;
    line-height: 1.5;
    word-wrap: break-word;
}

.markdown-body h1, .markdown-body h2 {
    padding-bottom: 0.3em;
    border-bottom: 1px solid #eaecef;
}

.markdown-body h1, .markdown-body h2, .markdown-body h3, .markdown-body h4,
.markdown-body h5, .markdown-body h6 {
    margin-top: 24px;
    margin-bottom: 16px;
    font-weight: 600;
    line-height: 1.25;
}

.markdown-body a {
    color: #0366d6;
    text-decoration: none;
}

.markdown-body a:hover {
    text-decoration: underline;
}

.markdown-body p, .markdown-body blockquote, .markdown-body ul,
.markdown-body ol, .markdown-body dl, .markdown-body table,
.markdown-body pre {
    margin-top: 0;
    margin-bottom: 16px;
}

.markdown-body code, .markdown-body pre {
    font-family: "SFMono-Regular", Consolas, "Liberation Mono", Menlo, Courier, monospace;
    font-size: 85%;
    background-color: rgba(27, 31, 35, 0.05);
    border-radius: 3px;
}

.markdown-body pre {
    padding: 16px;
    overflow: auto;
    line-height: 1.45;
}

.markdown-body blockquote {
    padding: 0 1em;
    color: #6a737d;
    border-left: 0.25em solid #dfe2e5;
}

.markdown-body table {
    border-collapse: collapse;
}

.markdown-body table td, .markdown-body table th {
    padding: 6px 13px;
    border: 1px solid #dfe2e5;
}

.markdown-body img {
    max-width: 100%;
}
"#;

/// The embedded stylesheet: fixed bytes, independent of any configuration.
pub fn stylesheet() -> (r: &'static str)
    ensures
        r@ == DEFAULT_CSS@,
{
    DEFAULT_CSS
}

} // verus!
