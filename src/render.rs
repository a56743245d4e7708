//! Small text pieces of the pages: script snippets, the robots file, the hit
//! counter, and markdown rendered to sanitized HTML.
use vstd::prelude::*;
use crate::decimal::{decimal_digits, format_index};

verus! {

/// The robots file: every agent may crawl every path.
pub fn robots() -> (r: &'static str)
    ensures
        r@ == "\n    User-agent: *\n    Allow: /\n    "@,
{
    "\n    User-agent: *\n    Allow: /\n    "
}

/// The hit count as decimal text.
pub fn hitcount(count: u64) -> (r: String)
    ensures
        r@ == decimal_digits(count as nat),
{
    format_index(count)
}

/// Script that toggles the class `class` on the element with id `id`.
pub fn toggle_js(id: &str, class: &str) -> (r: String)
    ensures
        r@ == "document.getElementById('"@ + id@ + "').classList.toggle('"@ + class@ + "');"@,
{
    let mut s = String::from_str("document.getElementById('");
    s.append(id);
    s.append("').classList.toggle('");
    s.append(class);
    s.append("');");
    s
}

/// Script that toggles the `is-active` class on the element with id `id`.
pub fn toggle_active_js(id: &str) -> (r: String)
    ensures
        r@ == "document.getElementById('"@ + id@ + "').classList.toggle('"@ + "is-active"@
            + "');"@,
{
    toggle_js(id, "is-active")
}

/// Script that deletes the cookie `id` under `path` by expiring it.
pub fn delete_cookie_js(id: &str, path: &str) -> (r: String)
    ensures
        r@ == "document.cookie ='"@ + id@ + "=; expires=Thu, 01 Jan 1970 00:00:00 UTC; path="@
            + path@ + ";' ;"@,
{
    let mut s = String::from_str("document.cookie ='");
    s.append(id);
    s.append("=; expires=Thu, 01 Jan 1970 00:00:00 UTC; path=");
    s.append(path);
    s.append(";' ;");
    s
}

/// Script that plays the audio at `url` with no player controls.
pub fn play_audio_without_control(url: &str) -> (r: String)
    ensures
        r@ == "(function(){new Audio('"@ + url@ + "').play();}())"@,
{
    let mut s = String::from_str("(function(){new Audio('");
    s.append(url);
    s.append("').play();}())");
    s
}

/// The HTML that pulldown-cmark renders from markdown text, with
/// strikethrough enabled.
pub uninterp spec fn strikethrough_markdown_html(s: Seq<char>) -> Seq<char>;

/// The HTML that ammonia's default cleaner keeps of an HTML text.
pub uninterp spec fn ammonia_clean(s: Seq<char>) -> Seq<char>;

/// Relies on pulldown_cmark::html::push_html over Parser::new_ext with
/// strikethrough enabled: the HTML of the markdown, a function of the text.
#[verifier::external_body]
fn markdown_to_html(input: &str) -> (r: String)
    ensures
        r@ == strikethrough_markdown_html(input@),
{
    let mut options = pulldown_cmark::Options::empty();
    options.insert(pulldown_cmark::Options::ENABLE_STRIKETHROUGH);
    let parser = pulldown_cmark::Parser::new_ext(input, options);
    let mut html_output = String::new();
    pulldown_cmark::html::push_html(&mut html_output, parser);
    html_output
}

/// Relies on ammonia::clean: the default cleaner's output, a function of the
/// input text.
#[verifier::external_body]
fn sanitize_html(src: &str) -> (r: String)
    ensures
        r@ == ammonia_clean(src@),
{
    ammonia::clean(src)
}

/// Markdown (with strikethrough) rendered to HTML, then cleaned of anything
/// that is not safe to embed in a page.
pub fn makrdown_parse_clean(input: &str) -> (r: String)
    ensures
        r@ == ammonia_clean(strikethrough_markdown_html(input@)),
{
    let html = markdown_to_html(input);
    sanitize_html(html.as_str())
}

} // verus!
