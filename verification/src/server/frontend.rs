//! The dashboard's single-page frontend: which embedded file a path
//! serves, its media type, and the configuration the page is given.  The
//! files themselves are read outside.

use vstd::prelude::*;
use vstd::string::StringExecFns;
use crate::json::{JsonValue, JsonView};
use crate::session::{replace_all, replace_text};
use crate::text::{trim_start_char, trim_start_text};

verus! {

/// The embedded file a request path names: the path without its leading slashes.
pub fn asset_path(uri_path: &str) -> (p: String)
    ensures
        p@ == trim_start_char(uri_path@, '/'),
{
    trim_start_text(uri_path, '/')
}

/// What the frontend serves for a path.
#[derive(Debug, Clone, Copy, PartialEq, Eq, Structural)]
pub enum FrontendAnswer {
    /// The embedded file of that path, cached for a year.
    Asset,
    /// The page itself, with its configuration: any other path is a route
    /// of the page.
    Page,
    /// 404 "Not found": the page itself is missing.
    NotFound,
}

/// The answer for a path: its file where one is embedded, else the page,
/// else nothing.
pub fn choose_answer(asset_exists: bool, page_exists: bool) -> (a: FrontendAnswer)
    ensures
        asset_exists ==> a == FrontendAnswer::Asset,
        !asset_exists && page_exists ==> a == FrontendAnswer::Page,
        !asset_exists && !page_exists ==> a == FrontendAnswer::NotFound,
{
    if asset_exists {
        FrontendAnswer::Asset
    } else if page_exists {
        FrontendAnswer::Page
    } else {
        FrontendAnswer::NotFound
    }
}

/// How long an embedded file may be cached.
pub fn asset_cache_control() -> (s: &'static str)
    ensures
        s@ == "public, max-age=31536000, immutable"@,
{
    "public, max-age=31536000, immutable"
}

/// The media type `mime_guess` gives a path by its extension, or
/// `application/octet-stream` where it knows none.
pub uninterp spec fn mime_of(path: Seq<char>) -> Seq<char>;

/// `mime_guess::from_path(path).first_or_octet_stream()`, as text: named
/// `mime_of(path)`; a path without a `.` has no extension and so gets
/// `application/octet-stream`.
#[verifier::external_body]
fn asset_mime(path: &str) -> (m: String)
    ensures
        m@ == mime_of(path@),
        !path@.contains('.') ==> m@ == "application/octet-stream"@,
{
    mime_guess::from_path(path).first_or_octet_stream().to_string()
}

/// The answer that serves an embedded file.
#[derive(Debug)]
pub struct AssetResponse {
    pub status: u16,
    pub content_type: String,
    pub cache_control: String,
    pub body: Vec<u8>,
}

/// The answer serving the embedded file at `path` with content `data`:
/// 200, the media type of the path, cached for a year.
pub fn response_for_asset(path: &str, data: &[u8]) -> (r: AssetResponse)
    ensures
        r.status == 200,
        r.content_type@ == mime_of(path@),
        r.cache_control@ == "public, max-age=31536000, immutable"@,
        r.body@ == data@,
{
    AssetResponse {
        status: 200,
        content_type: asset_mime(path),
        cache_control: asset_cache_control().to_string(),
        body: vstd::slice::slice_to_vec(data),
    }
}

/// The configuration the page is given: `{"clerkPublishableKey": key}`.
pub open spec fn page_config_view(publishable_key: Option<Seq<char>>) -> JsonView {
    JsonView::Object(seq![(
        "clerkPublishableKey"@,
        match publishable_key {
            Some(k) => JsonView::Str(k),
            None => JsonView::Null,
        },
    )])
}

/// The configuration the page is given.
pub fn page_config(publishable_key: Option<&str>) -> (v: JsonValue)
    ensures
        v@ == page_config_view(match publishable_key {
            Some(k) => Some(k@),
            None => None,
        }),
{
    let k = match publishable_key {
        Some(k) => JsonValue::from_str(k),
        None => JsonValue::Null,
    };
    JsonValue::object1("clerkPublishableKey", k)
}

/// The page with its configuration (as JSON text) set as
/// `window.__CONFIG__` by a script right after each `<head>`.
pub open spec fn inject_config_spec(html: Seq<char>, config_json: Seq<char>) -> Seq<char> {
    replace_all(html, "<head>"@, "<head><script>window.__CONFIG__ = "@ + config_json + ";</script>"@)
}

/// The page with its configuration.
pub fn inject_config(html: &str, config_json: &str) -> (r: String)
    ensures
        r@ == inject_config_spec(html@, config_json@),
{
    proof {
        reveal_strlit("<head>");
    }
    let mut script = "<head><script>window.__CONFIG__ = ".to_string();
    script.append(config_json);
    script.append(";</script>");
    replace_text(html, "<head>", script.as_str())
}

} // verus!
