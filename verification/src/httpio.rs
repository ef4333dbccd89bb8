//! Trusted HTTP access through reqwest's blocking client. A reply depends on
//! whatever is listening at the far end, so no contract pins a result;
//! callers state what holds of every outcome. The blocking client must be
//! driven from synchronous code — it panics when entered from inside an
//! async runtime — so the library is to be called from synchronous code
//! only, as the shell around it does.

use vstd::prelude::*;

verus! {

/// The status code and body text of an HTTP reply.
#[derive(Clone, Debug)]
pub struct HttpReply {
    pub status: u16,
    pub body: String,
}

/// Relies on reqwest::blocking::Client::get: fetches `url` with the given
/// request timeout; `None` when no reply arrived (connection refused,
/// malformed URL, timeout), otherwise the status code and the body as text.
#[verifier::external_body]
pub(crate) fn http_get(url: &String, timeout_secs: u64) -> Option<HttpReply> {
    let client = reqwest::blocking::Client::builder().timeout(
        std::time::Duration::from_secs(timeout_secs),
    ).build().ok()?;
    let resp = client.get(url.as_str()).send().ok()?;
    let status = resp.status().as_u16();
    let body = resp.text().unwrap_or_default();
    Some(HttpReply { status, body })
}

/// Relies on reqwest::blocking::Client::post: sends `body` to `url` as JSON,
/// with the client's default request timeout; `None` when no reply arrived,
/// otherwise the status code and body text.
#[verifier::external_body]
pub(crate) fn http_post_json(url: &String, body: &String) -> Option<HttpReply> {
    let client = reqwest::blocking::Client::builder().build().ok()?;
    let resp = client.post(url.as_str()).header("content-type", "application/json").body(
        body.clone(),
    ).send().ok()?;
    let status = resp.status().as_u16();
    let text = resp.text().unwrap_or_default();
    Some(HttpReply { status, body: text })
}

/// Relies on reqwest::blocking::Client::get: fetches `url` as raw bytes with
/// the given request timeout; `None` when no reply arrived, otherwise the
/// status code and the body bytes.
#[verifier::external_body]
pub(crate) fn http_get_bytes(url: &String, timeout_secs: u64) -> Option<(u16, Vec<u8>)> {
    let client = reqwest::blocking::Client::builder().timeout(
        std::time::Duration::from_secs(timeout_secs),
    ).build().ok()?;
    let resp = client.get(url.as_str()).send().ok()?;
    let status = resp.status().as_u16();
    let bytes = resp.bytes().ok()?.to_vec();
    Some((status, bytes))
}

} // verus!
