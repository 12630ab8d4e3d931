//! The bootstrap half of socket mode: judging the body of the
//! connections-open call and validating the short-lived connection URL
//! it carries. The HTTP call itself and the WebSocket upgrade belong
//! to the surrounding program; what they hand back is judged here.

use vstd::prelude::*;
use crate::envelope::field_str;
use crate::json::sp_json;

verus! {

/// What URL text parses and normalises to. The outcome depends on the
/// text alone.
pub uninterp spec fn url_normalized(s: Seq<char>) -> Option<Seq<char>>;

/// Relies on url::Url::parse and url::Url::as_str: parsing either
/// rejects the text or yields a URL whose serialisation both depend on
/// the text alone.
#[verifier::external_body]
fn normalize_url(s: &str) -> (r: Option<String>)
    ensures
        match r {
            Some(n) => url_normalized(s@) == Some(n@),
            None => url_normalized(s@) is None,
        },
{
    match url::Url::parse(s) {
        Ok(u) => Some(u.as_str().to_owned()),
        Err(_) => None,
    }
}

/// Why no connection URL came out of the bootstrap response.
#[derive(Debug)]
pub enum BootstrapError {
    /// The body held no `url` string field, or was no JSON at all.
    MissingUrl,
    /// The `url` field held text that is no URL.
    InvalidUrl,
}

/// The `url` field of the bootstrap response body.
pub open spec fn connection_url_model(s: Seq<char>) -> Option<Seq<char>> {
    match sp_json(s) {
        Some(m) => field_str(m, "url"@),
        None => None,
    }
}

/// The freshly fetched, single-use connection URL. One value of this
/// type stands for one handshake attempt: the session machine consumes
/// it on the attempt, and a new bootstrap call makes the next one.
#[derive(Debug)]
pub struct SocketMode {
    pub url: String,
}

impl SocketMode {
    /// Judges the body of the bootstrap call: accepts exactly a JSON
    /// body carrying a `url` string field that parses as a URL, and
    /// holds that URL in normalised form.
    pub fn from_response(body: &str) -> (r: Result<SocketMode, BootstrapError>)
        ensures
            match r {
                Ok(sm) => (connection_url_model(body@) matches Some(u) && url_normalized(u)
                    == Some(sm.url@)),
                Err(BootstrapError::MissingUrl) => connection_url_model(body@) is None,
                Err(BootstrapError::InvalidUrl) => (connection_url_model(body@) matches Some(u)
                    && url_normalized(u) is None),
            },
    {
        let v = match crate::json::parse_json(body) {
            Some(v) => v,
            None => {
                return Err(BootstrapError::MissingUrl);
            },
        };
        let raw = match v.get("url") {
            Some(f) => match f.str_value() {
                Some(t) => t,
                None => {
                    return Err(BootstrapError::MissingUrl);
                },
            },
            None => {
                return Err(BootstrapError::MissingUrl);
            },
        };
        match normalize_url(raw.as_str()) {
            Some(url) => Ok(SocketMode { url }),
            None => Err(BootstrapError::InvalidUrl),
        }
    }
}

} // verus!
