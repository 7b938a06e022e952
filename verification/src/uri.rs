//! Parsed URLs, reduced to what the discovery checks read: the URL's
//! serialization and its host.

use vstd::prelude::*;

verus! {

#[verifier::external_type_specification]
#[verifier::external_body]
pub struct ExUrlParseError(url::ParseError);

/// What `url::Url::parse` makes of a text: `None` where it fails, else the
/// parsed URL's serialization (`as_str`) and host (`host_str`).
pub uninterp spec fn parsed_url(input: Seq<char>) -> Option<(Seq<char>, Option<Seq<char>>)>;

/// Parses `input` with `url::Url::parse` and reads the result's
/// serialization (`as_str`) and host (`host_str`). Claimed: the outcome is
/// `parsed_url` of the input, which depends on the input alone.
#[verifier::external_body]
fn parse_with_url_crate(input: &str) -> (r: Result<(String, Option<String>), url::ParseError>)
    ensures
        match r {
            Ok((s, h)) => parsed_url(input@) == Some((s@, h.deep_view())),
            Err(_) => parsed_url(input@) is None,
        },
{
    match url::Url::parse(input) {
        Ok(u) => {
            let host = match u.host_str() {
                Some(h) => Some(h.to_string()),
                None => None,
            };
            Ok((u.as_str().to_string(), host))
        },
        Err(e) => Err(e),
    }
}

#[verifier::external_type_specification]
#[verifier::external_body]
pub struct ExInvalidUri(http::uri::InvalidUri);

/// What `http` makes of a text as a URI (`str::parse` into `http::Uri`):
/// `None` where it refuses it, else the URI's text (`to_string`).
pub uninterp spec fn parsed_http_uri(input: Seq<char>) -> Option<Seq<char>>;

/// Parses `input` into an `http::Uri` and writes the result back as text.
/// Claimed: the outcome is `parsed_http_uri` of the input, which depends on
/// the input alone.
#[verifier::external_body]
pub(crate) fn parse_http_uri(input: &str) -> (r: Result<String, http::uri::InvalidUri>)
    ensures
        match r {
            Ok(s) => parsed_http_uri(input@) == Some(s@),
            Err(_) => parsed_http_uri(input@) is None,
        },
{
    match input.parse::<http::Uri>() {
        Ok(uri) => Ok(uri.to_string()),
        Err(e) => Err(e),
    }
}

/// An absolute URL: its serialization and, where it has one, its host.
#[derive(Debug)]
pub struct Url {
    serialization: String,
    host: Option<String>,
}

impl View for Url {
    type V = (Seq<char>, Option<Seq<char>>);

    closed spec fn view(&self) -> (Seq<char>, Option<Seq<char>>) {
        (self.serialization@, self.host.deep_view())
    }
}

impl Clone for Url {
    fn clone(&self) -> (res: Self)
        ensures
            res@ == self@,
    {
        let host = match &self.host {
            Some(h) => Some(h.clone()),
            None => None,
        };
        Url { serialization: self.serialization.clone(), host }
    }
}

impl Url {
    /// Parses an absolute URL.
    pub fn parse(input: &str) -> (res: Result<Url, url::ParseError>)
        ensures
            res is Ok <==> parsed_url(input@) is Some,
            res matches Ok(u) ==> parsed_url(input@) == Some(u@),
    {
        match parse_with_url_crate(input) {
            Ok((serialization, host)) => Ok(Url { serialization, host }),
            Err(e) => Err(e),
        }
    }

    /// The URL's serialization, as `url::Url` writes it.
    pub fn as_str(&self) -> (res: &str)
        ensures
            res@ == self@.0,
    {
        self.serialization.as_str()
    }

    /// The URL's host, if it has one.
    pub fn host_str(&self) -> (res: Option<&str>)
        ensures
            res.deep_view() == self@.1,
    {
        match &self.host {
            Some(h) => Some(h.as_str()),
            None => None,
        }
    }
}

} // verus!
