//! SOAP actions and the requests that carry them to the gateway.

use vstd::prelude::*;

verus! {

/// The name of a SOAP action, sent in the `SOAPAction` header.
#[derive(Debug)]
pub struct Action(String);

impl View for Action {
    type V = Seq<char>;

    closed spec fn view(&self) -> Seq<char> {
        self.0@
    }
}

impl Clone for Action {
    fn clone(&self) -> (res: Self)
        ensures
            res@ == self@,
    {
        Action(self.0.clone())
    }
}

impl Action {
    /// Wraps the given action name.
    pub fn new(action: &str) -> (res: Action)
        ensures
            res@ == action@,
    {
        Action(action.to_string())
    }
}

/// The header that names the SOAP action.
pub const HEADER_NAME: &'static str = "SOAPAction";

/// What a SOAP request posts: the URL, the `SOAPAction` header's value, the
/// `Content-Type` and `Content-Length` headers' values, and the body.
pub struct SoapRequest {
    pub url: String,
    pub soap_action: String,
    pub content_type: String,
    pub content_length: u64,
    pub body: String,
}

impl SoapRequest {
    /// The request that performs `action` at `url` with the XML `body`:
    /// `Content-Type` is `text/xml` and `Content-Length` is the body's length
    /// in bytes.
    pub fn new(url: &str, action: Action, body: &str) -> (res: SoapRequest)
        ensures
            res.url@ == url@,
            res.soap_action@ == action@,
            res.content_type@ == "text/xml"@,
            res.content_length == body.len() as u64,
            res.body@ == body@,
    {
        SoapRequest {
            url: url.to_string(),
            soap_action: action.0,
            content_type: "text/xml".to_string(),
            content_length: body.len() as u64,
            body: body.to_string(),
        }
    }
}

} // verus!
