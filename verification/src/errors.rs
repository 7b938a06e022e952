//! The library's error types, how they convert into each other, and the
//! message that each error reads as.

use vstd::prelude::*;

use crate::net::IpAddress;
use crate::text::{concat, dec_text, lemma_prefix_of_concat, push_decimal};
use crate::uri::Url;

use reqwest::Error as ClientError;
use std::io::Error as IoFailure;

verus! {

#[verifier::external_type_specification]
#[verifier::external_body]
pub struct ExIoError(IoFailure);

#[verifier::external_type_specification]
#[verifier::external_body]
pub struct ExFromUtf8Error(std::string::FromUtf8Error);

#[verifier::external_type_specification]
#[verifier::external_body]
pub struct ExUtf8Error(std::str::Utf8Error);

#[verifier::external_type_specification]
#[verifier::external_body]
pub struct ExReqwestError(ClientError);

#[verifier::external_type_specification]
#[verifier::external_body]
pub struct ExXmlParseError(xmltree::ParseError);

#[verifier::external_type_specification]
#[verifier::external_body]
pub struct ExElapsed(tokio::time::error::Elapsed);


/// The `Display` text of an I/O error (`std::io::Error`). Nothing is claimed
/// of it: it may hold the operating system's own message.
#[verifier::external_body]
fn io_error_text(e: &IoFailure) -> String {
    e.to_string()
}

/// The `Display` text of a `reqwest::Error`. Nothing is claimed of it.
#[verifier::external_body]
fn reqwest_error_text(e: &ClientError) -> String {
    e.to_string()
}

/// The `Display` text of a `std::string::FromUtf8Error`. Nothing is claimed
/// of it.
#[verifier::external_body]
fn from_utf8_error_text(e: &std::string::FromUtf8Error) -> String {
    e.to_string()
}

/// The `Display` text of a `std::str::Utf8Error`. Nothing is claimed of it.
#[verifier::external_body]
fn utf8_error_text(e: &std::str::Utf8Error) -> String {
    e.to_string()
}

/// The `Display` text of an `xmltree::ParseError`. Nothing is claimed of it.
#[verifier::external_body]
fn xml_error_text(e: &xmltree::ParseError) -> String {
    e.to_string()
}

/// The `Display` text of an `http::uri::InvalidUri`. Nothing is claimed of
/// it.
#[verifier::external_body]
fn http_uri_error_text(e: &http::uri::InvalidUri) -> String {
    e.to_string()
}

/// The `Display` text of a `url::ParseError`. Nothing is claimed of it.
#[verifier::external_body]
fn url_error_text(e: &url::ParseError) -> String {
    e.to_string()
}

/// The kinds of I/O error that the library makes itself.
#[derive(Clone, Copy, Debug, PartialEq, Eq)]
pub enum IoErrorKind {
    /// The operation's time ran out.
    TimedOut,
}

/// A new I/O error of the given kind with the given message
/// (`std::io::Error::new`). Nothing is claimed of the value, which Verus
/// cannot look into.
#[verifier::external_body]
fn new_io_error(kind: IoErrorKind, message: &str) -> IoFailure {
    let kind = match kind {
        IoErrorKind::TimedOut => std::io::ErrorKind::TimedOut,
    };
    IoFailure::new(kind, message)
}

/// `text` is `prefix` followed by the text of some error that `prefix`
/// introduces.
pub open spec fn introduced_by(prefix: Seq<char>, text: Seq<char>) -> bool {
    prefix.is_prefix_of(text)
}

fn with_prefix(prefix: &str, detail: String) -> (res: String)
    ensures
        res@ == prefix@ + detail@,
        introduced_by(prefix@, res@),
{
    proof {
        lemma_prefix_of_concat(prefix@, detail@);
    }
    concat(prefix, detail.as_str())
}

/// Errors that can occur when sending the request to the gateway.
#[derive(Debug)]
pub enum RequestError {
    /// I/O error
    IoError(IoFailure),
    /// Invalid response
    InvalidResponse(String),
    /// Unhandled error code
    ErrorCode(u16, String),
    /// Unsupported action
    UnsupportedAction(String),
    /// Reqwest error
    ReqwestError(ClientError),
    /// Utf-8 parsing error
    Utf8Error(std::string::FromUtf8Error),
}

impl RequestError {
    /// Whether `text` is this error's message.
    pub open spec fn describes(self, text: Seq<char>) -> bool {
        match self {
            RequestError::IoError(_) => introduced_by("IO Error: "@, text),
            RequestError::InvalidResponse(s) => text
                == "The response from the gateway could not be parsed: '"@ + s@ + "'"@,
            RequestError::ErrorCode(code, s) => text == "The gateway returned an unhandled error code "@
                + dec_text(code as nat) + " and description: "@ + s@,
            RequestError::UnsupportedAction(s) => text == "Action is not supported by the gateway: "@
                + s@,
            RequestError::ReqwestError(_) => introduced_by("Reqwest error: "@, text),
            RequestError::Utf8Error(_) => introduced_by(
                "Error parsing HTTP body as utf-8: "@,
                text,
            ),
        }
    }

    /// The error's message.
    pub fn to_string(&self) -> (res: String)
        ensures
            self.describes(res@),
    {
        match self {
            RequestError::IoError(e) => with_prefix("IO Error: ", io_error_text(e)),
            RequestError::InvalidResponse(s) => {
                let mut t = concat(
                    "The response from the gateway could not be parsed: '",
                    s.as_str(),
                );
                t.append("'");
                t
            },
            RequestError::ErrorCode(code, s) => {
                let mut t = "The gateway returned an unhandled error code ".to_string();
                push_decimal(&mut t, *code as u32);
                t.append(" and description: ");
                t.append(s.as_str());
                t
            },
            RequestError::UnsupportedAction(s) => concat(
                "Action is not supported by the gateway: ",
                s.as_str(),
            ),
            RequestError::ReqwestError(e) => with_prefix("Reqwest error: ", reqwest_error_text(e)),
            RequestError::Utf8Error(e) => with_prefix(
                "Error parsing HTTP body as utf-8: ",
                from_utf8_error_text(e),
            ),
        }
    }
}

impl From<IoFailure> for RequestError {
    fn from(err: IoFailure) -> RequestError {
        RequestError::IoError(err)
    }
}

impl vstd::std_specs::convert::FromSpecImpl<IoFailure> for RequestError {
    open spec fn obeys_from_spec() -> bool {
        true
    }

    open spec fn from_spec(v: IoFailure) -> RequestError {
        RequestError::IoError(v)
    }
}

impl From<tokio::time::error::Elapsed> for RequestError {
    fn from(err: tokio::time::error::Elapsed) -> (res: RequestError)
        ensures
            res is IoError,
    {
        RequestError::IoError(new_io_error(IoErrorKind::TimedOut, "timer failed"))
    }
}

impl vstd::std_specs::convert::FromSpecImpl<tokio::time::error::Elapsed> for RequestError {
    open spec fn obeys_from_spec() -> bool {
        false
    }

    open spec fn from_spec(v: tokio::time::error::Elapsed) -> RequestError {
        arbitrary()
    }
}


impl From<ClientError> for RequestError {
    fn from(err: ClientError) -> RequestError {
        RequestError::ReqwestError(err)
    }
}

impl vstd::std_specs::convert::FromSpecImpl<ClientError> for RequestError {
    open spec fn obeys_from_spec() -> bool {
        true
    }

    open spec fn from_spec(v: ClientError) -> RequestError {
        RequestError::ReqwestError(v)
    }
}

impl From<std::string::FromUtf8Error> for RequestError {
    fn from(err: std::string::FromUtf8Error) -> RequestError {
        RequestError::Utf8Error(err)
    }
}

impl vstd::std_specs::convert::FromSpecImpl<std::string::FromUtf8Error> for RequestError {
    open spec fn obeys_from_spec() -> bool {
        true
    }

    open spec fn from_spec(v: std::string::FromUtf8Error) -> RequestError {
        RequestError::Utf8Error(v)
    }
}

/// Errors returned by `Gateway::get_external_ip`
#[derive(Debug)]
pub enum GetExternalIpError {
    /// The client is not authorized to perform the operation.
    ActionNotAuthorized,
    /// Some other error occured performing the request.
    RequestError(RequestError),
}

impl GetExternalIpError {
    /// Whether `text` is this error's message.
    pub open spec fn describes(self, text: Seq<char>) -> bool {
        match self {
            GetExternalIpError::ActionNotAuthorized => text
                == "The client is not authorized to get the external IP address"@,
            GetExternalIpError::RequestError(e) => exists|t: Seq<char>|
                #![trigger e.describes(t)]
                e.describes(t) && text == "Request Error. "@ + t,
        }
    }

    /// The error's message.
    pub fn to_string(&self) -> (res: String)
        ensures
            self.describes(res@),
    {
        match self {
            GetExternalIpError::ActionNotAuthorized => "The client is not authorized to get the external IP address".to_string(),
            GetExternalIpError::RequestError(e) => {
                let inner = e.to_string();
                concat("Request Error. ", inner.as_str())
            },
        }
    }
}

impl From<IoFailure> for GetExternalIpError {
    fn from(err: IoFailure) -> GetExternalIpError {
        GetExternalIpError::RequestError(RequestError::from(err))
    }
}

impl vstd::std_specs::convert::FromSpecImpl<IoFailure> for GetExternalIpError {
    open spec fn obeys_from_spec() -> bool {
        true
    }

    open spec fn from_spec(v: IoFailure) -> GetExternalIpError {
        GetExternalIpError::RequestError(RequestError::IoError(v))
    }
}

/// Errors returned by `Gateway::remove_port`
#[derive(Debug)]
pub enum RemovePortError {
    /// The client is not authorized to perform the operation.
    ActionNotAuthorized,
    /// No such port mapping.
    NoSuchPortMapping,
    /// Some other error occured performing the request.
    RequestError(RequestError),
}

impl RemovePortError {
    /// Whether `text` is this error's message.
    pub open spec fn describes(self, text: Seq<char>) -> bool {
        match self {
            RemovePortError::ActionNotAuthorized => text
                == "The client is not authorized to remove the port"@,
            RemovePortError::NoSuchPortMapping => text == "The port was not mapped"@,
            RemovePortError::RequestError(e) => exists|t: Seq<char>|
                #![trigger e.describes(t)]
                e.describes(t) && text == "Request error. "@ + t,
        }
    }

    /// The error's message.
    pub fn to_string(&self) -> (res: String)
        ensures
            self.describes(res@),
    {
        match self {
            RemovePortError::ActionNotAuthorized => "The client is not authorized to remove the port".to_string(),
            RemovePortError::NoSuchPortMapping => "The port was not mapped".to_string(),
            RemovePortError::RequestError(e) => {
                let inner = e.to_string();
                concat("Request error. ", inner.as_str())
            },
        }
    }
}

/// Errors returned by `Gateway::add_any_port` and `Gateway::get_any_address`
#[derive(Debug)]
pub enum AddAnyPortError {
    /// The client is not authorized to perform the operation.
    ActionNotAuthorized,
    /// Can not add a mapping for local port 0.
    InternalPortZeroInvalid,
    /// The gateway does not have any free ports.
    NoPortsAvailable,
    /// The gateway can only map internal ports to same-numbered external ports
    /// and this external port is in use.
    ExternalPortInUse,
    /// The gateway only supports permanent leases (ie. a `lease_duration` of 0).
    OnlyPermanentLeasesSupported,
    /// The description was too long for the gateway to handle.
    DescriptionTooLong,
    /// Some other error occured performing the request.
    RequestError(RequestError),
}

impl AddAnyPortError {
    /// Whether `text` is this error's message.
    pub open spec fn describes(self, text: Seq<char>) -> bool {
        match self {
            AddAnyPortError::ActionNotAuthorized => text
                == "The client is not authorized to map a port"@,
            AddAnyPortError::InternalPortZeroInvalid => text
                == "Can not add a mapping for local port 0"@,
            AddAnyPortError::NoPortsAvailable => text == "The gateway does not have any free ports"@,
            AddAnyPortError::OnlyPermanentLeasesSupported => text
                == "The gateway only supports permanent leases (ie. a `lease_duration` of 0),"@,
            AddAnyPortError::ExternalPortInUse => text
                == "The gateway can only map internal ports to same-numbered external ports and this external port is in use."@,
            AddAnyPortError::DescriptionTooLong => text
                == "The description was too long for the gateway to handle."@,
            AddAnyPortError::RequestError(e) => exists|t: Seq<char>|
                #![trigger e.describes(t)]
                e.describes(t) && text == "Request error. "@ + t,
        }
    }

    /// The error's message.
    pub fn to_string(&self) -> (res: String)
        ensures
            self.describes(res@),
    {
        match self {
            AddAnyPortError::ActionNotAuthorized => "The client is not authorized to map a port".to_string(),
            AddAnyPortError::InternalPortZeroInvalid => "Can not add a mapping for local port 0".to_string(),
            AddAnyPortError::NoPortsAvailable => "The gateway does not have any free ports".to_string(),
            AddAnyPortError::OnlyPermanentLeasesSupported => "The gateway only supports permanent leases (ie. a `lease_duration` of 0),".to_string(),
            AddAnyPortError::ExternalPortInUse => "The gateway can only map internal ports to same-numbered external ports and this external port is in use.".to_string(),
            AddAnyPortError::DescriptionTooLong => "The description was too long for the gateway to handle.".to_string(),
            AddAnyPortError::RequestError(e) => {
                let inner = e.to_string();
                concat("Request error. ", inner.as_str())
            },
        }
    }
}

impl From<RequestError> for AddAnyPortError {
    fn from(err: RequestError) -> AddAnyPortError {
        AddAnyPortError::RequestError(err)
    }
}

impl vstd::std_specs::convert::FromSpecImpl<RequestError> for AddAnyPortError {
    open spec fn obeys_from_spec() -> bool {
        true
    }

    open spec fn from_spec(v: RequestError) -> AddAnyPortError {
        AddAnyPortError::RequestError(v)
    }
}

impl From<GetExternalIpError> for AddAnyPortError {
    fn from(err: GetExternalIpError) -> AddAnyPortError {
        match err {
            GetExternalIpError::ActionNotAuthorized => AddAnyPortError::ActionNotAuthorized,
            GetExternalIpError::RequestError(e) => AddAnyPortError::RequestError(e),
        }
    }
}

impl vstd::std_specs::convert::FromSpecImpl<GetExternalIpError> for AddAnyPortError {
    open spec fn obeys_from_spec() -> bool {
        true
    }

    open spec fn from_spec(v: GetExternalIpError) -> AddAnyPortError {
        match v {
            GetExternalIpError::ActionNotAuthorized => AddAnyPortError::ActionNotAuthorized,
            GetExternalIpError::RequestError(e) => AddAnyPortError::RequestError(e),
        }
    }
}

/// Errors returned by `Gateway::add_port`
#[derive(Debug)]
pub enum AddPortError {
    /// The client is not authorized to perform the operation.
    ActionNotAuthorized,
    /// Can not add a mapping for local port 0.
    InternalPortZeroInvalid,
    /// External port number 0 (any port) is considered invalid by the gateway.
    ExternalPortZeroInvalid,
    /// The requested mapping conflicts with a mapping assigned to another client.
    PortInUse,
    /// The gateway requires that the requested internal and external ports are the same.
    SamePortValuesRequired,
    /// The gateway only supports permanent leases (ie. a `lease_duration` of 0).
    OnlyPermanentLeasesSupported,
    /// The description was too long for the gateway to handle.
    DescriptionTooLong,
    /// Some other error occured performing the request.
    RequestError(RequestError),
}

impl AddPortError {
    /// Whether `text` is this error's message.
    pub open spec fn describes(self, text: Seq<char>) -> bool {
        match self {
            AddPortError::ActionNotAuthorized => text
                == "The client is not authorized to map this port."@,
            AddPortError::InternalPortZeroInvalid => text
                == "Can not add a mapping for local port 0"@,
            AddPortError::ExternalPortZeroInvalid => text
                == "External port number 0 (any port) is considered invalid by the gateway."@,
            AddPortError::PortInUse => text
                == "The requested mapping conflicts with a mapping assigned to another client."@,
            AddPortError::SamePortValuesRequired => text
                == "The gateway requires that the requested internal and external ports are the same."@,
            AddPortError::OnlyPermanentLeasesSupported => text
                == "The gateway only supports permanent leases (ie. a `lease_duration` of 0),"@,
            AddPortError::DescriptionTooLong => text
                == "The description was too long for the gateway to handle."@,
            AddPortError::RequestError(e) => exists|t: Seq<char>|
                #![trigger e.describes(t)]
                e.describes(t) && text == "Request error. "@ + t,
        }
    }

    /// The error's message.
    pub fn to_string(&self) -> (res: String)
        ensures
            self.describes(res@),
    {
        match self {
            AddPortError::ActionNotAuthorized => "The client is not authorized to map this port.".to_string(),
            AddPortError::InternalPortZeroInvalid => "Can not add a mapping for local port 0".to_string(),
            AddPortError::ExternalPortZeroInvalid => "External port number 0 (any port) is considered invalid by the gateway.".to_string(),
            AddPortError::PortInUse => "The requested mapping conflicts with a mapping assigned to another client.".to_string(),
            AddPortError::SamePortValuesRequired => "The gateway requires that the requested internal and external ports are the same.".to_string(),
            AddPortError::OnlyPermanentLeasesSupported => "The gateway only supports permanent leases (ie. a `lease_duration` of 0),".to_string(),
            AddPortError::DescriptionTooLong => "The description was too long for the gateway to handle.".to_string(),
            AddPortError::RequestError(e) => {
                let inner = e.to_string();
                concat("Request error. ", inner.as_str())
            },
        }
    }
}


/// Errors than can occur while trying to find the gateway.
#[derive(Debug)]
pub enum SearchError {
    /// Invalid response
    InvalidResponse,
    /// I/O error
    IoError(IoFailure),
    /// Utf-8 parsing error
    Utf8Error(std::str::Utf8Error),
    /// Xml parsing error
    XmlError(xmltree::ParseError),
    /// Reqwest error
    ReqwestError(ClientError),
    /// Invalid uri
    InvalidUri(url::ParseError),
    /// A URI that `http` refuses
    InvalidHttpUri(http::uri::InvalidUri),
    /// Uri is missing host
    UrlMissingHost(Url),
    /// IP spoofing error
    SpoofedIp {
        /// The IP from which packet was actually received
        src_ip: IpAddress,
        /// The IP which the receiving packet pretended to be from
        url_ip: IpAddress,
    },
    /// Url host spoofing error
    SpoofedUrl {
        /// The IP from which packet was actually received
        src_ip: IpAddress,
        /// The IP which the receiving packet pretended to be from
        url_host: String,
    },
    /// An HTTP exchange with the gateway failed
    HttpError(String),
}

impl SearchError {
    /// Whether `text` is this error's message.
    pub open spec fn describes(self, text: Seq<char>) -> bool {
        match self {
            SearchError::InvalidResponse => text == "Unable to process the response"@,
            SearchError::IoError(_) => introduced_by("IO Error: "@, text),
            SearchError::Utf8Error(_) => introduced_by("UTF-8 decoding error: "@, text),
            SearchError::XmlError(_) => introduced_by("XML processing error: "@, text),
            SearchError::ReqwestError(_) => introduced_by("Reqwest error: "@, text),
            SearchError::InvalidUri(_) => introduced_by("Error parsing URI: "@, text),
            SearchError::InvalidHttpUri(_) => introduced_by("Error parsing HTTP URI: "@, text),
            SearchError::UrlMissingHost(url) => text == "The uri is missing the host: "@ + url@.0,
            SearchError::SpoofedIp { src_ip, url_ip } => text == "Ip "@ + src_ip.text()
                + " spoofed as "@ + url_ip.text(),
            SearchError::SpoofedUrl { src_ip, url_host } => text == "Ip "@ + src_ip.text()
                + " spoofed in url as "@ + url_host@,
            SearchError::HttpError(s) => text == "HTTP error: "@ + s@,
        }
    }

    /// The error's message.
    pub fn to_string(&self) -> (res: String)
        ensures
            self.describes(res@),
    {
        match self {
            SearchError::InvalidResponse => "Unable to process the response".to_string(),
            SearchError::IoError(e) => with_prefix("IO Error: ", io_error_text(e)),
            SearchError::Utf8Error(e) => with_prefix("UTF-8 decoding error: ", utf8_error_text(e)),
            SearchError::XmlError(e) => with_prefix("XML processing error: ", xml_error_text(e)),
            SearchError::ReqwestError(e) => with_prefix("Reqwest error: ", reqwest_error_text(e)),
            SearchError::InvalidUri(e) => with_prefix("Error parsing URI: ", url_error_text(e)),
            SearchError::InvalidHttpUri(e) => with_prefix(
                "Error parsing HTTP URI: ",
                http_uri_error_text(e),
            ),
            SearchError::UrlMissingHost(url) => concat("The uri is missing the host: ", url.as_str()),
            SearchError::SpoofedIp { src_ip, url_ip } => {
                let mut t = concat("Ip ", src_ip.to_string().as_str());
                t.append(" spoofed as ");
                t.append(url_ip.to_string().as_str());
                t
            },
            SearchError::SpoofedUrl { src_ip, url_host } => {
                let mut t = concat("Ip ", src_ip.to_string().as_str());
                t.append(" spoofed in url as ");
                t.append(url_host.as_str());
                t
            },
            SearchError::HttpError(s) => concat("HTTP error: ", s.as_str()),
        }
    }
}

impl From<IoFailure> for SearchError {
    fn from(err: IoFailure) -> SearchError {
        SearchError::IoError(err)
    }
}

impl vstd::std_specs::convert::FromSpecImpl<IoFailure> for SearchError {
    open spec fn obeys_from_spec() -> bool {
        true
    }

    open spec fn from_spec(v: IoFailure) -> SearchError {
        SearchError::IoError(v)
    }
}

impl From<std::str::Utf8Error> for SearchError {
    fn from(err: std::str::Utf8Error) -> SearchError {
        SearchError::Utf8Error(err)
    }
}

impl vstd::std_specs::convert::FromSpecImpl<std::str::Utf8Error> for SearchError {
    open spec fn obeys_from_spec() -> bool {
        true
    }

    open spec fn from_spec(v: std::str::Utf8Error) -> SearchError {
        SearchError::Utf8Error(v)
    }
}

impl From<xmltree::ParseError> for SearchError {
    fn from(err: xmltree::ParseError) -> SearchError {
        SearchError::XmlError(err)
    }
}

impl vstd::std_specs::convert::FromSpecImpl<xmltree::ParseError> for SearchError {
    open spec fn obeys_from_spec() -> bool {
        true
    }

    open spec fn from_spec(v: xmltree::ParseError) -> SearchError {
        SearchError::XmlError(v)
    }
}

impl From<ClientError> for SearchError {
    fn from(err: ClientError) -> SearchError {
        SearchError::ReqwestError(err)
    }
}

impl vstd::std_specs::convert::FromSpecImpl<ClientError> for SearchError {
    open spec fn obeys_from_spec() -> bool {
        true
    }

    open spec fn from_spec(v: ClientError) -> SearchError {
        SearchError::ReqwestError(v)
    }
}

impl From<url::ParseError> for SearchError {
    fn from(err: url::ParseError) -> SearchError {
        SearchError::InvalidUri(err)
    }
}

impl vstd::std_specs::convert::FromSpecImpl<url::ParseError> for SearchError {
    open spec fn obeys_from_spec() -> bool {
        true
    }

    open spec fn from_spec(v: url::ParseError) -> SearchError {
        SearchError::InvalidUri(v)
    }
}

impl From<http::uri::InvalidUri> for SearchError {
    fn from(err: http::uri::InvalidUri) -> SearchError {
        SearchError::InvalidHttpUri(err)
    }
}

impl vstd::std_specs::convert::FromSpecImpl<http::uri::InvalidUri> for SearchError {
    open spec fn obeys_from_spec() -> bool {
        true
    }

    open spec fn from_spec(v: http::uri::InvalidUri) -> SearchError {
        SearchError::InvalidHttpUri(v)
    }
}

impl From<tokio::time::error::Elapsed> for SearchError {
    fn from(err: tokio::time::error::Elapsed) -> (res: SearchError)
        ensures
            res is IoError,
    {
        SearchError::IoError(new_io_error(IoErrorKind::TimedOut, "search timed out"))
    }
}

impl vstd::std_specs::convert::FromSpecImpl<tokio::time::error::Elapsed> for SearchError {
    open spec fn obeys_from_spec() -> bool {
        false
    }

    open spec fn from_spec(v: tokio::time::error::Elapsed) -> SearchError {
        arbitrary()
    }
}

/// Errors than can occur while getting a port mapping
#[derive(Debug)]
pub enum GetGenericPortMappingEntryError {
    /// The client is not authorized to perform the operation.
    ActionNotAuthorized,
    /// The specified array index is out of bounds.
    SpecifiedArrayIndexInvalid,
    /// Some other error occured performing the request.
    RequestError(RequestError),
}

impl GetGenericPortMappingEntryError {
    /// Whether `text` is this error's message.
    pub open spec fn describes(self, text: Seq<char>) -> bool {
        match self {
            GetGenericPortMappingEntryError::ActionNotAuthorized => text
                == "The client is not authorized to look up port mappings."@,
            GetGenericPortMappingEntryError::SpecifiedArrayIndexInvalid => text
                == "The provided index into the port mapping list is invalid."@,
            GetGenericPortMappingEntryError::RequestError(e) => e.describes(text),
        }
    }

    /// The error's message.
    pub fn to_string(&self) -> (res: String)
        ensures
            self.describes(res@),
    {
        match self {
            GetGenericPortMappingEntryError::ActionNotAuthorized => "The client is not authorized to look up port mappings.".to_string(),
            GetGenericPortMappingEntryError::SpecifiedArrayIndexInvalid => "The provided index into the port mapping list is invalid.".to_string(),
            GetGenericPortMappingEntryError::RequestError(e) => e.to_string(),
        }
    }
}

/// How a request error reads as a port-mapping lookup error: the gateway's
/// error code 606 refuses the client, 713 an index out of range.
pub open spec fn port_mapping_entry_error(err: RequestError) -> GetGenericPortMappingEntryError {
    match err {
        RequestError::ErrorCode(606, _) => GetGenericPortMappingEntryError::ActionNotAuthorized,
        RequestError::ErrorCode(713, _) => GetGenericPortMappingEntryError::SpecifiedArrayIndexInvalid,
        other => GetGenericPortMappingEntryError::RequestError(other),
    }
}

impl From<RequestError> for GetGenericPortMappingEntryError {
    fn from(err: RequestError) -> GetGenericPortMappingEntryError {
        match err {
            RequestError::ErrorCode(606, _) => GetGenericPortMappingEntryError::ActionNotAuthorized,
            RequestError::ErrorCode(713, _) => GetGenericPortMappingEntryError::SpecifiedArrayIndexInvalid,
            other => GetGenericPortMappingEntryError::RequestError(other),
        }
    }
}

impl vstd::std_specs::convert::FromSpecImpl<RequestError> for GetGenericPortMappingEntryError {
    open spec fn obeys_from_spec() -> bool {
        true
    }

    open spec fn from_spec(v: RequestError) -> GetGenericPortMappingEntryError {
        port_mapping_entry_error(v)
    }
}

/// An error type that emcompasses all possible errors.
#[derive(Debug)]
pub enum Error {
    /// `AddAnyPortError`
    AddAnyPortError(AddAnyPortError),
    /// `AddPortError`
    AddPortError(AddPortError),
    /// `GetExternalIpError`
    GetExternalIpError(GetExternalIpError),
    /// `RemovePortError`
    RemovePortError(RemovePortError),
    /// `RequestError`
    RequestError(RequestError),
    /// `SearchError`
    SearchError(SearchError),
}

/// A result type where the error is `igd::Error`.
pub type Result<T = ()> = std::result::Result<T, Error>;

impl Error {
    /// Whether `text` is this error's message: that of the error it wraps.
    pub open spec fn describes(self, text: Seq<char>) -> bool {
        match self {
            Error::AddAnyPortError(e) => e.describes(text),
            Error::AddPortError(e) => e.describes(text),
            Error::GetExternalIpError(e) => e.describes(text),
            Error::RemovePortError(e) => e.describes(text),
            Error::RequestError(e) => e.describes(text),
            Error::SearchError(e) => e.describes(text),
        }
    }

    /// The error's message: that of the error it wraps.
    pub fn to_string(&self) -> (res: String)
        ensures
            self.describes(res@),
    {
        match self {
            Error::AddAnyPortError(e) => e.to_string(),
            Error::AddPortError(e) => e.to_string(),
            Error::GetExternalIpError(e) => e.to_string(),
            Error::RemovePortError(e) => e.to_string(),
            Error::RequestError(e) => e.to_string(),
            Error::SearchError(e) => e.to_string(),
        }
    }
}

impl From<AddAnyPortError> for Error {
    fn from(err: AddAnyPortError) -> Error {
        Error::AddAnyPortError(err)
    }
}

impl vstd::std_specs::convert::FromSpecImpl<AddAnyPortError> for Error {
    open spec fn obeys_from_spec() -> bool {
        true
    }

    open spec fn from_spec(v: AddAnyPortError) -> Error {
        Error::AddAnyPortError(v)
    }
}

impl From<AddPortError> for Error {
    fn from(err: AddPortError) -> Error {
        Error::AddPortError(err)
    }
}

impl vstd::std_specs::convert::FromSpecImpl<AddPortError> for Error {
    open spec fn obeys_from_spec() -> bool {
        true
    }

    open spec fn from_spec(v: AddPortError) -> Error {
        Error::AddPortError(v)
    }
}

impl From<GetExternalIpError> for Error {
    fn from(err: GetExternalIpError) -> Error {
        Error::GetExternalIpError(err)
    }
}

impl vstd::std_specs::convert::FromSpecImpl<GetExternalIpError> for Error {
    open spec fn obeys_from_spec() -> bool {
        true
    }

    open spec fn from_spec(v: GetExternalIpError) -> Error {
        Error::GetExternalIpError(v)
    }
}

impl From<RemovePortError> for Error {
    fn from(err: RemovePortError) -> Error {
        Error::RemovePortError(err)
    }
}

impl vstd::std_specs::convert::FromSpecImpl<RemovePortError> for Error {
    open spec fn obeys_from_spec() -> bool {
        true
    }

    open spec fn from_spec(v: RemovePortError) -> Error {
        Error::RemovePortError(v)
    }
}

impl From<RequestError> for Error {
    fn from(err: RequestError) -> Error {
        Error::RequestError(err)
    }
}

impl vstd::std_specs::convert::FromSpecImpl<RequestError> for Error {
    open spec fn obeys_from_spec() -> bool {
        true
    }

    open spec fn from_spec(v: RequestError) -> Error {
        Error::RequestError(v)
    }
}

impl From<SearchError> for Error {
    fn from(err: SearchError) -> Error {
        Error::SearchError(err)
    }
}

impl vstd::std_specs::convert::FromSpecImpl<SearchError> for Error {
    open spec fn obeys_from_spec() -> bool {
        true
    }

    open spec fn from_spec(v: SearchError) -> Error {
        Error::SearchError(v)
    }
}


/// A request error other than the gateway codes 606 and 713 passes through
/// the conversion to a port-mapping lookup error unchanged, message and all.
pub proof fn lemma_port_mapping_error_passes_others(err: RequestError, text: Seq<char>)
    requires
        !(err matches RequestError::ErrorCode(code, _) && (code == 606 || code == 713)),
    ensures
        port_mapping_entry_error(err) == GetGenericPortMappingEntryError::RequestError(err),
        port_mapping_entry_error(err).describes(text) == err.describes(text),
{
}

/// A port-mapping lookup error that wraps a request error reads exactly as
/// that request error: no prefix, no suffix.
pub proof fn lemma_port_mapping_wrapper_adds_nothing(err: RequestError, text: Seq<char>)
    ensures
        GetGenericPortMappingEntryError::RequestError(err).describes(text) == err.describes(text),
{
}

/// `Error::from` puts each error, unchanged, in the variant named after its
/// type, and the result reads exactly as the error it holds.
pub proof fn lemma_error_from_keeps_error(
    a: AddAnyPortError,
    b: AddPortError,
    c: GetExternalIpError,
    d: RemovePortError,
    e: RequestError,
    f: SearchError,
    text: Seq<char>,
)
    ensures
        <Error as vstd::std_specs::convert::FromSpec<AddAnyPortError>>::obeys_from_spec(),
        <Error as vstd::std_specs::convert::FromSpec<AddAnyPortError>>::from_spec(a)
            == Error::AddAnyPortError(a),
        Error::AddAnyPortError(a).describes(text) == a.describes(text),
        <Error as vstd::std_specs::convert::FromSpec<AddPortError>>::obeys_from_spec(),
        <Error as vstd::std_specs::convert::FromSpec<AddPortError>>::from_spec(b)
            == Error::AddPortError(b),
        Error::AddPortError(b).describes(text) == b.describes(text),
        <Error as vstd::std_specs::convert::FromSpec<GetExternalIpError>>::obeys_from_spec(),
        <Error as vstd::std_specs::convert::FromSpec<GetExternalIpError>>::from_spec(c)
            == Error::GetExternalIpError(c),
        Error::GetExternalIpError(c).describes(text) == c.describes(text),
        <Error as vstd::std_specs::convert::FromSpec<RemovePortError>>::obeys_from_spec(),
        <Error as vstd::std_specs::convert::FromSpec<RemovePortError>>::from_spec(d)
            == Error::RemovePortError(d),
        Error::RemovePortError(d).describes(text) == d.describes(text),
        <Error as vstd::std_specs::convert::FromSpec<RequestError>>::obeys_from_spec(),
        <Error as vstd::std_specs::convert::FromSpec<RequestError>>::from_spec(e)
            == Error::RequestError(e),
        Error::RequestError(e).describes(text) == e.describes(text),
        <Error as vstd::std_specs::convert::FromSpec<SearchError>>::obeys_from_spec(),
        <Error as vstd::std_specs::convert::FromSpec<SearchError>>::from_spec(f)
            == Error::SearchError(f),
        Error::SearchError(f).describes(text) == f.describes(text),
{
}


/// Converting an outside error into a `RequestError` wraps it, unchanged, in
/// the variant for its kind.
pub proof fn lemma_request_error_conversions(
    io: IoFailure,
    client: ClientError,
    utf8: std::string::FromUtf8Error,
)
    ensures
        <RequestError as vstd::std_specs::convert::FromSpec<IoFailure>>::obeys_from_spec(),
        <RequestError as vstd::std_specs::convert::FromSpec<IoFailure>>::from_spec(io) == RequestError::IoError(io),
        <RequestError as vstd::std_specs::convert::FromSpec<ClientError>>::obeys_from_spec(),
        <RequestError as vstd::std_specs::convert::FromSpec<ClientError>>::from_spec(client) == RequestError::ReqwestError(client),
        <RequestError as vstd::std_specs::convert::FromSpec<std::string::FromUtf8Error>>::obeys_from_spec(),
        <RequestError as vstd::std_specs::convert::FromSpec<std::string::FromUtf8Error>>::from_spec(utf8) == RequestError::Utf8Error(utf8),
{
}

/// Converting a request error into an `AddAnyPortError` wraps it unchanged,
/// whatever it is (a gateway error code included); converting a
/// `GetExternalIpError` keeps a refusal a refusal and a request error the
/// same request error. An I/O error becomes a `GetExternalIpError` that wraps
/// it as a request error.
pub proof fn lemma_port_error_conversions(e: RequestError, g: GetExternalIpError, io: IoFailure)
    ensures
        <AddAnyPortError as vstd::std_specs::convert::FromSpec<RequestError>>::obeys_from_spec(),
        <AddAnyPortError as vstd::std_specs::convert::FromSpec<RequestError>>::from_spec(e) == AddAnyPortError::RequestError(e),
        <AddAnyPortError as vstd::std_specs::convert::FromSpec<GetExternalIpError>>::obeys_from_spec(),
        <AddAnyPortError as vstd::std_specs::convert::FromSpec<GetExternalIpError>>::from_spec(g) == match g {
            GetExternalIpError::ActionNotAuthorized => AddAnyPortError::ActionNotAuthorized,
            GetExternalIpError::RequestError(r) => AddAnyPortError::RequestError(r),
        },
        <GetExternalIpError as vstd::std_specs::convert::FromSpec<IoFailure>>::obeys_from_spec(),
        <GetExternalIpError as vstd::std_specs::convert::FromSpec<IoFailure>>::from_spec(io) == GetExternalIpError::RequestError(RequestError::IoError(io)),
{
}

/// Converting an outside error into a `SearchError` wraps it, unchanged, in
/// the variant for its kind.
pub proof fn lemma_search_error_conversions(
    io: IoFailure,
    utf8: std::str::Utf8Error,
    xml: xmltree::ParseError,
    client: ClientError,
    url: url::ParseError,
    uri: http::uri::InvalidUri,
)
    ensures
        <SearchError as vstd::std_specs::convert::FromSpec<IoFailure>>::obeys_from_spec(),
        <SearchError as vstd::std_specs::convert::FromSpec<IoFailure>>::from_spec(io) == SearchError::IoError(io),
        <SearchError as vstd::std_specs::convert::FromSpec<std::str::Utf8Error>>::obeys_from_spec(),
        <SearchError as vstd::std_specs::convert::FromSpec<std::str::Utf8Error>>::from_spec(utf8) == SearchError::Utf8Error(utf8),
        <SearchError as vstd::std_specs::convert::FromSpec<xmltree::ParseError>>::obeys_from_spec(),
        <SearchError as vstd::std_specs::convert::FromSpec<xmltree::ParseError>>::from_spec(xml) == SearchError::XmlError(xml),
        <SearchError as vstd::std_specs::convert::FromSpec<ClientError>>::obeys_from_spec(),
        <SearchError as vstd::std_specs::convert::FromSpec<ClientError>>::from_spec(client) == SearchError::ReqwestError(client),
        <SearchError as vstd::std_specs::convert::FromSpec<url::ParseError>>::obeys_from_spec(),
        <SearchError as vstd::std_specs::convert::FromSpec<url::ParseError>>::from_spec(url) == SearchError::InvalidUri(url),
        <SearchError as vstd::std_specs::convert::FromSpec<http::uri::InvalidUri>>::obeys_from_spec(),
        <SearchError as vstd::std_specs::convert::FromSpec<http::uri::InvalidUri>>::from_spec(uri) == SearchError::InvalidHttpUri(uri),
{
}

/// Converting a request error into a port-mapping lookup error: the gateway
/// code 606 (with any description) is a refusal, 713 an index out of range,
/// and every other error is wrapped unchanged.
pub proof fn lemma_port_mapping_conversion(e: RequestError)
    ensures
        <GetGenericPortMappingEntryError as vstd::std_specs::convert::FromSpec<RequestError>>::obeys_from_spec(),
        (e matches RequestError::ErrorCode(code, _) && code == 606) ==> <GetGenericPortMappingEntryError as vstd::std_specs::convert::FromSpec<RequestError>>::from_spec(e)
            == GetGenericPortMappingEntryError::ActionNotAuthorized,
        (e matches RequestError::ErrorCode(code, _) && code == 713) ==> <GetGenericPortMappingEntryError as vstd::std_specs::convert::FromSpec<RequestError>>::from_spec(e)
            == GetGenericPortMappingEntryError::SpecifiedArrayIndexInvalid,
        !(e matches RequestError::ErrorCode(code, _) && (code == 606 || code == 713)) ==> <GetGenericPortMappingEntryError as vstd::std_specs::convert::FromSpec<RequestError>>::from_spec(e)
            == GetGenericPortMappingEntryError::RequestError(e),
{
}

} // verus!
