use igd::{
    AddAnyPortError, AddPortError, Error, GetExternalIpError, GetGenericPortMappingEntryError, IpAddress,
    RemovePortError, RequestError, SearchError, Url,
};

#[test]
fn request_error_messages() {
    assert_eq!(
        RequestError::InvalidResponse("x".to_string()).to_string(),
        "The response from the gateway could not be parsed: 'x'"
    );
    assert_eq!(
        RequestError::ErrorCode(718, "ConflictInMappingEntry".to_string()).to_string(),
        "The gateway returned an unhandled error code 718 and description: ConflictInMappingEntry"
    );
    assert_eq!(
        RequestError::UnsupportedAction("AddPortMapping".to_string()).to_string(),
        "Action is not supported by the gateway: AddPortMapping"
    );
    let io = std::io::Error::new(std::io::ErrorKind::Other, "boom");
    assert_eq!(RequestError::from(io).to_string(), "IO Error: boom");
}

#[test]
fn timeouts_become_io_errors() {
    let rt = tokio::runtime::Builder::new_current_thread().enable_time().build().unwrap();
    let elapsed = rt
        .block_on(async { tokio::time::timeout(std::time::Duration::from_millis(1), std::future::pending::<()>()).await })
        .unwrap_err();
    assert_eq!(RequestError::from(elapsed).to_string(), "IO Error: timer failed");
    let elapsed = rt
        .block_on(async { tokio::time::timeout(std::time::Duration::from_millis(1), std::future::pending::<()>()).await })
        .unwrap_err();
    assert_eq!(SearchError::from(elapsed).to_string(), "IO Error: search timed out");
}

#[test]
fn port_error_messages() {
    assert_eq!(
        GetExternalIpError::ActionNotAuthorized.to_string(),
        "The client is not authorized to get the external IP address"
    );
    assert_eq!(AddAnyPortError::ActionNotAuthorized.to_string(), "The client is not authorized to map a port");
    assert_eq!(
        GetExternalIpError::RequestError(RequestError::UnsupportedAction("a".to_string())).to_string(),
        "Request Error. Action is not supported by the gateway: a"
    );
    assert_eq!(RemovePortError::NoSuchPortMapping.to_string(), "The port was not mapped");
    assert_eq!(
        RemovePortError::RequestError(RequestError::InvalidResponse("r".to_string())).to_string(),
        "Request error. The response from the gateway could not be parsed: 'r'"
    );
    assert_eq!(
        AddAnyPortError::OnlyPermanentLeasesSupported.to_string(),
        "The gateway only supports permanent leases (ie. a `lease_duration` of 0),"
    );
    assert_eq!(
        AddAnyPortError::ExternalPortInUse.to_string(),
        "The gateway can only map internal ports to same-numbered external ports and this external port is in use."
    );
    assert_eq!(AddPortError::ActionNotAuthorized.to_string(), "The client is not authorized to map this port.");
    assert_eq!(
        AddPortError::SamePortValuesRequired.to_string(),
        "The gateway requires that the requested internal and external ports are the same."
    );
    assert_eq!(
        AddPortError::ExternalPortZeroInvalid.to_string(),
        "External port number 0 (any port) is considered invalid by the gateway."
    );
}

#[test]
fn search_error_messages() {
    assert_eq!(SearchError::InvalidResponse.to_string(), "Unable to process the response");
    let e = SearchError::SpoofedIp { src_ip: IpAddress::V4([127, 0, 0, 1]), url_ip: IpAddress::V4([1, 2, 3, 4]) };
    assert_eq!(e.to_string(), "Ip 127.0.0.1 spoofed as 1.2.3.4");
    let e = SearchError::SpoofedUrl { src_ip: IpAddress::V4([127, 0, 0, 1]), url_host: "example.com".to_string() };
    assert_eq!(e.to_string(), "Ip 127.0.0.1 spoofed in url as example.com");
    let e = SearchError::UrlMissingHost(Url::parse("data:text/plain,Stuff").unwrap());
    assert_eq!(e.to_string(), "The uri is missing the host: data:text/plain,Stuff");
    let e = SearchError::from(url::ParseError::EmptyHost);
    assert!(matches!(e, SearchError::InvalidUri(url::ParseError::EmptyHost)));
    assert_eq!(e.to_string(), "Error parsing URI: empty host");
    assert_eq!(SearchError::HttpError("length limit exceeded".to_string()).to_string(), "HTTP error: length limit exceeded");
    let bad: Result<http::Uri, _> = "/a b".parse();
    let e = SearchError::from(bad.unwrap_err());
    assert!(matches!(e, SearchError::InvalidHttpUri(_)));
    assert!(e.to_string().starts_with("Error parsing HTTP URI: "));
}

#[test]
fn port_mapping_codes() {
    let e = GetGenericPortMappingEntryError::from(RequestError::ErrorCode(606, "x".to_string()));
    assert!(matches!(e, GetGenericPortMappingEntryError::ActionNotAuthorized));
    assert_eq!(e.to_string(), "The client is not authorized to look up port mappings.");
    let e = GetGenericPortMappingEntryError::from(RequestError::ErrorCode(713, "x".to_string()));
    assert!(matches!(e, GetGenericPortMappingEntryError::SpecifiedArrayIndexInvalid));
    assert_eq!(e.to_string(), "The provided index into the port mapping list is invalid.");
    let e = GetGenericPortMappingEntryError::RequestError(RequestError::ErrorCode(501, "ActionFailed".to_string()));
    assert_eq!(e.to_string(), "The gateway returned an unhandled error code 501 and description: ActionFailed");
    let e = GetGenericPortMappingEntryError::from(RequestError::ErrorCode(714, "NoSuchEntryInArray".to_string()));
    assert!(matches!(e, GetGenericPortMappingEntryError::RequestError(RequestError::ErrorCode(714, _))));
    assert_eq!(
        e.to_string(),
        "The gateway returned an unhandled error code 714 and description: NoSuchEntryInArray"
    );
}

#[test]
fn conversions_between_errors() {
    let e = AddAnyPortError::from(GetExternalIpError::ActionNotAuthorized);
    assert!(matches!(e, AddAnyPortError::ActionNotAuthorized));
    let e = AddAnyPortError::from(GetExternalIpError::RequestError(RequestError::ErrorCode(1, String::new())));
    assert!(matches!(e, AddAnyPortError::RequestError(RequestError::ErrorCode(1, _))));
    let e = AddAnyPortError::from(RequestError::UnsupportedAction("u".to_string()));
    assert!(matches!(e, AddAnyPortError::RequestError(RequestError::UnsupportedAction(_))));
    let e = GetExternalIpError::from(std::io::Error::new(std::io::ErrorKind::Other, "x"));
    assert!(matches!(e, GetExternalIpError::RequestError(RequestError::IoError(_))));
}

#[test]
fn error_reads_as_the_error_it_wraps() {
    let e = Error::from(AddPortError::PortInUse);
    assert_eq!(e.to_string(), "The requested mapping conflicts with a mapping assigned to another client.");
    let e = Error::from(SearchError::InvalidResponse);
    assert_eq!(e.to_string(), "Unable to process the response");
    let e = Error::from(RemovePortError::ActionNotAuthorized);
    assert_eq!(e.to_string(), "The client is not authorized to remove the port");
    let e = Error::from(RequestError::ErrorCode(500, "Internal".to_string()));
    assert_eq!(e.to_string(), "The gateway returned an unhandled error code 500 and description: Internal");
    assert!(matches!(Error::from(AddAnyPortError::NoPortsAvailable), Error::AddAnyPortError(_)));
    assert_eq!(Error::from(AddAnyPortError::ActionNotAuthorized).to_string(), "The client is not authorized to map a port");
    assert_eq!(
        Error::from(GetExternalIpError::ActionNotAuthorized).to_string(),
        "The client is not authorized to get the external IP address"
    );
    assert!(matches!(Error::from(GetExternalIpError::ActionNotAuthorized), Error::GetExternalIpError(_)));
}
