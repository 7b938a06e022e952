use igd::aio::search::{check_response_status, MAX_HTTP_RESPONSE_SIZE, MAX_RESPONSE_SIZE};
use igd::aio::soap::{SoapRequest, HEADER_NAME};
use igd::{random_port, Action, SearchError};

#[test]
fn soap_request_headers() {
    let body = "<s:Envelope>é</s:Envelope>";
    let r = SoapRequest::new("http://192.168.1.1:5000/ctl", Action::new("urn:x#GetExternalIPAddress"), body);
    assert_eq!(r.url, "http://192.168.1.1:5000/ctl");
    assert_eq!(r.soap_action, "urn:x#GetExternalIPAddress");
    assert_eq!(r.content_type, "text/xml");
    assert_eq!(r.content_length, body.len() as u64);
    assert_eq!(r.content_length, 27);
    assert_eq!(r.body, body);
    assert_eq!(HEADER_NAME, "SOAPAction");
}

#[test]
fn action_clone_keeps_name() {
    let a = Action::new("urn:x#AddPortMapping");
    let r = SoapRequest::new("u", a.clone(), "");
    assert_eq!(r.soap_action, "urn:x#AddPortMapping");
    assert_eq!(r.content_length, 0);
}

#[test]
fn response_status() {
    assert!(check_response_status(200).is_ok());
    match check_response_status(404) {
        Err(SearchError::HttpError(m)) => assert_eq!(m, "unexpected status: 404 Not Found"),
        other => panic!("Unexpected result: {other:?}"),
    }
    match check_response_status(599) {
        Err(SearchError::HttpError(m)) => assert_eq!(m, "unexpected status: 599 <unknown status code>"),
        other => panic!("Unexpected result: {other:?}"),
    }
    assert!(check_response_status(204).is_err());
}

#[test]
fn response_limits() {
    assert_eq!(MAX_HTTP_RESPONSE_SIZE, 262144);
    assert_eq!(MAX_RESPONSE_SIZE, 1500);
}

#[test]
fn random_ports_in_dynamic_range() {
    for _ in 0..1000 {
        let p = random_port();
        assert!((32768..65535).contains(&p));
    }
}
