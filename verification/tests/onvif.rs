use rioting::onvif::{
    capabilities_body, device_service_address, find_xaddr, OnvifClient, ENVELOPE_CLOSE, ENVELOPE_OPEN,
};
use rioting::xml::XmlNode;
use rioting::{CameraConfig, RiotingError, Vendor};

const SCHEMA: &str = "http://www.onvif.org/ver10/schema";

fn config(ip: &str, port: u16) -> CameraConfig {
    CameraConfig {
        name: "porch".to_string(),
        ip: ip.to_string(),
        user: "admin".to_string(),
        password: "secret".to_string(),
        vendor: Vendor::Tapo,
        onvif_port: port,
    }
}

fn node(id: usize, parent: Option<usize>, name: &str, ns: Option<&str>, text: Option<&str>) -> XmlNode {
    XmlNode {
        id,
        parent,
        name: name.to_string(),
        namespace: ns.map(String::from),
        text: text.map(String::from),
    }
}

const REPLY: &str = r#"<?xml version="1.0" encoding="UTF-8"?>
<env:Envelope xmlns:env="http://www.w3.org/2003/05/soap-envelope"
  xmlns:tds="http://www.onvif.org/ver10/device/wsdl" xmlns:tt="http://www.onvif.org/ver10/schema">
<env:Body><tds:GetCapabilitiesResponse><tds:Capabilities>
<tt:Device><tt:XAddr>http://192.168.1.5:2020/onvif/device_service</tt:XAddr></tt:Device>
<tt:Media><tt:XAddr>http://192.168.1.5:2020/onvif/media</tt:XAddr></tt:Media>
<tt:PTZ><tt:XAddr>http://192.168.1.5:2020/onvif/ptz</tt:XAddr></tt:PTZ>
</tds:Capabilities></tds:GetCapabilitiesResponse></env:Body></env:Envelope>"#;

#[test]
fn device_service_address_text() {
    assert_eq!(device_service_address("192.168.1.5", 2020), "http://192.168.1.5:2020/onvif/device_service");
    assert_eq!(device_service_address("cam", 0), "http://cam:0/onvif/device_service");
    assert_eq!(device_service_address("cam", 65535), "http://cam:65535/onvif/device_service");
    assert_eq!(device_service_address("cam", 8000), "http://cam:8000/onvif/device_service");
}

#[test]
fn capabilities_request_url_is_parsed() {
    let req = OnvifClient::capabilities_request(&config("192.168.1.5", 2020)).unwrap();
    assert_eq!(req.url, "http://192.168.1.5:2020/onvif/device_service");
    // `url` normalizes: the host is lower-cased and the default HTTP port dropped.
    let req = OnvifClient::capabilities_request(&config("Camera.LOCAL", 80)).unwrap();
    assert_eq!(req.url, "http://camera.local/onvif/device_service");
}

#[test]
fn capabilities_request_refused_for_bad_host() {
    let r = OnvifClient::capabilities_request(&config("bad host", 2020));
    assert!(matches!(r, Err(RiotingError::InvalidUrl(_))));
    let r = OnvifClient::capabilities_request(&config("", 2020));
    assert!(matches!(r, Err(RiotingError::InvalidUrl(url::ParseError::EmptyHost))));
}

#[test]
fn capabilities_body_wraps_header() {
    let body = capabilities_body("<H/>");
    let expected = "\n            <s:Envelope xmlns:s=\"http://www.w3.org/2003/05/soap-envelope\">\n                <s:Header><H/></s:Header>\n                <s:Body>\n                <tds:GetCapabilities xmlns:tds=\"http://www.onvif.org/ver10/device/wsdl\">\n                    <tds:Category>All</tds:Category>\n                </tds:GetCapabilities>\n                </s:Body>\n            </s:Envelope>\n            ";
    assert_eq!(body, expected);
}

#[test]
fn capabilities_request_body_is_signed_envelope() {
    let req = OnvifClient::capabilities_request(&config("192.168.1.5", 2020)).unwrap();
    assert!(req.body.starts_with(ENVELOPE_OPEN));
    assert!(req.body.ends_with(ENVELOPE_CLOSE));
    assert!(req.body.contains("<wsse:Username>admin</wsse:Username>"));
    assert!(!req.body.contains("secret"));
}

#[test]
fn find_xaddr_first_service_child() {
    let nodes = vec![
        node(0, None, "", None, None),
        node(1, Some(0), "Media", Some(SCHEMA), None),
        node(2, Some(1), "Other", Some(SCHEMA), Some("x")),
        node(3, Some(1), "XAddr", Some(SCHEMA), Some("http://m/1")),
        node(4, Some(1), "XAddr", Some(SCHEMA), Some("http://m/2")),
        node(5, Some(0), "Media", Some(SCHEMA), None),
        node(6, Some(5), "XAddr", Some(SCHEMA), Some("http://m/3")),
    ];
    assert_eq!(find_xaddr(&nodes, "Media").unwrap(), "http://m/1");
}

#[test]
fn find_xaddr_requires_schema_namespace() {
    let nodes = vec![
        node(0, None, "", None, None),
        node(1, Some(0), "PTZ", Some("urn:other"), None),
        node(2, Some(1), "XAddr", Some(SCHEMA), Some("http://wrong")),
        node(3, Some(0), "PTZ", Some(SCHEMA), None),
        node(4, Some(3), "XAddr", None, Some("http://no-ns")),
        node(5, Some(3), "XAddr", Some(SCHEMA), Some("http://p")),
    ];
    assert_eq!(find_xaddr(&nodes, "PTZ").unwrap(), "http://p");
}

#[test]
fn find_xaddr_missing_cases() {
    // No service element at all.
    let nodes = vec![node(0, None, "", None, None)];
    assert!(matches!(find_xaddr(&nodes, "Media"), Err(RiotingError::MissingXAddr(s)) if s == "Media"));
    // The first service element has no XAddr child; a later one does not count.
    let nodes = vec![
        node(0, None, "", None, None),
        node(1, Some(0), "Media", Some(SCHEMA), None),
        node(2, Some(1), "Inner", Some(SCHEMA), None),
        node(3, Some(2), "XAddr", Some(SCHEMA), Some("http://grandchild")),
        node(4, Some(0), "Media", Some(SCHEMA), None),
        node(5, Some(4), "XAddr", Some(SCHEMA), Some("http://later")),
    ];
    assert!(matches!(find_xaddr(&nodes, "Media"), Err(RiotingError::MissingXAddr(s)) if s == "Media"));
    // The XAddr child has no text.
    let nodes = vec![
        node(0, None, "", None, None),
        node(1, Some(0), "PTZ", Some(SCHEMA), None),
        node(2, Some(1), "XAddr", Some(SCHEMA), None),
    ];
    assert!(matches!(find_xaddr(&nodes, "PTZ"), Err(RiotingError::MissingXAddr(s)) if s == "PTZ"));
}

#[test]
fn client_from_reply() {
    let client = OnvifClient::from_capabilities_response(reqwest::Client::new(), config("192.168.1.5", 2020), REPLY)
        .unwrap();
    assert_eq!(client.media_service_url(), "http://192.168.1.5:2020/onvif/media");
    assert_eq!(client.ptz_service_url(), "http://192.168.1.5:2020/onvif/ptz");
    assert_eq!(client.camera_config().ip, "192.168.1.5");
}

#[test]
fn client_from_reply_without_ptz() {
    let reply = REPLY.replace("<tt:PTZ><tt:XAddr>http://192.168.1.5:2020/onvif/ptz</tt:XAddr></tt:PTZ>", "");
    let r = OnvifClient::from_capabilities_response(reqwest::Client::new(), config("a", 1), &reply);
    assert!(matches!(r, Err(RiotingError::MissingXAddr(s)) if s == "PTZ"));
}

#[test]
fn client_from_reply_without_services() {
    let r = OnvifClient::from_capabilities_response(reqwest::Client::new(), config("a", 1), "<e/>");
    assert!(matches!(r, Err(RiotingError::MissingXAddr(s)) if s == "Media"));
}

#[test]
fn client_from_reply_not_xml() {
    let r = OnvifClient::from_capabilities_response(reqwest::Client::new(), config("a", 1), "<unclosed>");
    assert!(matches!(r, Err(RiotingError::InvalidXml(_))));
}

#[test]
fn missing_address_message() {
    let r = OnvifClient::from_capabilities_response(
        reqwest::Client::new(),
        config("a", 1),
        "<c><Media><XAddr>http://m</XAddr></Media></c>",
    );
    assert_eq!(r.err().unwrap().message(), "No XAddr found for service: Media");
    let reply = REPLY.replace(
        "<tt:PTZ><tt:XAddr>http://192.168.1.5:2020/onvif/ptz</tt:XAddr></tt:PTZ>",
        "<tt:PTZ><x><tt:XAddr>http://p</tt:XAddr></x></tt:PTZ>",
    );
    let r = OnvifClient::from_capabilities_response(reqwest::Client::new(), config("a", 1), &reply);
    assert_eq!(r.err().unwrap().message(), "No XAddr found for service: PTZ");
    assert_eq!(RiotingError::MissingXAddr("X".to_string()).message(), "No XAddr found for service: X");
}

#[test]
fn parser_error_messages() {
    let e = OnvifClient::capabilities_request(&config("", 2020)).err().unwrap();
    assert_eq!(e.message(), "empty host");
    let e = OnvifClient::from_capabilities_response(reqwest::Client::new(), config("a", 1), "<unclosed>")
        .err()
        .unwrap();
    assert!(!e.message().is_empty());
}

#[test]
fn client_from_nodes() {
    let nodes = vec![
        node(0, None, "", None, None),
        node(1, Some(0), "PTZ", Some(SCHEMA), None),
        node(2, Some(1), "XAddr", Some(SCHEMA), Some("http://p")),
        node(3, Some(0), "Media", Some(SCHEMA), None),
        node(4, Some(3), "XAddr", Some(SCHEMA), Some("http://m")),
    ];
    let c = OnvifClient::from_service_nodes(reqwest::Client::new(), config("a", 1), &nodes).unwrap();
    assert_eq!(c.media_service_url(), "http://m");
    assert_eq!(c.ptz_service_url(), "http://p");
    let r = OnvifClient::from_service_nodes(reqwest::Client::new(), config("a", 1), &nodes[..3].to_vec());
    assert!(matches!(r, Err(RiotingError::MissingXAddr(s)) if s == "Media"));
}
