//! ONVIF service discovery: the `GetCapabilities` request sent to a camera's device
//! service and the reading of the service addresses (`XAddr`) from its reply.

use vstd::prelude::*;

use crate::config::CameraConfig;
use crate::error::RiotingError;
use crate::text::{append_decimal, decimal};
use crate::urls::{parse_url, url_serialization};
use crate::fresh::{ClockTime, FreshNonce};
use crate::wsse::{build_auth_header, signed_with};
use crate::xml::{nodes_view, parse_xml, xml_document_nodes, XmlNode, XmlNodeView};

verus! {

#[verifier::external_type_specification]
#[verifier::external_body]
pub struct ExHttpClient(reqwest::Client);

/// SOAP 1.2 envelope namespace.
pub const NS_SOAP: &'static str = "http://www.w3.org/2003/05/soap-envelope";

/// ONVIF device service namespace.
pub const NS_DEVICE: &'static str = "http://www.onvif.org/ver10/device/wsdl";

/// ONVIF schema namespace, in which service entries and their `XAddr` live.
pub const NS_SCHEMA: &'static str = "http://www.onvif.org/ver10/schema";

/// Tag of a service address element.
pub const XADDR: &'static str = "XAddr";

/// Capability entry of the media service.
pub const MEDIA_SERVICE: &'static str = "Media";

/// Capability entry of the PTZ service.
pub const PTZ_SERVICE: &'static str = "PTZ";

/// Envelope text up to the SOAP namespace.
pub const ENVELOPE_OPEN: &'static str = "\n            <s:Envelope xmlns:s=\"";

/// Envelope text between the SOAP namespace and the security header.
pub const ENVELOPE_BEFORE_HEADER: &'static str = "\">\n                <s:Header>";

/// Envelope text between the security header and the device namespace.
pub const ENVELOPE_BEFORE_DEVICE_NS: &'static str = "</s:Header>\n                <s:Body>\n                <tds:GetCapabilities xmlns:tds=\"";

/// Envelope text after the device namespace.
pub const ENVELOPE_CLOSE: &'static str = "\">\n                    <tds:Category>All</tds:Category>\n                </tds:GetCapabilities>\n                </s:Body>\n            </s:Envelope>\n            ";

/// `http://<ip>:<port>/onvif/device_service`: the device (management) service,
/// at the path that ONVIF Core fixes for it.
pub open spec fn device_service_text(ip: Seq<char>, port: nat) -> Seq<char> {
    "http://"@ + ip + ":"@ + decimal(port) + "/onvif/device_service"@
}

/// The SOAP envelope of a `GetCapabilities` request for all categories, carrying the
/// given security header.
pub open spec fn capabilities_body_text(auth_header: Seq<char>) -> Seq<char> {
    ENVELOPE_OPEN@ + NS_SOAP@ + ENVELOPE_BEFORE_HEADER@ + auth_header + ENVELOPE_BEFORE_DEVICE_NS@
        + NS_DEVICE@ + ENVELOPE_CLOSE@
}

/// The node is an element of the ONVIF schema namespace with the given local name.
pub open spec fn is_schema_element(n: XmlNodeView, name: Seq<char>) -> bool {
    n.name == name && n.namespace == Some(NS_SCHEMA@)
}

/// The node is an `XAddr` element of the schema namespace whose parent has the id.
pub open spec fn is_xaddr_child(n: XmlNodeView, parent: usize) -> bool {
    is_schema_element(n, XADDR@) && n.parent == Some(parent)
}

/// `i` is the first node, in document order, that is the schema element `service`.
pub open spec fn is_first_service(nodes: Seq<XmlNodeView>, i: int, service: Seq<char>) -> bool {
    &&& 0 <= i < nodes.len()
    &&& is_schema_element(nodes[i], service)
    &&& forall|k: int| 0 <= k < i ==> !is_schema_element(#[trigger] nodes[k], service)
}

/// `j` is the first node, in document order, that is an `XAddr` child of `parent`.
pub open spec fn is_first_xaddr_child(nodes: Seq<XmlNodeView>, j: int, parent: usize) -> bool {
    &&& 0 <= j < nodes.len()
    &&& is_xaddr_child(nodes[j], parent)
    &&& forall|k: int| 0 <= k < j ==> !is_xaddr_child(#[trigger] nodes[k], parent)
}

/// The address of a service in a capabilities document: the text of the first
/// `XAddr` child of the first schema element named `service`; `None` where there is
/// no such element, it has no such child, or that child has no text.
pub open spec fn xaddr_of(nodes: Seq<XmlNodeView>, service: Seq<char>) -> Option<Seq<char>> {
    if exists|i: int| is_first_service(nodes, i, service) {
        let i = choose|i: int| is_first_service(nodes, i, service);
        if exists|j: int| is_first_xaddr_child(nodes, j, nodes[i].id) {
            let j = choose|j: int| is_first_xaddr_child(nodes, j, nodes[i].id);
            nodes[j].text
        } else {
            None
        }
    } else {
        None
    }
}

/// A service address is only ever read from an `XAddr` element of the schema
/// namespace that is a child of a schema element named after the service, and it is
/// that element's text.
pub proof fn lemma_xaddr_announced(nodes: Seq<XmlNodeView>, service: Seq<char>)
    requires
        xaddr_of(nodes, service) is Some,
    ensures
        exists|i: int, j: int|
            0 <= i < nodes.len() && 0 <= j < nodes.len() && is_schema_element(
                #[trigger] nodes[i],
                service,
            ) && is_xaddr_child(#[trigger] nodes[j], nodes[i].id) && nodes[j].text == xaddr_of(
                nodes,
                service,
            ),
{
    let i = choose|i: int| is_first_service(nodes, i, service);
    let j = choose|j: int| is_first_xaddr_child(nodes, j, nodes[i].id);
    assert(is_schema_element(nodes[i], service) && is_xaddr_child(nodes[j], nodes[i].id));
}

proof fn lemma_first_service_unique(nodes: Seq<XmlNodeView>, i: int, i2: int, service: Seq<char>)
    requires
        is_first_service(nodes, i, service),
        is_first_service(nodes, i2, service),
    ensures
        i == i2,
{
    if i < i2 {
        assert(!is_schema_element(nodes[i], service));
    } else if i2 < i {
        assert(!is_schema_element(nodes[i2], service));
    }
}

proof fn lemma_first_xaddr_unique(nodes: Seq<XmlNodeView>, j: int, j2: int, parent: usize)
    requires
        is_first_xaddr_child(nodes, j, parent),
        is_first_xaddr_child(nodes, j2, parent),
    ensures
        j == j2,
{
    if j < j2 {
        assert(!is_xaddr_child(nodes[j], parent));
    } else if j2 < j {
        assert(!is_xaddr_child(nodes[j2], parent));
    }
}

fn text_eq(a: &String, b: &String) -> (r: bool)
    ensures
        r == (a@ == b@),
{
    *a == *b
}

fn in_schema(namespace: &Option<String>, schema: &String) -> (r: bool)
    ensures
        r == (crate::xml::opt_text(*namespace) == Some(schema@)),
{
    match namespace {
        Some(ns) => text_eq(ns, schema),
        None => false,
    }
}

/// Writes `http://<ip>:<port>/onvif/device_service`.
pub fn device_service_address(ip: &str, port: u16) -> (r: String)
    ensures
        r@ == device_service_text(ip@, port as nat),
{
    let mut s = String::new();
    s.append("http://");
    s.append(ip);
    s.append(":");
    append_decimal(&mut s, port);
    s.append("/onvif/device_service");
    assert(s@ =~= device_service_text(ip@, port as nat));
    s
}

/// Writes the `GetCapabilities` envelope around a security header.
pub fn capabilities_body(auth_header: &str) -> (r: String)
    ensures
        r@ == capabilities_body_text(auth_header@),
{
    let mut s = String::new();
    s.append(ENVELOPE_OPEN);
    s.append(NS_SOAP);
    s.append(ENVELOPE_BEFORE_HEADER);
    s.append(auth_header);
    s.append(ENVELOPE_BEFORE_DEVICE_NS);
    s.append(NS_DEVICE);
    s.append(ENVELOPE_CLOSE);
    assert(s@ =~= capabilities_body_text(auth_header@));
    s
}

/// Finds the address of `service` in the nodes of a capabilities reply: the text of
/// the first `XAddr` child of the first schema element of that name. Refused, with
/// the service's name, where there is none.
pub fn find_xaddr(nodes: &Vec<XmlNode>, service: &str) -> (r: Result<String, RiotingError>)
    ensures
        match xaddr_of(nodes_view(nodes@), service@) {
            Some(addr) => r matches Ok(s) && s@ == addr,
            None => r matches Err(RiotingError::MissingXAddr(name)) && name@ == service@,
        },
{
    let ghost v = nodes_view(nodes@);
    let target = service.to_owned();
    let schema = NS_SCHEMA.to_owned();
    let xaddr = XADDR.to_owned();
    let n = nodes.len();
    let mut i: usize = 0;
    while i < n
        invariant
            n == nodes@.len(),
            v == nodes_view(nodes@),
            target@ == service@,
            schema@ == NS_SCHEMA@,
            xaddr@ == XADDR@,
            0 <= i <= n,
            forall|k: int| 0 <= k < i ==> !is_schema_element(#[trigger] v[k], service@),
        decreases n - i,
    {
        let node = &nodes[i];
        if text_eq(&node.name, &target) && in_schema(&node.namespace, &schema) {
            assert(v[i as int] == node@);
            assert(is_first_service(v, i as int, service@));
            proof {
                let c = choose|c: int| is_first_service(v, c, service@);
                lemma_first_service_unique(v, i as int, c, service@);
            }
            let parent = node.id;
            let mut j: usize = 0;
            while j < n
                invariant
                    n == nodes@.len(),
                    v == nodes_view(nodes@),
                    schema@ == NS_SCHEMA@,
                    xaddr@ == XADDR@,
                    0 <= j <= n,
                    i < n,
                    is_first_service(v, i as int, service@),
                    parent == v[i as int].id,
                    forall|k: int| 0 <= k < j ==> !is_xaddr_child(#[trigger] v[k], parent),
                decreases n - j,
            {
                let child = &nodes[j];
                if child.parent == Some(parent) && text_eq(&child.name, &xaddr) && in_schema(
                    &child.namespace,
                    &schema,
                ) {
                    assert(v[j as int] == child@);
                    assert(is_first_xaddr_child(v, j as int, parent));
                    proof {
                        let c = choose|c: int| is_first_service(v, c, service@);
                        lemma_first_service_unique(v, i as int, c, service@);
                        let d = choose|d: int| is_first_xaddr_child(v, d, parent);
                        lemma_first_xaddr_unique(v, j as int, d, parent);
                    }
                    match &child.text {
                        Some(t) => {
                            return Ok(t.clone());
                        },
                        None => {
                            return Err(RiotingError::MissingXAddr(service.to_owned()));
                        },
                    }
                }
                assert(v[j as int] == child@);
                j += 1;
            }
            assert(!exists|c: int| is_first_xaddr_child(v, c, parent));
            proof {
                let c = choose|c: int| is_first_service(v, c, service@);
                lemma_first_service_unique(v, i as int, c, service@);
            }
            return Err(RiotingError::MissingXAddr(service.to_owned()));
        }
        assert(v[i as int] == node@);
        i += 1;
    }
    assert(!exists|c: int| is_first_service(v, c, service@));
    Err(RiotingError::MissingXAddr(service.to_owned()))
}

/// The request that discovers a camera's services: where it goes and what it says.
pub struct CapabilitiesRequest {
    /// The parsed address of the camera's device service.
    pub url: String,
    /// The SOAP envelope asking for all capabilities.
    pub body: String,
}

/// ONVIF PTZ client for a single camera: the HTTP client it talks through, the
/// camera's configuration and the addresses of the camera's media and PTZ services,
/// as the camera announced them.
pub struct OnvifClient {
    client: reqwest::Client,
    camera_config: CameraConfig,
    media_service_url: String,
    ptz_service_url: String,
}

impl OnvifClient {
    /// The HTTP client the requests go through.
    pub closed spec fn http(&self) -> reqwest::Client {
        self.client
    }

    /// The camera configuration the client talks to.
    pub closed spec fn config(&self) -> CameraConfig {
        self.camera_config
    }

    /// The address of the camera's media service.
    pub closed spec fn media_url(&self) -> Seq<char> {
        self.media_service_url@
    }

    /// The address of the camera's PTZ service.
    pub closed spec fn ptz_url(&self) -> Seq<char> {
        self.ptz_service_url@
    }

    /// The `GetCapabilities` request for a camera: sent to
    /// `http://<ip>:<onvif port>/onvif/device_service` as `url::Url::parse` reads it
    /// (refused where it does not parse), signed for the camera's user with a nonce
    /// drawn from the random generator and the UTC time read from the clock during
    /// the call.
    pub fn capabilities_request(camera_config: &CameraConfig) -> (r: Result<CapabilitiesRequest, RiotingError>)
        ensures
            match url_serialization(device_service_text(camera_config.ip@, camera_config.onvif_port as nat)) {
                Some(u) => r matches Ok(req) && req.url@ == u && exists|header: Seq<char>, nonce: FreshNonce, created: ClockTime|
                    signed_with(header, camera_config.user@, camera_config.password@, nonce, created)
                    && req.body@ == capabilities_body_text(header),
                None => r matches Err(RiotingError::InvalidUrl(_)),
            },
    {
        let address = device_service_address(camera_config.ip.as_str(), camera_config.onvif_port());
        match parse_url(address.as_str()) {
            Err(e) => Err(RiotingError::InvalidUrl(e)),
            Ok(url) => {
                let auth_header = build_auth_header(camera_config);
                let body = capabilities_body(auth_header.as_str());
                Ok(CapabilitiesRequest { url, body })
            },
        }
    }

    /// Builds the client from the nodes of the camera's capabilities reply: the media
    /// and PTZ service addresses are their `XAddr`s (the media service is looked up
    /// first, and its absence is the error reported when both are missing).
    pub fn from_service_nodes(
        client: reqwest::Client,
        camera_config: CameraConfig,
        nodes: &Vec<XmlNode>,
    ) -> (r: Result<Self, RiotingError>)
        ensures
            match (
                xaddr_of(nodes_view(nodes@), MEDIA_SERVICE@),
                xaddr_of(nodes_view(nodes@), PTZ_SERVICE@),
            ) {
                (Some(media), Some(ptz)) => r matches Ok(c) && c.http() == client && c.config() == camera_config
                    && c.media_url() == media && c.ptz_url() == ptz,
                (None, _) => r matches Err(RiotingError::MissingXAddr(name)) && name@ == MEDIA_SERVICE@,
                (Some(_), None) => r matches Err(RiotingError::MissingXAddr(name)) && name@
                    == PTZ_SERVICE@,
            },
    {
        let media_service_url = match find_xaddr(nodes, MEDIA_SERVICE) {
            Ok(u) => u,
            Err(e) => {
                return Err(e);
            },
        };
        let ptz_service_url = match find_xaddr(nodes, PTZ_SERVICE) {
            Ok(u) => u,
            Err(e) => {
                return Err(e);
            },
        };
        Ok(OnvifClient { client, camera_config, media_service_url, ptz_service_url })
    }

    /// Builds the client from the text of the camera's capabilities reply, read by
    /// `roxmltree`; a text that is not XML is refused with the parser's error.
    pub fn from_capabilities_response(
        client: reqwest::Client,
        camera_config: CameraConfig,
        response: &str,
    ) -> (r: Result<Self, RiotingError>)
        ensures
            match xml_document_nodes(response@) {
                None => r matches Err(RiotingError::InvalidXml(_)),
                Some(v) => match (xaddr_of(v, MEDIA_SERVICE@), xaddr_of(v, PTZ_SERVICE@)) {
                    (Some(media), Some(ptz)) => r matches Ok(c) && c.http() == client && c.config() == camera_config
                        && c.media_url() == media && c.ptz_url() == ptz,
                    (None, _) => r matches Err(RiotingError::MissingXAddr(name)) && name@
                        == MEDIA_SERVICE@,
                    (Some(_), None) => r matches Err(RiotingError::MissingXAddr(name)) && name@
                        == PTZ_SERVICE@,
                },
            },
    {
        match parse_xml(response) {
            Err(e) => Err(RiotingError::InvalidXml(e)),
            Ok(nodes) => Self::from_service_nodes(client, camera_config, &nodes),
        }
    }

    /// The HTTP client the requests go through.
    pub fn http_client(&self) -> (r: &reqwest::Client)
        ensures
            *r == self.http(),
    {
        &self.client
    }

    /// The camera configuration the client talks to.
    pub fn camera_config(&self) -> (r: &CameraConfig)
        ensures
            *r == self.config(),
    {
        &self.camera_config
    }

    /// The address of the camera's media service.
    pub fn media_service_url(&self) -> (r: &String)
        ensures
            r@ == self.media_url(),
    {
        &self.media_service_url
    }

    /// The address of the camera's PTZ service.
    pub fn ptz_service_url(&self) -> (r: &String)
        ensures
            r@ == self.ptz_url(),
    {
        &self.ptz_service_url
    }
}

} // verus!
