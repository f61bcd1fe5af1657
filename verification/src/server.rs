//! The decisions of the HTTP server: which paths it serves, where it listens and how
//! it answers PTZ and WebRTC requests.

use vstd::prelude::*;

use crate::config::Config;

verus! {

/// Directory of the browser player's static files.
pub const STATIC_DIR: &'static str = "static";

/// Directory under which each camera's HLS output lies, one subdirectory per camera.
pub const HLS_DIR: &'static str = "hls";

/// Path that lists the configured cameras as JSON.
pub const CAMERAS_ROUTE: &'static str = "/cameras";

/// Path of a camera's WebRTC offer.
pub const WEBRTC_OFFER_ROUTE: &'static str = "/cameras/{name}/webrtc/offer";

/// Path that starts a camera's pan/tilt movement.
pub const PTZ_MOVE_ROUTE: &'static str = "/cameras/{name}/ptz/move";

/// Path that stops a camera's movement.
pub const PTZ_STOP_ROUTE: &'static str = "/cameras/{name}/ptz/stop";

/// `Cache-Control` value put on every response, so that browsers fetch fresh HLS
/// playlists and segments.
pub const NO_CACHE: &'static str = "no-cache, no-store";

/// HTTP status 200.
pub const STATUS_OK: u16 = 200;

/// HTTP status 404.
pub const STATUS_NOT_FOUND: u16 = 404;

/// HTTP status 500.
pub const STATUS_INTERNAL_SERVER_ERROR: u16 = 500;

/// HTTP status 501.
pub const STATUS_NOT_IMPLEMENTED: u16 = 501;

/// `/hls/<name>`: where a camera's HLS files are served.
pub open spec fn hls_route_text(name: Seq<char>) -> Seq<char> {
    "/hls/"@ + name
}

/// `0.0.0.0:<port>`: the server listens on all interfaces.
pub open spec fn listen_address_text(port: Seq<char>) -> Seq<char> {
    "0.0.0.0:"@ + port
}

/// The names of the configured cameras, in configuration order.
pub open spec fn camera_names_of(config: Config) -> Seq<Seq<char>> {
    config.cameras@.map_values(|c: crate::config::CameraConfig| c.name@)
}

/// Where a camera's HLS files are served from.
pub struct HlsMount {
    /// The URL path, `/hls/<name>`.
    pub route: String,
    /// The camera's name: its files lie in `hls/<name>`.
    pub camera: String,
}

/// How a PTZ request ended.
pub enum PtzOutcome {
    /// No camera of the requested name is configured.
    UnknownCamera,
    /// The camera was asked, and the command failed.
    CommandFailed,
    /// The camera was asked, and the command succeeded.
    CommandSucceeded,
}

/// Writes `/hls/<name>`.
pub fn hls_route(name: &str) -> (r: String)
    ensures
        r@ == hls_route_text(name@),
{
    let mut s = String::new();
    s.append("/hls/");
    s.append(name);
    assert(s@ =~= hls_route_text(name@));
    s
}

/// Writes `0.0.0.0:<port>`.
pub fn listen_address(config: &Config) -> (r: String)
    ensures
        r@ == listen_address_text(config.server_port@),
{
    let mut s = String::new();
    s.append("0.0.0.0:");
    s.append(config.server_port.as_str());
    assert(s@ =~= listen_address_text(config.server_port@));
    s
}

/// The names that `/cameras` lists: those of the configured cameras, in order.
pub fn camera_names(config: &Config) -> (r: Vec<String>)
    ensures
        r@.len() == config.cameras@.len(),
        forall|i: int| 0 <= i < r@.len() ==> #[trigger] r@[i]@ == camera_names_of(*config)[i],
{
    let mut names: Vec<String> = Vec::new();
    let n = config.cameras.len();
    for i in 0..n
        invariant
            n == config.cameras@.len(),
            names@.len() == i,
            forall|k: int| 0 <= k < i ==> #[trigger] names@[k]@ == camera_names_of(*config)[k],
    {
        names.push(config.cameras[i].name.clone());
    }
    names
}

/// One HLS mount per configured camera, in order: camera `i` is served at
/// `/hls/<name i>`.
pub fn hls_mounts(config: &Config) -> (r: Vec<HlsMount>)
    ensures
        r@.len() == config.cameras@.len(),
        forall|i: int|
            0 <= i < r@.len() ==> {
                &&& (#[trigger] r@[i]).camera@ == camera_names_of(*config)[i]
                &&& r@[i].route@ == hls_route_text(camera_names_of(*config)[i])
            },
{
    let mut mounts: Vec<HlsMount> = Vec::new();
    let n = config.cameras.len();
    for i in 0..n
        invariant
            n == config.cameras@.len(),
            mounts@.len() == i,
            forall|k: int|
                0 <= k < i ==> {
                    &&& (#[trigger] mounts@[k]).camera@ == camera_names_of(*config)[k]
                    &&& mounts@[k].route@ == hls_route_text(camera_names_of(*config)[k])
                },
    {
        let name = &config.cameras[i].name;
        let route = hls_route(name.as_str());
        mounts.push(HlsMount { route, camera: name.clone() });
    }
    mounts
}

/// The status a PTZ request is answered with: 404 for an unknown camera, 500 when
/// the camera's command failed, 200 when it succeeded.
pub fn ptz_status(outcome: PtzOutcome) -> (code: u16)
    ensures
        code == match outcome {
            PtzOutcome::UnknownCamera => STATUS_NOT_FOUND,
            PtzOutcome::CommandFailed => STATUS_INTERNAL_SERVER_ERROR,
            PtzOutcome::CommandSucceeded => STATUS_OK,
        },
{
    match outcome {
        PtzOutcome::UnknownCamera => STATUS_NOT_FOUND,
        PtzOutcome::CommandFailed => STATUS_INTERNAL_SERVER_ERROR,
        PtzOutcome::CommandSucceeded => STATUS_OK,
    }
}

/// The status a WebRTC offer is answered with: the session is kept, but answering
/// offers is not implemented yet (501); 500 where the session table could not be
/// locked.
pub fn webrtc_offer_status(session_stored: bool) -> (code: u16)
    ensures
        code == if session_stored { STATUS_NOT_IMPLEMENTED } else { STATUS_INTERNAL_SERVER_ERROR },
{
    if session_stored {
        STATUS_NOT_IMPLEMENTED
    } else {
        STATUS_INTERNAL_SERVER_ERROR
    }
}

/// Distinct cameras are served at distinct HLS paths: the path determines the name.
pub proof fn lemma_hls_routes_distinct(a: Seq<char>, b: Seq<char>)
    requires
        hls_route_text(a) == hls_route_text(b),
    ensures
        a == b,
{
    let p = "/hls/"@;
    assert(a =~= hls_route_text(a).subrange(p.len() as int, hls_route_text(a).len() as int));
    assert(b =~= hls_route_text(b).subrange(p.len() as int, hls_route_text(b).len() as int));
}

} // verus!
