use vstd::prelude::*;

use crate::config::{CameraConfig, Vendor};
use crate::error::RiotingError;
use crate::urls::{parse_url, url_serialization};

verus! {

/// `rtsp://<ip>:554/stream1`: the main stream of a Tapo camera.
pub open spec fn tapo_rtsp_text(ip: Seq<char>) -> Seq<char> {
    "rtsp://"@ + ip + ":554/stream1"@
}

/// `rtsp://<ip>:554/h264Preview_01_main`: the main stream of a Reolink camera.
pub open spec fn reolink_rtsp_text(ip: Seq<char>) -> Seq<char> {
    "rtsp://"@ + ip + ":554/h264Preview_01_main"@
}

/// The RTSP address text of a camera of the given maker.
pub open spec fn rtsp_text(vendor: Vendor, ip: Seq<char>) -> Seq<char> {
    match vendor {
        Vendor::Tapo => tapo_rtsp_text(ip),
        Vendor::Reolink => reolink_rtsp_text(ip),
    }
}

fn tapo_rtsp_address(ip: &str) -> (s: String)
    ensures
        s@ == tapo_rtsp_text(ip@),
{
    let mut s = String::new();
    s.append("rtsp://");
    s.append(ip);
    s.append(":554/stream1");
    assert(s@ =~= tapo_rtsp_text(ip@));
    s
}

fn reolink_rtsp_address(ip: &str) -> (s: String)
    ensures
        s@ == reolink_rtsp_text(ip@),
{
    let mut s = String::new();
    s.append("rtsp://");
    s.append(ip);
    s.append(":554/h264Preview_01_main");
    assert(s@ =~= reolink_rtsp_text(ip@));
    s
}

/// A Tapo camera: its configuration and the parsed address of its main RTSP stream.
pub struct TapoCamera {
    camera_config: CameraConfig,
    rtsp_url: String,
}

impl TapoCamera {
    /// The configuration the camera was made from.
    pub closed spec fn config(&self) -> CameraConfig {
        self.camera_config
    }

    /// The serialized RTSP address of the camera's main stream.
    pub closed spec fn url(&self) -> Seq<char> {
        self.rtsp_url@
    }

    /// Builds the camera from the result of parsing its RTSP address text.
    pub fn from_parsed_url(camera_config: CameraConfig, parsed: Result<String, url::ParseError>) -> (r: Result<Self, RiotingError>)
        ensures
            match parsed {
                Ok(u) => r matches Ok(cam) && cam.url() == u@ && cam.config() == camera_config,
                Err(e) => r == Err::<Self, RiotingError>(RiotingError::InvalidUrl(e)),
            },
    {
        match parsed {
            Ok(rtsp_url) => Ok(TapoCamera { camera_config, rtsp_url }),
            Err(e) => Err(RiotingError::InvalidUrl(e)),
        }
    }

    /// Makes the camera of a configuration: its stream is `rtsp://<ip>:554/stream1`,
    /// as `url::Url::parse` reads it; a text that does not parse is refused.
    pub fn new(camera_config: CameraConfig) -> (r: Result<Self, RiotingError>)
        ensures
            match url_serialization(tapo_rtsp_text(camera_config.ip@)) {
                Some(u) => r matches Ok(cam) && cam.url() == u && cam.config() == camera_config,
                None => r matches Err(RiotingError::InvalidUrl(_)),
            },
    {
        let text = tapo_rtsp_address(camera_config.ip.as_str());
        let parsed = parse_url(text.as_str());
        Self::from_parsed_url(camera_config, parsed)
    }

    /// The address of the camera's main RTSP stream.
    pub fn rtsp_url(&self) -> (r: &String)
        ensures
            r@ == self.url(),
    {
        &self.rtsp_url
    }
}

/// A Reolink camera: its configuration and the parsed address of its main RTSP stream.
pub struct ReolinkCamera {
    camera_config: CameraConfig,
    rtsp_url: String,
}

impl ReolinkCamera {
    /// The configuration the camera was made from.
    pub closed spec fn config(&self) -> CameraConfig {
        self.camera_config
    }

    /// The serialized RTSP address of the camera's main stream.
    pub closed spec fn url(&self) -> Seq<char> {
        self.rtsp_url@
    }

    /// Builds the camera from the result of parsing its RTSP address text.
    pub fn from_parsed_url(camera_config: CameraConfig, parsed: Result<String, url::ParseError>) -> (r: Result<Self, RiotingError>)
        ensures
            match parsed {
                Ok(u) => r matches Ok(cam) && cam.url() == u@ && cam.config() == camera_config,
                Err(e) => r == Err::<Self, RiotingError>(RiotingError::InvalidUrl(e)),
            },
    {
        match parsed {
            Ok(rtsp_url) => Ok(ReolinkCamera { camera_config, rtsp_url }),
            Err(e) => Err(RiotingError::InvalidUrl(e)),
        }
    }

    /// Makes the camera of a configuration: its stream is `rtsp://<ip>:554/h264Preview_01_main`,
    /// as `url::Url::parse` reads it; a text that does not parse is refused.
    pub fn new(camera_config: CameraConfig) -> (r: Result<Self, RiotingError>)
        ensures
            match url_serialization(reolink_rtsp_text(camera_config.ip@)) {
                Some(u) => r matches Ok(cam) && cam.url() == u && cam.config() == camera_config,
                None => r matches Err(RiotingError::InvalidUrl(_)),
            },
    {
        let text = reolink_rtsp_address(camera_config.ip.as_str());
        let parsed = parse_url(text.as_str());
        Self::from_parsed_url(camera_config, parsed)
    }

    /// The address of the camera's main RTSP stream.
    pub fn rtsp_url(&self) -> (r: &String)
        ensures
            r@ == self.url(),
    {
        &self.rtsp_url
    }
}

/// A configured camera of either maker.
pub enum CameraDevice {
    Tapo(TapoCamera),
    Reolink(ReolinkCamera),
}

impl CameraDevice {
    /// The configuration the camera was made from.
    pub open spec fn config(&self) -> CameraConfig {
        match self {
            CameraDevice::Tapo(c) => c.config(),
            CameraDevice::Reolink(c) => c.config(),
        }
    }

    /// The serialized RTSP address of the camera's main stream.
    pub open spec fn url(&self) -> Seq<char> {
        match self {
            CameraDevice::Tapo(c) => c.url(),
            CameraDevice::Reolink(c) => c.url(),
        }
    }

    /// Makes the camera that the configuration's maker calls for.
    pub fn for_config(camera_config: CameraConfig) -> (r: Result<Self, RiotingError>)
        ensures
            match url_serialization(rtsp_text(camera_config.vendor, camera_config.ip@)) {
                Some(u) => r matches Ok(cam) && cam.url() == u && cam.config() == camera_config
                    && (cam is Tapo <==> camera_config.vendor == Vendor::Tapo),
                None => r matches Err(RiotingError::InvalidUrl(_)),
            },
    {
        match camera_config.vendor {
            Vendor::Tapo => match TapoCamera::new(camera_config) {
                Ok(c) => Ok(CameraDevice::Tapo(c)),
                Err(e) => Err(e),
            },
            Vendor::Reolink => match ReolinkCamera::new(camera_config) {
                Ok(c) => Ok(CameraDevice::Reolink(c)),
                Err(e) => Err(e),
            },
        }
    }

    /// The address of the camera's main RTSP stream.
    pub fn rtsp_url(&self) -> (r: &String)
        ensures
            r@ == self.url(),
    {
        match self {
            CameraDevice::Tapo(c) => c.rtsp_url(),
            CameraDevice::Reolink(c) => c.rtsp_url(),
        }
    }
}

} // verus!
