use vstd::prelude::*;

verus! {

/// The camera maker, which decides the RTSP stream path.
#[derive(Clone, Copy, Debug, PartialEq, Eq, Structural)]
pub enum Vendor {
    Tapo,
    Reolink,
}

/// One camera entry of the configuration file.
#[derive(Clone, Debug)]
pub struct CameraConfig {
    pub name: String,
    pub ip: String,
    pub user: String,
    pub password: String,
    pub vendor: Vendor,
    pub onvif_port: u16,
}

impl CameraConfig {
    /// The TCP port of the camera's ONVIF device service.
    pub fn onvif_port(&self) -> (port: u16)
        ensures
            port == self.onvif_port,
    {
        self.onvif_port
    }
}

/// The whole configuration: the HTTP port of the server and the cameras.
#[derive(Clone, Debug)]
pub struct Config {
    pub server_port: String,
    pub cameras: Vec<CameraConfig>,
}

} // verus!
