//! Camera configuration, RTSP addressing and ONVIF request/response logic for a
//! home security system that relays IP camera streams to a browser.

pub mod camera;
pub mod config;
pub mod encoding;
pub mod error;
pub mod fresh;
pub mod onvif;
pub mod server;
pub mod text;
pub mod urls;
pub mod wsse;
pub mod webrtc;
pub mod xml;

pub use camera::{CameraDevice, ReolinkCamera, TapoCamera};
pub use config::{CameraConfig, Config, Vendor};
pub use error::RiotingError;
pub use onvif::OnvifClient;
