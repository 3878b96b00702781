//! Cameras that the agent reports.
use vstd::prelude::*;

verus! {

#[derive(Debug, Clone)]
pub struct Event {
    pub cameras: Vec<Camera>,
}

/// An IP, USB or CSI camera.
#[derive(Default, Debug, Clone)]
pub struct Camera {
    /// Local device (`file:///dev/video0`) or ONVIF device management address.
    pub uri: String,
    /// `online` or `offline`.
    pub status: Option<String>,
    pub name: Option<String>,
    pub manufacturer: Option<String>,
    pub model: Option<String>,
    /// `local` for USB and CSI cameras, `remote` for IP cameras.
    pub conn_type: Option<String>,
    /// `usb`, `csi` or `ethernet`.
    pub interface: Option<String>,
    /// RTSP address; remote cameras only.
    pub rtsp_uri: Option<String>,
    /// Local IP address of an IP camera.
    pub ip_local: Option<String>,
    /// MAC address of an IP camera.
    pub mac_address: Option<String>,
    pub capabilities: Vec<Capability>,
}

/// A configuration that the camera supports.
#[derive(Default, Debug, Clone)]
pub struct Capability {
    pub name: String,
    /// Width in pixels.
    pub width: i32,
    /// Height in pixels.
    pub height: i32,
    pub framerates: Vec<Fraction>,
    /// Video format, e.g. `MJPG` or `YUYV`.
    pub format: Option<String>,
}

/// A rational number.
#[derive(Default, Debug, Clone, Copy, PartialEq, Eq, Structural)]
pub struct Fraction {
    pub numer: i32,
    pub denom: i32,
}

} // verus!
