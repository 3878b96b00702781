//! Video sources: local cameras and input streams.
use vstd::prelude::*;

use crate::resolution::{Crop, Resolution};
use crate::node_properties::transform_properties::{Degrees, FlipDirection};

verus! {

/// Wire tag `source_type`: a camera or an input stream.
#[derive(Debug, Clone, PartialEq)]
pub enum VideoSourceProperties {
    Camera(CameraProperties),
    Stream(InputStreamProperties),
}

/// What every video source declares.
#[derive(Debug, Clone, PartialEq)]
pub struct CommonVideoSourceProperties {
    /// Camera ID when the source is a camera, stream ID when it is a stream.
    pub source_id: uuid::Uuid,
    /// Resolution of the source; a default is used when unset.
    pub resolution: Option<Resolution>,
    /// Framerate of the source (wire alias `fps`); a default is used when unset.
    pub framerate: Option<u32>,
    /// Rotation by an arbitrary angle; keeps the resolution.
    pub rotate: Option<Degrees>,
    /// Rotation by a quarter or half turn; may swap width and height.
    pub rotate_fixed_angle: Option<RotateDirection>,
    pub flip: Option<FlipDirection>,
    /// Crop region, on the wire `left:right:top:bottom`.
    pub crop: Option<Crop>,
}

#[derive(Debug, Clone, Copy, PartialEq, Eq, Structural)]
pub enum RotateDirection {
    /// A quarter turn clockwise: 640x480 becomes 480x640.
    Clockwise90,
    /// A half turn (wire alias `counter_clockwise180`).
    Clockwise180,
    /// A quarter turn counter-clockwise: 640x480 becomes 480x640.
    CounterClockwise90,
}

#[derive(Debug, Clone, PartialEq)]
pub struct CameraProperties {
    pub common: CommonVideoSourceProperties,
    /// Set once the agent has resolved the physical camera.
    pub runtime: Option<CameraRuntime>,
}

#[derive(Debug, Clone, PartialEq)]
pub struct InputStreamProperties {
    pub common: CommonVideoSourceProperties,
    /// Set once the agent has resolved the stream.
    pub runtime: Option<InputStreamRuntime>,
}

#[derive(Debug, Clone, PartialEq)]
pub enum CameraRuntime {
    Usb(UsbCameraRuntime),
    Csi(CsiCameraRuntime),
}

#[derive(Debug, Clone, PartialEq)]
pub enum InputStreamRuntime {
    Rtsp(InputRtspStreamRuntime),
    WebRtc(InputWebRtcStreamRuntime),
}

#[derive(Debug, Clone, PartialEq)]
pub struct UsbCameraRuntime {
    /// Local device, e.g. `file:///dev/video0`.
    pub uri: url::Url,
    pub name: String,
}

#[derive(Debug, Clone, PartialEq)]
pub struct CsiCameraRuntime {
    /// Local device, e.g. `file:///dev/video0`.
    pub uri: url::Url,
    pub name: String,
}

#[derive(Debug, Clone, PartialEq)]
pub struct InputRtspStreamRuntime {
    /// e.g. `rtsp://192.168.0.42:554/hd_stream`.
    pub uri: url::Url,
    pub name: String,
}

/// WebRTC inputs carry nothing yet.
#[derive(Debug, Clone, Copy, PartialEq, Eq, Structural)]
pub struct InputWebRtcStreamRuntime {}

impl CommonVideoSourceProperties {
    /// The framerate a source declares: `framerate`, or else its alias `fps`.
    pub fn declared_framerate(framerate: Option<u32>, fps: Option<u32>) -> (r: Option<u32>)
        ensures
            r == (if framerate is Some {
                framerate
            } else {
                fps
            }),
    {
        match framerate {
            Some(f) => Some(f),
            None => fps,
        }
    }
}

} // verus!
