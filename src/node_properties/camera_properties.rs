//! Camera sources described by a source name, with the device the agent
//! resolves, and the interface that reads and changes any of them.
use vstd::prelude::*;

use crate::resolution::Resolution;

verus! {

#[derive(Debug, Clone, PartialEq)]
pub struct UsbCameraProperties {
    pub source: String,
    pub resolution: Option<Resolution>,
    pub framerate: Option<u32>,
    pub runtime: Option<UsbCameraRuntime>,
}

#[derive(Debug, Clone, PartialEq)]
pub struct UsbCameraRuntime {
    /// Local device the agent reads, e.g. `file:///dev/video0`.
    pub uri: url::Url,
}

#[derive(Debug, Clone, PartialEq)]
pub struct CsiCameraProperties {
    pub source: String,
    pub resolution: Option<Resolution>,
    pub framerate: Option<u32>,
    pub runtime: Option<CsiCameraRuntime>,
}

#[derive(Debug, Clone, PartialEq)]
pub struct CsiCameraRuntime {
    /// Local device the agent reads, e.g. `file:///dev/video0`.
    pub uri: url::Url,
}

#[derive(Debug, Clone, PartialEq)]
pub struct IpCameraProperties {
    pub source: String,
    pub resolution: Option<Resolution>,
    pub framerate: Option<u32>,
    pub runtime: Option<IpCameraRuntime>,
}

#[derive(Debug, Clone, PartialEq)]
pub struct IpCameraRuntime {
    /// Device management address, e.g. `http://192.168.1.42:8000/onvif/device_service`.
    pub uri: url::Url,
    /// Stream that the WebRTC service relays.
    pub stream_id: Option<uuid::Uuid>,
    /// UDP port; currently unused.
    pub udp_port: Option<u16>,
}

/// The device of a resolved camera.
pub trait CameraRuntime {
    spec fn spec_uri(&self) -> url::Url;

    fn uri(&self) -> (r: &url::Url)
        ensures
            *r == self.spec_uri(),
    ;

    fn set_uri(&mut self, uri: url::Url)
        ensures
            final(self).spec_uri() == uri,
    ;
}

/// What a camera declares, and its runtime part once resolved, whatever the
/// kind of camera.
pub trait CameraProperties {
    type Runtime: CameraRuntime;

    spec fn spec_source(&self) -> Seq<char>;

    spec fn spec_resolution(&self) -> Option<Resolution>;

    spec fn spec_framerate(&self) -> Option<u32>;

    spec fn spec_runtime(&self) -> Option<Self::Runtime>;

    fn resolution(&self) -> (r: Option<&Resolution>)
        ensures
            r is Some <==> self.spec_resolution() is Some,
            r matches Some(x) ==> *x == self.spec_resolution()->0,
    ;

    fn set_resolution(&mut self, resolution: Option<Resolution>)
        ensures
            final(self).spec_resolution() == resolution,
            final(self).spec_framerate() == old(self).spec_framerate(),
            final(self).spec_source() == old(self).spec_source(),
            final(self).spec_runtime() == old(self).spec_runtime(),
    ;

    fn framerate(&self) -> (r: Option<u32>)
        ensures
            r == self.spec_framerate(),
    ;

    fn set_framerate(&mut self, framerate: Option<u32>)
        ensures
            final(self).spec_framerate() == framerate,
            final(self).spec_resolution() == old(self).spec_resolution(),
            final(self).spec_source() == old(self).spec_source(),
            final(self).spec_runtime() == old(self).spec_runtime(),
    ;

    fn source(&self) -> (r: &str)
        ensures
            r@ == self.spec_source(),
    ;

    fn set_source(&mut self, source: String)
        ensures
            final(self).spec_source() == source@,
            final(self).spec_resolution() == old(self).spec_resolution(),
            final(self).spec_framerate() == old(self).spec_framerate(),
            final(self).spec_runtime() == old(self).spec_runtime(),
    ;

    fn runtime(&self) -> (r: Option<&Self::Runtime>)
        ensures
            r is Some <==> self.spec_runtime() is Some,
            r matches Some(x) ==> *x == self.spec_runtime()->0,
    ;

    fn runtime_mut(&mut self) -> (r: Option<&mut Self::Runtime>)
        ensures
            r is Some <==> old(self).spec_runtime() is Some,
    ;
}

impl CameraRuntime for UsbCameraRuntime {
    open spec fn spec_uri(&self) -> url::Url {
        self.uri
    }

    fn uri(&self) -> (r: &url::Url) {
        &self.uri
    }

    fn set_uri(&mut self, uri: url::Url) {
        self.uri = uri;
    }
}

impl CameraProperties for UsbCameraProperties {
    type Runtime = UsbCameraRuntime;

    open spec fn spec_source(&self) -> Seq<char> {
        self.source@
    }

    open spec fn spec_resolution(&self) -> Option<Resolution> {
        self.resolution
    }

    open spec fn spec_framerate(&self) -> Option<u32> {
        self.framerate
    }

    open spec fn spec_runtime(&self) -> Option<UsbCameraRuntime> {
        self.runtime
    }

    fn resolution(&self) -> (r: Option<&Resolution>) {
        self.resolution.as_ref()
    }

    fn set_resolution(&mut self, resolution: Option<Resolution>) {
        self.resolution = resolution;
    }

    fn framerate(&self) -> (r: Option<u32>) {
        self.framerate
    }

    fn set_framerate(&mut self, framerate: Option<u32>) {
        self.framerate = framerate;
    }

    fn source(&self) -> (r: &str) {
        self.source.as_str()
    }

    fn set_source(&mut self, source: String) {
        self.source = source;
    }

    fn runtime(&self) -> (r: Option<&UsbCameraRuntime>) {
        self.runtime.as_ref()
    }

    fn runtime_mut(&mut self) -> (r: Option<&mut UsbCameraRuntime>) {
        self.runtime.as_mut()
    }
}

impl CameraRuntime for CsiCameraRuntime {
    open spec fn spec_uri(&self) -> url::Url {
        self.uri
    }

    fn uri(&self) -> (r: &url::Url) {
        &self.uri
    }

    fn set_uri(&mut self, uri: url::Url) {
        self.uri = uri;
    }
}

impl CameraProperties for CsiCameraProperties {
    type Runtime = CsiCameraRuntime;

    open spec fn spec_source(&self) -> Seq<char> {
        self.source@
    }

    open spec fn spec_resolution(&self) -> Option<Resolution> {
        self.resolution
    }

    open spec fn spec_framerate(&self) -> Option<u32> {
        self.framerate
    }

    open spec fn spec_runtime(&self) -> Option<CsiCameraRuntime> {
        self.runtime
    }

    fn resolution(&self) -> (r: Option<&Resolution>) {
        self.resolution.as_ref()
    }

    fn set_resolution(&mut self, resolution: Option<Resolution>) {
        self.resolution = resolution;
    }

    fn framerate(&self) -> (r: Option<u32>) {
        self.framerate
    }

    fn set_framerate(&mut self, framerate: Option<u32>) {
        self.framerate = framerate;
    }

    fn source(&self) -> (r: &str) {
        self.source.as_str()
    }

    fn set_source(&mut self, source: String) {
        self.source = source;
    }

    fn runtime(&self) -> (r: Option<&CsiCameraRuntime>) {
        self.runtime.as_ref()
    }

    fn runtime_mut(&mut self) -> (r: Option<&mut CsiCameraRuntime>) {
        self.runtime.as_mut()
    }
}

impl CameraRuntime for IpCameraRuntime {
    open spec fn spec_uri(&self) -> url::Url {
        self.uri
    }

    fn uri(&self) -> (r: &url::Url) {
        &self.uri
    }

    fn set_uri(&mut self, uri: url::Url) {
        self.uri = uri;
    }
}

impl CameraProperties for IpCameraProperties {
    type Runtime = IpCameraRuntime;

    open spec fn spec_source(&self) -> Seq<char> {
        self.source@
    }

    open spec fn spec_resolution(&self) -> Option<Resolution> {
        self.resolution
    }

    open spec fn spec_framerate(&self) -> Option<u32> {
        self.framerate
    }

    open spec fn spec_runtime(&self) -> Option<IpCameraRuntime> {
        self.runtime
    }

    fn resolution(&self) -> (r: Option<&Resolution>) {
        self.resolution.as_ref()
    }

    fn set_resolution(&mut self, resolution: Option<Resolution>) {
        self.resolution = resolution;
    }

    fn framerate(&self) -> (r: Option<u32>) {
        self.framerate
    }

    fn set_framerate(&mut self, framerate: Option<u32>) {
        self.framerate = framerate;
    }

    fn source(&self) -> (r: &str) {
        self.source.as_str()
    }

    fn set_source(&mut self, source: String) {
        self.source = source;
    }

    fn runtime(&self) -> (r: Option<&IpCameraRuntime>) {
        self.runtime.as_ref()
    }

    fn runtime_mut(&mut self) -> (r: Option<&mut IpCameraRuntime>) {
        self.runtime.as_mut()
    }
}

} // verus!
