//! Camera commands and the cameras they report.
use vstd::prelude::*;

verus! {

#[derive(Debug, Clone)]
pub enum Request {
    Discover { request_id: uuid::Uuid },
    CreateStreams { camera_id: uuid::Uuid },
}

#[derive(Debug, Clone)]
pub struct DiscoverResponse(pub Vec<Camera>);

/// Wire tag `conn_type`.
#[derive(Debug, Clone, PartialEq)]
pub enum Camera {
    Local(LocalCamera),
    Remote(RemoteCamera),
}

/// A camera attached to the gateway by USB or CSI.
#[derive(Debug, Clone, PartialEq)]
pub struct LocalCamera {
    /// e.g. `file:///dev/video0`.
    pub uri: url::Url,
    pub status: Status,
    pub name: Option<String>,
    pub manufacturer: Option<String>,
    pub model: Option<String>,
    pub interface: LocalCameraInterface,
    pub capabilities: Vec<Capability>,
}

/// An IP camera.
#[derive(Debug, Clone, PartialEq)]
pub struct RemoteCamera {
    /// ONVIF device management address, e.g. `http://192.168.0.42/device`.
    pub uri: url::Url,
    pub mac_address: String,
    pub status: Status,
    pub name: Option<String>,
    pub manufacturer: Option<String>,
    pub model: Option<String>,
    pub ip_local: Option<String>,
    pub streams: Vec<Stream>,
}

/// A stream of an IP camera.
#[derive(Debug, Clone, PartialEq)]
pub struct Stream {
    /// e.g. `rtsp://192.168.0.42:554/hd_stream`.
    pub rtsp_uri: url::Url,
    pub name: String,
    pub capability: Capability,
}

/// A configuration that the camera supports.
#[derive(Debug, Clone, PartialEq)]
pub struct Capability {
    pub name: String,
    /// Width in pixels.
    pub width: i32,
    /// Height in pixels.
    pub height: i32,
    pub framerates: Vec<Fraction>,
    /// Video format, e.g. `MJPG` or `YUYV`.
    pub format: Option<String>,
}

/// A rational number.
#[derive(Debug, Clone, Copy, PartialEq, Eq, Structural)]
pub struct Fraction {
    pub numer: i32,
    pub denom: i32,
}

#[derive(Debug, Clone, Copy, PartialEq, Eq, Structural)]
pub enum Status {
    Online,
    Offline,
}

#[derive(Debug, Clone, Copy, PartialEq, Eq, Structural)]
pub enum LocalCameraInterface {
    Usb,
    Csi,
}

/// Text of an optional string, borrowed.
fn text_of(s: &Option<String>) -> (r: Option<&str>)
    ensures
        r is Some <==> s is Some,
        r matches Some(t) ==> t@ == s->0@,
{
    match s {
        Some(t) => Some(t.as_str()),
        None => None,
    }
}

impl Camera {
    pub fn uri(&self) -> (r: &url::Url)
        ensures
            *r == match *self {
                Camera::Local(c) => c.uri,
                Camera::Remote(c) => c.uri,
            },
    {
        match self {
            Camera::Local(c) => &c.uri,
            Camera::Remote(c) => &c.uri,
        }
    }

    pub fn set_uri(&mut self, uri: url::Url)
        ensures
            *final(self) == match *old(self) {
                Camera::Local(c) => Camera::Local(LocalCamera { uri, ..c }),
                Camera::Remote(c) => Camera::Remote(RemoteCamera { uri, ..c }),
            },
    {
        match self {
            Camera::Local(c) => c.uri = uri,
            Camera::Remote(c) => c.uri = uri,
        }
    }

    pub fn status(&self) -> (r: &Status)
        ensures
            *r == match *self {
                Camera::Local(c) => c.status,
                Camera::Remote(c) => c.status,
            },
    {
        match self {
            Camera::Local(c) => &c.status,
            Camera::Remote(c) => &c.status,
        }
    }

    pub fn set_status(&mut self, status: Status)
        ensures
            *final(self) == match *old(self) {
                Camera::Local(c) => Camera::Local(LocalCamera { status, ..c }),
                Camera::Remote(c) => Camera::Remote(RemoteCamera { status, ..c }),
            },
    {
        match self {
            Camera::Local(c) => c.status = status,
            Camera::Remote(c) => c.status = status,
        }
    }

    pub fn name(&self) -> (r: Option<&str>)
        ensures
            r is Some <==> self.spec_name() is Some,
            r matches Some(t) ==> t@ == self.spec_name()->0@,
    {
        match self {
            Camera::Local(c) => text_of(&c.name),
            Camera::Remote(c) => text_of(&c.name),
        }
    }

    pub fn set_name(&mut self, name: Option<String>)
        ensures
            *final(self) == match *old(self) {
                Camera::Local(c) => Camera::Local(LocalCamera { name, ..c }),
                Camera::Remote(c) => Camera::Remote(RemoteCamera { name, ..c }),
            },
    {
        match self {
            Camera::Local(c) => c.name = name,
            Camera::Remote(c) => c.name = name,
        }
    }

    pub fn manufacturer(&self) -> (r: Option<&str>)
        ensures
            r is Some <==> self.spec_manufacturer() is Some,
            r matches Some(t) ==> t@ == self.spec_manufacturer()->0@,
    {
        match self {
            Camera::Local(c) => text_of(&c.manufacturer),
            Camera::Remote(c) => text_of(&c.manufacturer),
        }
    }

    pub fn set_manufacturer(&mut self, manufacturer: Option<String>)
        ensures
            *final(self) == match *old(self) {
                Camera::Local(c) => Camera::Local(LocalCamera { manufacturer, ..c }),
                Camera::Remote(c) => Camera::Remote(RemoteCamera { manufacturer, ..c }),
            },
    {
        match self {
            Camera::Local(c) => c.manufacturer = manufacturer,
            Camera::Remote(c) => c.manufacturer = manufacturer,
        }
    }

    pub fn model(&self) -> (r: Option<&str>)
        ensures
            r is Some <==> self.spec_model() is Some,
            r matches Some(t) ==> t@ == self.spec_model()->0@,
    {
        match self {
            Camera::Local(c) => text_of(&c.model),
            Camera::Remote(c) => text_of(&c.model),
        }
    }

    pub fn set_model(&mut self, model: Option<String>)
        ensures
            *final(self) == match *old(self) {
                Camera::Local(c) => Camera::Local(LocalCamera { model, ..c }),
                Camera::Remote(c) => Camera::Remote(RemoteCamera { model, ..c }),
            },
    {
        match self {
            Camera::Local(c) => c.model = model,
            Camera::Remote(c) => c.model = model,
        }
    }

    pub open spec fn spec_name(&self) -> Option<String> {
        match *self {
            Camera::Local(c) => c.name,
            Camera::Remote(c) => c.name,
        }
    }

    pub open spec fn spec_manufacturer(&self) -> Option<String> {
        match *self {
            Camera::Local(c) => c.manufacturer,
            Camera::Remote(c) => c.manufacturer,
        }
    }

    pub open spec fn spec_model(&self) -> Option<String> {
        match *self {
            Camera::Local(c) => c.model,
            Camera::Remote(c) => c.model,
        }
    }
}

} // verus!
