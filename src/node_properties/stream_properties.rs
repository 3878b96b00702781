//! Output streams, and the interface that reads and changes the runtime part
//! of any of them.
use vstd::prelude::*;

verus! {

#[derive(Debug, Clone, PartialEq)]
pub struct StreamRtspOutProperties {
    /// Set once the agent has assigned the stream.
    pub runtime: Option<StreamRtspOutRuntime>,
}

#[derive(Debug, Clone, PartialEq)]
pub struct StreamRtspOutRuntime {
    /// RTSP address of the stream.
    pub uri: url::Url,
    /// Shared-memory path between the runner and the RTSP daemon.
    pub shm_path: Option<String>,
    /// The stream.
    pub stream_id: uuid::Uuid,
}

#[derive(Debug, Clone, PartialEq)]
pub struct StreamWebRtcOutProperties {
    /// Set once the agent has assigned the stream.
    pub runtime: Option<StreamWebRtcOutRuntime>,
}

#[derive(Debug, Clone, PartialEq)]
pub struct StreamWebRtcOutRuntime {
    /// RTSP address that the WebRTC service relays.
    pub uri: url::Url,
    /// Shared-memory path between the runner and the RTSP daemon.
    pub shm_path: Option<String>,
    /// The stream.
    pub stream_id: uuid::Uuid,
}

/// The resources the agent assigned to a stream.
pub trait StreamRuntime {
    spec fn spec_uri(&self) -> url::Url;

    spec fn spec_shm_path(&self) -> Option<String>;

    spec fn spec_stream_id(&self) -> uuid::Uuid;

    fn uri(&self) -> (r: &url::Url)
        ensures
            *r == self.spec_uri(),
    ;

    fn set_uri(&mut self, uri: url::Url)
        ensures
            final(self).spec_uri() == uri,
            final(self).spec_shm_path() == old(self).spec_shm_path(),
            final(self).spec_stream_id() == old(self).spec_stream_id(),
    ;

    fn shm_path(&self) -> (r: Option<&str>)
        ensures
            r is Some <==> self.spec_shm_path() is Some,
            r matches Some(p) ==> p@ == self.spec_shm_path()->0@,
    ;

    fn set_shm_path(&mut self, path: Option<String>)
        ensures
            final(self).spec_shm_path() == path,
            final(self).spec_uri() == old(self).spec_uri(),
            final(self).spec_stream_id() == old(self).spec_stream_id(),
    ;

    fn stream_id(&self) -> (r: uuid::Uuid)
        ensures
            r == self.spec_stream_id(),
    ;

    fn set_stream_id(&mut self, stream_id: uuid::Uuid)
        ensures
            final(self).spec_stream_id() == stream_id,
            final(self).spec_uri() == old(self).spec_uri(),
            final(self).spec_shm_path() == old(self).spec_shm_path(),
    ;
}

/// An output stream, whatever its protocol.
pub trait StreamProperties {
    type Runtime: StreamRuntime;

    spec fn spec_runtime(&self) -> Option<Self::Runtime>;

    spec fn spec_stream_type(&self) -> Seq<char>;

    fn runtime(&self) -> (r: Option<&Self::Runtime>)
        ensures
            r is Some <==> self.spec_runtime() is Some,
            r matches Some(x) ==> *x == self.spec_runtime()->0,
    ;

    fn runtime_mut(&mut self) -> (r: Option<&mut Self::Runtime>)
        ensures
            r is Some <==> old(self).spec_runtime() is Some,
    ;

    /// The protocol, e.g. `rtsp` or `webrtc`.
    fn stream_type(&self) -> (r: &'static str)
        ensures
            r@ == self.spec_stream_type(),
    ;
}

/// Text of an optional string, borrowed.
fn path_text(s: &Option<String>) -> (r: Option<&str>)
    ensures
        r is Some <==> s is Some,
        r matches Some(t) ==> t@ == s->0@,
{
    match s {
        Some(t) => Some(t.as_str()),
        None => None,
    }
}

impl StreamRuntime for StreamRtspOutRuntime {
    open spec fn spec_uri(&self) -> url::Url {
        self.uri
    }

    open spec fn spec_shm_path(&self) -> Option<String> {
        self.shm_path
    }

    open spec fn spec_stream_id(&self) -> uuid::Uuid {
        self.stream_id
    }

    fn uri(&self) -> (r: &url::Url) {
        &self.uri
    }

    fn set_uri(&mut self, uri: url::Url) {
        self.uri = uri;
    }

    fn shm_path(&self) -> (r: Option<&str>) {
        path_text(&self.shm_path)
    }

    fn set_shm_path(&mut self, path: Option<String>) {
        self.shm_path = path;
    }

    fn stream_id(&self) -> (r: uuid::Uuid) {
        self.stream_id.clone()
    }

    fn set_stream_id(&mut self, stream_id: uuid::Uuid) {
        self.stream_id = stream_id;
    }
}

impl StreamProperties for StreamRtspOutProperties {
    type Runtime = StreamRtspOutRuntime;

    open spec fn spec_runtime(&self) -> Option<StreamRtspOutRuntime> {
        self.runtime
    }

    open spec fn spec_stream_type(&self) -> Seq<char> {
        "rtsp"@
    }

    fn runtime(&self) -> (r: Option<&StreamRtspOutRuntime>) {
        self.runtime.as_ref()
    }

    fn runtime_mut(&mut self) -> (r: Option<&mut StreamRtspOutRuntime>) {
        self.runtime.as_mut()
    }

    fn stream_type(&self) -> (r: &'static str) {
        "rtsp"
    }
}

impl StreamRuntime for StreamWebRtcOutRuntime {
    open spec fn spec_uri(&self) -> url::Url {
        self.uri
    }

    open spec fn spec_shm_path(&self) -> Option<String> {
        self.shm_path
    }

    open spec fn spec_stream_id(&self) -> uuid::Uuid {
        self.stream_id
    }

    fn uri(&self) -> (r: &url::Url) {
        &self.uri
    }

    fn set_uri(&mut self, uri: url::Url) {
        self.uri = uri;
    }

    fn shm_path(&self) -> (r: Option<&str>) {
        path_text(&self.shm_path)
    }

    fn set_shm_path(&mut self, path: Option<String>) {
        self.shm_path = path;
    }

    fn stream_id(&self) -> (r: uuid::Uuid) {
        self.stream_id.clone()
    }

    fn set_stream_id(&mut self, stream_id: uuid::Uuid) {
        self.stream_id = stream_id;
    }
}

impl StreamProperties for StreamWebRtcOutProperties {
    type Runtime = StreamWebRtcOutRuntime;

    open spec fn spec_runtime(&self) -> Option<StreamWebRtcOutRuntime> {
        self.runtime
    }

    open spec fn spec_stream_type(&self) -> Seq<char> {
        "webrtc"@
    }

    fn runtime(&self) -> (r: Option<&StreamWebRtcOutRuntime>) {
        self.runtime.as_ref()
    }

    fn runtime_mut(&mut self) -> (r: Option<&mut StreamWebRtcOutRuntime>) {
        self.runtime.as_mut()
    }

    fn stream_type(&self) -> (r: &'static str) {
        "webrtc"
    }
}

} // verus!
