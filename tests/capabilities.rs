use lumeo_pipeline::node_properties::camera_properties::{
    CameraProperties, CameraRuntime, UsbCameraProperties, UsbCameraRuntime,
};
use lumeo_pipeline::node_properties::stream_properties::{StreamProperties, StreamRuntime};
use lumeo_pipeline::{Resolution, StreamRtspOutProperties, StreamRtspOutRuntime, StreamWebRtcOutProperties};
use std::str::FromStr;
use url::Url;
use uuid::Uuid;

#[test]
fn generic_camera_api() {
    let usb_camera = UsbCameraProperties {
        source: String::from("USB"),
        runtime: Some(UsbCameraRuntime { uri: Url::from_str("file:///whatever").unwrap() }),
        resolution: Some(Resolution { width: 640, height: 480 }),
        framerate: Some(30),
    };

    check_camera_props(&usb_camera);
}

fn check_camera_props<C>(camera: &C)
where
    C: CameraProperties,
{
    assert_eq!(camera.source(), "USB");
    assert_eq!(camera.framerate().unwrap(), 30);
    assert_eq!(*camera.resolution().unwrap(), Resolution { width: 640, height: 480 });
    assert_eq!(camera.runtime().unwrap().uri(), &Url::from_str("file:///whatever").unwrap());
}

#[test]
fn camera_setters() {
    let mut camera = UsbCameraProperties {
        source: String::from("USB"),
        runtime: None,
        resolution: None,
        framerate: None,
    };
    assert!(camera.runtime_mut().is_none());
    camera.set_framerate(Some(25));
    camera.set_resolution(Some(Resolution { width: 1, height: 2 }));
    camera.set_source(String::from("cam"));
    assert_eq!(camera.framerate(), Some(25));
    assert_eq!(camera.source(), "cam");
    camera.runtime = Some(UsbCameraRuntime { uri: Url::from_str("file:///a").unwrap() });
    camera.runtime_mut().unwrap().set_uri(Url::from_str("file:///b").unwrap());
    assert_eq!(camera.runtime().unwrap().uri().as_str(), "file:///b");
}

#[test]
fn generic_stream_api() {
    let mut rtsp = StreamRtspOutProperties {
        runtime: Some(StreamRtspOutRuntime {
            uri: Url::from_str("rtsp://127.0.0.1:5555/mycamera").unwrap(),
            shm_path: None,
            stream_id: Uuid::nil(),
        }),
    };
    assert_eq!(rtsp.stream_type(), "rtsp");
    let runtime = rtsp.runtime_mut().unwrap();
    runtime.set_shm_path(Some(String::from("/tmp/s")));
    assert_eq!(rtsp.runtime().unwrap().shm_path(), Some("/tmp/s"));
    assert_eq!(rtsp.runtime().unwrap().stream_id(), Uuid::nil());
    let webrtc = StreamWebRtcOutProperties { runtime: None };
    assert_eq!(webrtc.stream_type(), "webrtc");
    assert!(webrtc.runtime().is_none());
}
