use lumeo_pipeline::commands::camera::{Camera, LocalCamera, LocalCameraInterface, Status};
use lumeo_pipeline::commands::webrtc::{
    BoolResponseCompat, Candidates, GetCandidatesResponse, HangUpResponse, SetAnswerResponse,
    StructResponseCompat, WebRtcError,
};
use lumeo_pipeline::commands::CommandError;
use lumeo_pipeline::events::deployment::{GstErrorDomain, NodeLog, NodeLogs};
use lumeo_pipeline::{default_inference_interval, NonZeroCount, CommonVideoSourceProperties, TrackerProfile, TriggerMode};

#[test]
fn node_logs_len() {
    let logs =
        NodeLogs { logs: vec![NodeLog { msg: "hi".into() }, NodeLog { msg: "there".into() }] };
    assert_eq!(logs.bytes_len(), 7);
}

#[test]
fn node_logs_len_counts_bytes() {
    assert_eq!(NodeLogs { logs: vec![] }.bytes_len(), 0);
    let logs = NodeLogs { logs: vec![NodeLog { msg: "h\u{e9}".into() }] };
    assert_eq!(logs.bytes_len(), 3);
}

#[test]
fn webrtc_error_messages() {
    assert_eq!(WebRtcError::new(String::from("boom")).message(), "boom");
    assert_eq!(WebRtcError::null().message(), "<no error message from WebRTC-streamer>");
    assert_eq!(WebRtcError::from_error(CommandErrorText).message(), "bad");
}

struct CommandErrorText;

impl std::fmt::Display for CommandErrorText {
    fn fmt(&self, f: &mut std::fmt::Formatter<'_>) -> std::fmt::Result {
        f.write_str("bad")
    }
}

#[test]
fn bool_compat_results() {
    assert!(BoolResponseCompat::Bool(true).into_result().is_ok());
    let e = BoolResponseCompat::Bool(false).into_result().unwrap_err();
    assert_eq!(e.message(), "<no error message from WebRTC-streamer>");
    let e = BoolResponseCompat::Result(Err(WebRtcError::new(String::from("no")))).into_result();
    assert_eq!(e.unwrap_err().message(), "no");
    assert!(SetAnswerResponse::from(BoolResponseCompat::Result(Ok(()))).0.is_ok());
    assert!(HangUpResponse::from(BoolResponseCompat::Bool(false)).0.is_err());
}

#[test]
fn struct_compat_results() {
    let c = StructResponseCompat::Struct(Candidates { completed: true, candidates: vec![] });
    assert!(GetCandidatesResponse::from(c).0.unwrap().completed);
    let e: StructResponseCompat<Candidates> = StructResponseCompat::Result(Err(WebRtcError::null()));
    assert!(e.into_result().is_err());
}

#[test]
fn camera_accessors() {
    let mut camera = Camera::Local(LocalCamera {
        uri: "file:///dev/video0".parse().unwrap(),
        status: Status::Online,
        name: Some("Entrance #4".into()),
        manufacturer: None,
        model: None,
        interface: LocalCameraInterface::Usb,
        capabilities: vec![],
    });
    assert_eq!(camera.uri().as_str(), "file:///dev/video0");
    assert_eq!(camera.name(), Some("Entrance #4"));
    assert_eq!(camera.manufacturer(), None);
    camera.set_status(Status::Offline);
    assert_eq!(camera.status(), &Status::Offline);
    camera.set_model(Some(String::from("M1")));
    assert_eq!(camera.model(), Some("M1"));
    camera.set_manufacturer(Some(String::from("Acme")));
    assert_eq!(camera.manufacturer(), Some("Acme"));
    camera.set_name(None);
    assert_eq!(camera.name(), None);
    camera.set_uri("file:///dev/video1".parse().unwrap());
    assert_eq!(camera.uri().as_str(), "file:///dev/video1");
}

#[test]
fn defaults_and_codes() {
    assert_eq!(default_inference_interval().get(), 1);
    assert!(NonZeroCount::new(0).is_none());
    assert_eq!(NonZeroCount::new(5).unwrap().get(), 5);
    assert_eq!(TrackerProfile::default(), TrackerProfile::Default);
    assert_eq!(TriggerMode::default(), TriggerMode::Exact);
    assert_eq!(GstErrorDomain::Core.code(), 1);
    assert_eq!(GstErrorDomain::Stream.code(), 4);
    assert_eq!(CommandError::DeserializeCommand.message(), "Failed to deserialize command");
    assert_eq!(CommonVideoSourceProperties::declared_framerate(Some(15), Some(30)), Some(15));
    assert_eq!(CommonVideoSourceProperties::declared_framerate(None, Some(30)), Some(30));
    assert_eq!(CommonVideoSourceProperties::declared_framerate(None, None), None);
}
