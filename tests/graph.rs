use lumeo_pipeline::{
    CameraProperties, CameraRuntime, CommonVideoSourceProperties, Crop, EncodeProperties,
    FlipDirection, Degrees, Node, NodeProperties, Pipeline, Resolution, RotateDirection, SinkPad,
    SourcePad, SourcePads, StreamRtspOutProperties, StreamRtspOutRuntime, UsbCameraRuntime,
    VideoSourceProperties,
};
use std::str::FromStr;
use url::Url;
use uuid::Uuid;

fn video_properties() -> NodeProperties {
    NodeProperties::VideoSource(VideoSourceProperties::Camera(CameraProperties {
        common: CommonVideoSourceProperties {
            source_id: Uuid::nil(),
            resolution: Some(Resolution { width: 720, height: 480 }),
            framerate: Some(15),
            rotate: Some(Degrees { bits: 30.0f64.to_bits() }),
            rotate_fixed_angle: Some(RotateDirection::Clockwise180),
            flip: Some(FlipDirection::Vertical),
            crop: Some(Crop { top: 10, bottom: 20, left: 30, right: 40 }),
        },
        runtime: Some(CameraRuntime::Usb(UsbCameraRuntime {
            uri: Url::from_str("file:///dev/video0").unwrap(),
            name: "Qwerty 3000".to_string(),
        })),
    }))
}

fn encode_properties() -> NodeProperties {
    NodeProperties::Encode(EncodeProperties {
        codec: "h264".to_string(),
        max_bitrate: Some(1_500_000),
        bitrate: None,
        quality: Some(10),
        framerate: Some(15),
    })
}

fn stream_rtsp_out_properties() -> NodeProperties {
    NodeProperties::StreamRtspOut(StreamRtspOutProperties {
        runtime: Some(StreamRtspOutRuntime {
            uri: Url::from_str("rtsp://127.0.0.1:5555/mycamera").unwrap(),
            shm_path: None,
            stream_id: Uuid::nil(),
        }),
    })
}

fn sink(node: &str, name: &str) -> SinkPad {
    SinkPad { node: String::from(node), name: String::from(name) }
}

fn pads(list: Vec<(&str, Vec<SinkPad>)>) -> SourcePads {
    let mut pads = SourcePads::new();
    for (name, sinks) in list {
        pads.add(SourcePad { name: String::from(name), sinks });
    }
    pads
}

fn check_deserialize_pipeline(pipeline: &Pipeline) {
    let node = pipeline.node_by_id("video1").unwrap();
    assert_eq!(node.id(), "video1");
    assert_eq!(node.properties(), &video_properties());
    let src_pad = node.source_pads().get("snapshot").unwrap();
    assert!(src_pad.sinks.is_empty());
    let src_pad = node.source_pads().get("video").unwrap();
    assert_eq!(src_pad.sinks, &["encode1.input".parse().unwrap()]);

    let node = pipeline.node_by_id("encode1").unwrap();
    assert_eq!(node.id(), "encode1");
    assert_eq!(node.properties(), &encode_properties());
    let src_pad = node.source_pads().get("output").unwrap();
    assert_eq!(src_pad.sinks, &["stream_rtsp_out1.input".parse().unwrap()]);

    let node = pipeline.node_by_id("stream_rtsp_out1").unwrap();
    assert_eq!(node.id(), "stream_rtsp_out1");
    assert_eq!(node.properties(), &stream_rtsp_out_properties());
    assert!(node.source_pads().is_empty());
}

#[test]
fn pipeline_nodes_ser() {
    let mut pipeline = Pipeline::new();
    let node = Node::new(
        "video1",
        video_properties(),
        Some(pads(vec![("video", vec![sink("encode1", "input")]), ("snapshot", vec![])])),
    );
    pipeline.add_node(node);
    let node = Node::new(
        "encode1",
        encode_properties(),
        Some(pads(vec![("output", vec![sink("stream_rtsp_out1", "input")])])),
    );
    pipeline.add_node(node);
    let node = Node::new("stream_rtsp_out1", stream_rtsp_out_properties(), None);
    pipeline.add_node(node);

    // Write the graph out as its node list and read it back.
    let nodes = pipeline.into_nodes();
    assert_eq!(nodes.len(), 3);
    let pipeline = Pipeline::from_nodes(nodes).unwrap();
    check_deserialize_pipeline(&pipeline);
}

#[test]
fn valid_wiring_scenario() {
    let a = Node::new("A", encode_properties(), Some(pads(vec![("out", vec![sink("B", "in")])])));
    let b = Node::new("B", stream_rtsp_out_properties(), None);
    let pipeline = Pipeline::from_nodes(vec![a, b]).unwrap();
    let out = pipeline.node_by_id("A").unwrap().source_pads().get("out").unwrap();
    assert_eq!(out.sinks, vec![SinkPad { node: String::from("B"), name: String::from("in") }]);
    assert!(pipeline.node_by_id("B").unwrap().source_pads().is_empty());
    assert!(pipeline.node_by_id("C").is_none());
}

#[test]
fn dangling_reference_scenario() {
    let a = Node::new("A", encode_properties(), Some(pads(vec![("out", vec![sink("B", "in")])])));
    let err = Pipeline::from_nodes(vec![a]).unwrap_err();
    assert_eq!(err.missing_target, "B");
    assert_eq!(err.source_node, "A");
    assert_eq!(err.source_pad, "out");
}

#[test]
fn dangling_reference_among_valid_wires() {
    let a = Node::new(
        "A",
        encode_properties(),
        Some(pads(vec![("one", vec![sink("B", "in")]), ("two", vec![sink("B", "x"), sink("Z", "in")])])),
    );
    let b = Node::new("B", encode_properties(), Some(pads(vec![("loop", vec![sink("A", "in")])])));
    let err = Pipeline::from_nodes(vec![a, b]).unwrap_err();
    assert_eq!(err.source_node, "A");
    assert_eq!(err.source_pad, "two");
    assert_eq!(err.missing_target, "Z");
}

#[test]
fn cycles_are_accepted() {
    let a = Node::new("A", encode_properties(), Some(pads(vec![("out", vec![sink("B", "in")])])));
    let b = Node::new("B", encode_properties(), Some(pads(vec![("out", vec![sink("A", "in")])])));
    let pipeline = Pipeline::from_nodes(vec![a, b]).unwrap();
    assert_eq!(pipeline.nodes().len(), 2);
}

#[test]
fn later_duplicate_id_wins() {
    let first = Node::new("A", encode_properties(), None);
    let second = Node::new("A", stream_rtsp_out_properties(), None);
    let pipeline = Pipeline::from_nodes(vec![first, second]).unwrap();
    assert_eq!(pipeline.nodes().len(), 1);
    assert_eq!(pipeline.node_by_id("A").unwrap().properties(), &stream_rtsp_out_properties());
    let mut pipeline = pipeline;
    pipeline.add_node(Node::new("A", encode_properties(), None));
    assert_eq!(pipeline.nodes().len(), 1);
    assert_eq!(pipeline.node_by_id("A").unwrap().properties(), &encode_properties());
}

#[test]
fn add_node_does_not_check_wires() {
    let mut pipeline = Pipeline::new();
    pipeline.add_node(Node::new("A", encode_properties(), Some(pads(vec![("o", vec![sink("gone", "in")])]))));
    assert!(pipeline.node_by_id("A").is_some());
    assert!(pipeline.dangling_reference().is_some());
    assert!(Pipeline::new().dangling_reference().is_none());
}

#[test]
fn source_pads_replace_by_name() {
    let mut p = SourcePads::new();
    assert!(p.is_empty());
    p.add(SourcePad { name: String::from("out"), sinks: vec![sink("B", "in")] });
    p.add(SourcePad { name: String::from("aux"), sinks: vec![] });
    p.add(SourcePad { name: String::from("out"), sinks: vec![sink("C", "in"), sink("D", "in")] });
    assert!(!p.is_empty());
    assert_eq!(p.all().len(), 2);
    assert_eq!(p.get("out").unwrap().sinks, vec![sink("C", "in"), sink("D", "in")]);
    assert!(p.get("aux").unwrap().sinks.is_empty());
    assert!(p.get("missing").is_none());
    let copy = p.clone();
    assert_eq!(copy, p);
}

#[test]
fn node_accessors() {
    let mut node = Node::new("n", encode_properties(), None);
    assert!(node.source_pads().is_empty());
    node.source_pads_mut().add(SourcePad { name: String::from("o"), sinks: vec![] });
    assert!(node.source_pads().get("o").is_some());
    *node.properties_mut() = stream_rtsp_out_properties();
    assert_eq!(node.properties(), &stream_rtsp_out_properties());
    assert_eq!(node.id(), "n");
}
