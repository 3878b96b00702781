use lumeo_pipeline::overlay::dynamic_kind;
use lumeo_pipeline::{parse_configuration, update_pipeline_def, OverlayError};
use serde_json::Value;

const PIPELINE: &str = r#"[
    {"id": "cam1", "properties": {"type": "video", "source_type": "camera", "framerate": 15, "resolution": "640x480"}, "wires": {"out": ["wm.in"]}},
    {"id": "wm", "properties": {"type": "watermark", "text": "x"}, "wires": {"out": ["enc.in"]}},
    {"id": "enc", "properties": {"type": "encode", "codec": "h264"}, "wires": {}}
]"#;

fn nodes_of(text: &str) -> Vec<Value> {
    serde_json::from_str(text).unwrap()
}

#[test]
fn overlay_merge_scenario() {
    let config = parse_configuration(r#"{"cam1": {"framerate": 30}, "wm": {"text": "y"}}"#).unwrap();
    let mut text = String::from(PIPELINE);
    update_pipeline_def(&mut text, &config).unwrap();
    let nodes = nodes_of(&text);
    assert_eq!(nodes.len(), 2);
    assert_eq!(nodes[0]["id"], "cam1");
    assert_eq!(nodes[0]["properties"]["framerate"], 30);
    assert_eq!(nodes[0]["properties"]["resolution"], "640x480");
    assert_eq!(nodes[0]["properties"]["type"], "video");
    assert_eq!(nodes[0]["wires"]["out"][0], "wm.in");
    assert_eq!(nodes[1]["id"], "enc");
    assert_eq!(nodes[1]["properties"]["codec"], "h264");
}

#[test]
fn overlay_adds_unknown_keys_and_ignores_unknown_ids() {
    let config = parse_configuration(r#"{"enc": {"bitrate": 100, "codec": "h265"}, "ghost": {"a": 1}}"#).unwrap();
    let mut text = String::from(PIPELINE);
    update_pipeline_def(&mut text, &config).unwrap();
    let nodes = nodes_of(&text);
    assert_eq!(nodes[1]["properties"]["bitrate"], 100);
    assert_eq!(nodes[1]["properties"]["codec"], "h265");
    assert_eq!(nodes[0]["properties"]["framerate"], 15);
    assert!(nodes.iter().all(|n| n["id"] != "ghost"));
}

#[test]
fn overlay_is_idempotent() {
    let config = parse_configuration(r#"{"cam1": {"framerate": 30, "extra": [1, 2]}}"#).unwrap();
    let mut once = String::from(PIPELINE);
    update_pipeline_def(&mut once, &config).unwrap();
    let mut twice = once.clone();
    update_pipeline_def(&mut twice, &config).unwrap();
    assert_eq!(nodes_of(&once), nodes_of(&twice));
}

#[test]
fn overlay_drops_every_dynamic_kind() {
    for kind in [
        "annotate_barcode", "annotate_line_counter", "annotate_lpr", "annotate_motion",
        "annotate_presence", "annotate_queue", "filter_frames", "log_meta", "overlay_meta",
        "publish_google_sheets", "stream_rtmp", "transform_blur", "watermark", "webhook_local",
    ] {
        assert!(dynamic_kind(kind));
        let mut text = format!(r#"[{{"id": "d", "properties": {{"type": "{}"}}, "wires": {{}}}}]"#, kind);
        let config = parse_configuration(r#"{"d": {"a": 1}}"#).unwrap();
        update_pipeline_def(&mut text, &config).unwrap();
        assert_eq!(nodes_of(&text).len(), 0);
    }
    assert!(!dynamic_kind("video"));
    assert!(!dynamic_kind("watermarks"));
    assert!(!dynamic_kind(""));
}

#[test]
fn overlay_errors_leave_text() {
    let config = parse_configuration("{}").unwrap();
    let mut text = String::from("not json");
    assert!(matches!(update_pipeline_def(&mut text, &config), Err(OverlayError::Json(_))));
    assert_eq!(text, "not json");

    let mut text = String::from("[1]");
    assert_eq!(update_pipeline_def(&mut text, &config), Err(OverlayError::NodeNotObject));
    let mut text = String::from(r#"[{"id": "a", "properties": 3}]"#);
    assert_eq!(update_pipeline_def(&mut text, &config), Err(OverlayError::PropertiesNotObject));
    let mut text = String::from(r#"[{"id": "a", "properties": {"codec": "h264"}}]"#);
    assert_eq!(update_pipeline_def(&mut text, &config), Err(OverlayError::MissingKind));
    let mut text = String::from(r#"[{"id": 7, "properties": {"type": "encode"}}]"#);
    assert_eq!(update_pipeline_def(&mut text, &config), Err(OverlayError::IdNotText));
    assert_eq!(text, r#"[{"id": 7, "properties": {"type": "encode"}}]"#);
}

#[test]
fn configuration_errors() {
    assert_eq!(
        parse_configuration(r#"{"cam1": 5}"#).err(),
        Some(OverlayError::ConfigurationNotObject(String::from("cam1")))
    );
    assert!(matches!(parse_configuration("[1, 2]"), Err(OverlayError::Json(_))));
    assert_eq!(parse_configuration(r#"{"a": {}, "b": {"x": 1}}"#).unwrap().len(), 2);
}

#[test]
fn dynamic_nodes_need_no_id() {
    let config = parse_configuration("{}").unwrap();
    let mut text = String::from(
        r#"[{"properties": {"type": "log_meta"}}, {"id": "enc", "properties": {"type": "encode"}}]"#,
    );
    update_pipeline_def(&mut text, &config).unwrap();
    let nodes = nodes_of(&text);
    assert_eq!(nodes.len(), 1);
    assert_eq!(nodes[0]["id"], "enc");

    let original = r#"[{"properties": {"type": "encode"}}]"#;
    let mut text = String::from(original);
    assert_eq!(update_pipeline_def(&mut text, &config), Err(OverlayError::IdNotText));
    assert_eq!(text, original);
}

#[test]
fn first_faulty_node_gives_the_error() {
    let config = parse_configuration("{}").unwrap();
    let mut text = String::from(r#"[{"id": "a", "properties": {"codec": "h264"}}, 3]"#);
    assert_eq!(update_pipeline_def(&mut text, &config), Err(OverlayError::MissingKind));
}
