//! Model of a video-processing pipeline graph: typed nodes wired through named
//! ports, the text codecs of its scalar values, the check that every wire ends
//! at an existing node, and the configuration overlay applied before a graph
//! is run.
use vstd::prelude::*;

pub mod commands;
pub mod events;
pub mod external;
pub mod json;
pub mod keyed;
pub mod node;
pub mod node_properties;
pub mod overlay;
pub mod pad;
pub mod pipeline;
pub mod resolution;
pub mod text;

pub use node::Node;
pub use node_properties::clip_properties::{
    ClipProperties, CommonClipProperties, CommonSnapshotProperties, LocalClipProperties,
    LocalSnapshotProperties, LumeoCloudClipProperties, LumeoCloudSnapshotProperties,
    SnapshotProperties, TriggerMode,
};
pub use node_properties::model_inference_properties::{
    default_inference_interval, ClassInferenceProperties, ModelInferenceProperties,
    ModelInferenceRuntime, NonZeroCount, Ratio, TrackProperties, Tracker, TrackerCustomProperties,
    TrackerProfile,
};
pub use node_properties::simple_properties::{
    CombineProperties, ConvertProperties, EncodeProperties, FunctionProperties, FunctionRuntime,
    GridProperties, GstTemplateProperties, MetadataInserterProperties, MultiplexProperties,
};
pub use node_properties::stream_properties::{
    StreamRtspOutProperties, StreamRtspOutRuntime, StreamWebRtcOutProperties,
    StreamWebRtcOutRuntime,
};
pub use node_properties::transform_properties::{Degrees, FlipDirection, TransformProperties};
pub use node_properties::video_source_properties::{
    CameraProperties, CameraRuntime, CommonVideoSourceProperties, CsiCameraRuntime,
    InputRtspStreamRuntime, InputStreamProperties, InputStreamRuntime, InputWebRtcStreamRuntime,
    RotateDirection, UsbCameraRuntime, VideoSourceProperties,
};
pub use node_properties::NodeProperties;
pub use overlay::{
    configure_nodes, parse_configuration, update_pipeline_def, NodeConfig, NodeEntry,
    OverlayError,
};
pub use pad::{SinkPad, SourcePad, SourcePads};
pub use pipeline::{DanglingPadReference, Pipeline};
pub use resolution::{Crop, FormatError, Resolution};
