//! The catalogue of node kinds and their properties.
use vstd::prelude::*;

pub mod camera_properties;
pub mod clip_properties;
pub mod model_inference_properties;
pub mod simple_properties;
pub mod stream_properties;
pub mod transform_properties;
pub mod video_source_properties;

use clip_properties::{ClipProperties, SnapshotProperties};
use model_inference_properties::{ModelInferenceProperties, TrackProperties};
use simple_properties::{
    CombineProperties, EncodeProperties, FunctionProperties, GridProperties, GstTemplateProperties,
    MetadataInserterProperties,
};
use stream_properties::{StreamRtspOutProperties, StreamWebRtcOutProperties};
use transform_properties::TransformProperties;
use video_source_properties::VideoSourceProperties;

verus! {

/// The properties of a node; the variant is the node's kind, written on the
/// wire as the `type` tag.
#[derive(Clone, Debug, PartialEq)]
pub enum NodeProperties {
    Clip(ClipProperties),
    Combine(CombineProperties),
    Encode(EncodeProperties),
    Function(FunctionProperties),
    Grid(GridProperties),
    GstTemplate(GstTemplateProperties),
    MetadataInserter(MetadataInserterProperties),
    ModelInference(ModelInferenceProperties),
    Snapshot(SnapshotProperties),
    StreamRtspOut(StreamRtspOutProperties),
    StreamWebRtcOut(StreamWebRtcOutProperties),
    Track(TrackProperties),
    Transform(TransformProperties),
    VideoSource(VideoSourceProperties),
}

} // verus!
