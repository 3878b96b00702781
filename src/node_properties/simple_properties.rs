//! Node kinds whose properties are a few plain fields.
use vstd::prelude::*;

use crate::json::JsonObject;
use crate::resolution::Resolution;

verus! {

/// Interleaves several streams into one and resizes every frame.
#[derive(Debug, Default, Clone, Copy, PartialEq, Eq, Structural)]
pub struct CombineProperties {
    pub resolution: Option<Resolution>,
    pub num_streams: u32,
}

/// Interleaves several streams into one multiplexed stream and resizes every frame.
#[derive(Debug, Default, Clone, Copy, PartialEq, Eq, Structural)]
pub struct MultiplexProperties {
    pub resolution: Option<Resolution>,
    pub num_streams: u32,
}

#[derive(Default, Debug, Clone, Copy, PartialEq, Eq, Structural)]
pub struct ConvertProperties {
    pub fps: Option<u32>,
    pub resolution: Option<Resolution>,
}

#[derive(Default, Debug, Clone, PartialEq)]
pub struct EncodeProperties {
    pub codec: String,
    pub max_bitrate: Option<u32>,
    pub bitrate: Option<u32>,
    pub quality: Option<u32>,
    /// Framerate (wire alias `fps`).
    pub framerate: Option<u32>,
}

#[derive(Debug, Default, Clone, Copy, PartialEq, Eq, Structural)]
pub struct GridProperties {
    pub rows: u32,
    pub columns: u32,
    pub resolution: Option<Resolution>,
}

#[derive(Clone, Debug, PartialEq)]
pub struct FunctionProperties {
    /// Source code of the function.
    pub code: String,
    /// Free-form properties handed to the code; empty when the wire leaves them out.
    pub props: JsonObject,
    /// Set once the agent has stored the code.
    pub runtime: Option<FunctionRuntime>,
}

#[derive(Clone, Debug, PartialEq)]
pub struct FunctionRuntime {
    /// Path of the module file that holds the code.
    pub module: Option<std::path::PathBuf>,
}

#[derive(Debug, Clone, PartialEq)]
pub struct GstTemplateProperties {
    pub definition: String,
    /// Empty when the wire leaves them out.
    pub props: JsonObject,
}

/// Inserts lines of text read from a source into the frames' metadata.
#[derive(Debug, Clone, PartialEq)]
pub struct MetadataInserterProperties {
    /// Wire name `source_uri`.
    pub uri: url::Url,
}

} // verus!
