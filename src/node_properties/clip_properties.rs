//! Recording of clips and snapshots, locally or to the cloud.
use vstd::prelude::*;

verus! {

/// Wire tag `location`.
#[derive(Debug, Clone, PartialEq)]
pub enum ClipProperties {
    Local(LocalClipProperties),
    LumeoCloud(LumeoCloudClipProperties),
}

#[derive(Default, Debug, Clone, PartialEq)]
pub struct CommonClipProperties {
    pub min_duration: Option<u64>,
    pub max_duration: Option<u64>,
    pub max_size: Option<u64>,
    pub retention_duration: Option<u64>,
    pub webhook_url: Option<url::Url>,
    pub trigger: Option<String>,
    pub trigger_mode: TriggerMode,
}

#[derive(Debug, Clone, Copy, PartialEq, Eq, Structural)]
pub enum TriggerMode {
    Exact,
    FixedDuration,
}

impl Default for TriggerMode {
    fn default() -> (r: TriggerMode)
        ensures
            r == TriggerMode::Exact,
    {
        TriggerMode::Exact
    }
}

#[derive(Default, Debug, Clone, PartialEq)]
pub struct LocalClipProperties {
    pub common: CommonClipProperties,
    pub path: Option<std::path::PathBuf>,
    pub max_edge_files: Option<u64>,
}

#[derive(Default, Debug, Clone, PartialEq)]
pub struct LumeoCloudClipProperties {
    pub common: CommonClipProperties,
}

/// Wire tag `location`.
#[derive(Debug, Clone, PartialEq)]
pub enum SnapshotProperties {
    Local(LocalSnapshotProperties),
    LumeoCloud(LumeoCloudSnapshotProperties),
}

#[derive(Default, Debug, Clone, PartialEq)]
pub struct CommonSnapshotProperties {
    pub retention_duration: Option<u64>,
    pub webhook_url: Option<url::Url>,
    pub trigger: Option<String>,
}

#[derive(Default, Debug, Clone, PartialEq)]
pub struct LocalSnapshotProperties {
    pub common: CommonSnapshotProperties,
    pub path: Option<std::path::PathBuf>,
    pub max_edge_files: Option<u64>,
}

#[derive(Default, Debug, Clone, PartialEq)]
pub struct LumeoCloudSnapshotProperties {
    pub common: CommonSnapshotProperties,
}

} // verus!
