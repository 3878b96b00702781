//! Snapshot commands.
use vstd::prelude::*;

verus! {

#[derive(Debug, Clone)]
pub struct Request {
    pub source: SnapshotSource,
    pub file_id: uuid::Uuid,
    pub put_url: url::Url,
}

#[derive(Debug, Clone)]
pub enum SnapshotSource {
    Camera { camera_id: uuid::Uuid },
    Stream { stream_id: uuid::Uuid },
}

} // verus!
