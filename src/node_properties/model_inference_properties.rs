//! Inference with a model, and tracking of the objects it finds.
use vstd::prelude::*;

use crate::resolution::Resolution;
use std::collections::BTreeMap;

verus! {

#[derive(Clone, Debug, PartialEq)]
pub struct ModelInferenceProperties {
    /// The inference model.
    pub model_id: uuid::Uuid,
    /// Infer only on objects that this other node detected.
    pub infer_on_node: Option<String>,
    /// Inference interval in frames; 1 when the wire leaves it out.
    pub inference_interval: NonZeroCount,
    /// Set once the agent has fetched the model.
    pub runtime: Option<ModelInferenceRuntime>,
    /// Per class label; the label `*` applies to every class.
    pub class_properties: Option<BTreeMap<String, ClassInferenceProperties>>,
}

/// A count of at least 1.
#[derive(Debug, Clone, Copy, PartialEq, Eq)]
pub struct NonZeroCount {
    value: u32,
}

impl NonZeroCount {
    #[verifier::type_invariant]
    closed spec fn at_least_one(&self) -> bool {
        self.value >= 1
    }

    pub closed spec fn spec_get(&self) -> u32 {
        self.value
    }

    /// The count `value`, unless it is 0.
    pub fn new(value: u32) -> (r: Option<NonZeroCount>)
        ensures
            r is Some <==> value != 0,
            r matches Some(c) ==> c.spec_get() == value,
    {
        if value == 0 {
            None
        } else {
            Some(NonZeroCount { value })
        }
    }

    pub fn get(&self) -> (r: u32)
        ensures
            r == self.spec_get(),
            r >= 1,
    {
        proof {
            use_type_invariant(self);
        }
        self.value
    }
}

/// The inference interval that applies when none is declared.
pub fn default_inference_interval() -> (r: NonZeroCount)
    ensures
        r.spec_get() == 1,
{
    NonZeroCount { value: 1 }
}

#[derive(Clone, Debug, PartialEq)]
pub struct ModelInferenceRuntime {
    /// Local path of the generated inference configuration.
    pub config: Option<std::path::PathBuf>,
    /// Unique numeric ids that the agent gave to inference nodes, by node id.
    pub infer_node_unique_ids: Option<BTreeMap<String, i32>>,
}

/// A fraction held as the bit pattern of an IEEE-754 binary32 value
/// (`f32::to_bits`), so that it is carried without rounding.
#[derive(Debug, Clone, Copy, PartialEq, Eq, Structural)]
pub struct Ratio {
    pub bits: u32,
}

#[derive(Clone, Debug, PartialEq)]
pub struct ClassInferenceProperties {
    /// Minimum inference threshold, in [0, 1].
    pub min_inference_threshold: Option<Ratio>,
    /// Relative side difference under which rectangles are grouped.
    pub eps: Option<Ratio>,
    /// Smallest object considered, `WIDTHxHEIGHT`.
    pub object_min_size: Option<Resolution>,
    /// Largest object considered, `WIDTHxHEIGHT`.
    pub object_max_size: Option<Resolution>,
}

#[derive(Debug, Clone, PartialEq)]
pub struct TrackProperties {
    pub tracker: Tracker,
    /// `default` when the wire leaves it out.
    pub profile: TrackerProfile,
    pub custom_properties: Option<TrackerCustomProperties>,
}

/// Wire tag `type`.
#[derive(Debug, Clone, Copy, PartialEq, Eq, Structural)]
pub enum Tracker {
    /// Discriminative correlation filter tracker.
    Dcf,
    /// Kanade-Lucas-Tomasi tracker.
    Klt,
    /// Intersection-over-union tracker.
    Iou,
}

#[derive(Debug, Clone, Copy, PartialEq, Eq, Structural)]
pub enum TrackerProfile {
    /// The tracker's default configuration.
    Default,
    /// A configuration tuned for stationary objects, where the tracker has one.
    Stationary,
    /// A configuration set by the user.
    Custom,
}

impl Default for TrackerProfile {
    fn default() -> (r: TrackerProfile)
        ensures
            r == TrackerProfile::Default,
    {
        TrackerProfile::Default
    }
}

#[derive(Clone, Debug, PartialEq)]
pub struct TrackerCustomProperties {
    /// Minimum IoU difference to existing tracks for discarding a new track.
    pub min_iou_diff: Option<Ratio>,
    /// Consecutive frames until a track is valid.
    pub activation_age: Option<NonZeroCount>,
}

} // verus!
