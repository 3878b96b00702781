//! Deployment commands.
use vstd::prelude::*;

verus! {

#[derive(Debug)]
pub struct StartDeployment {
    pub id: uuid::Uuid,
    /// The pipeline, as text.
    pub pipeline: String,
}

#[derive(Debug)]
pub struct RestartDeployment {
    pub id: uuid::Uuid,
    /// The pipeline, as text.
    pub pipeline: String,
}

#[derive(Debug)]
pub struct StopDeployment {
    pub id: uuid::Uuid,
}

} // verus!
