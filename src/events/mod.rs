//! Telemetry events sent by the agent.
use vstd::prelude::*;

pub mod camera;
pub mod deployment;
pub mod gateway;

verus! {

#[derive(Debug, Clone)]
pub enum Event {
    Gateway(gateway::Event),
    Deployment(deployment::Event),
}

} // verus!
