//! Commands that the control plane sends to the agent.
use vstd::prelude::*;

pub mod camera;
pub mod deployment;
pub mod snapshot;
pub mod webrtc;

verus! {

#[derive(Debug, Clone, Copy, PartialEq, Eq, Structural)]
pub enum CommandError {
    DeserializeCommand,
}

impl CommandError {
    pub fn message(&self) -> (r: &'static str)
        ensures
            r@ == "Failed to deserialize command"@,
    {
        "Failed to deserialize command"
    }
}

/// A message: a request, which expects a response, or a notification.
#[derive(Debug)]
pub enum Message {
    Request(Request),
    Notification(Notification),
}

/// A request; the response goes to `respond_to`.
#[derive(Debug)]
pub struct Request {
    pub body: Body,
    pub respond_to: String,
}

/// A message that expects no response.
#[derive(Debug)]
pub struct Notification {
    pub body: Body,
}

#[derive(Debug)]
pub enum Body {
    /// Start a deployment (agents without `RestartDeployment` also restart on it).
    StartDeployment(deployment::StartDeployment),
    RestartDeployment(deployment::RestartDeployment),
    StopDeployment(deployment::StopDeployment),
    Camera(camera::Request),
    WebRtc(webrtc::Request),
    Snapshot(snapshot::Request),
    DeleteGateway,
}

} // verus!
