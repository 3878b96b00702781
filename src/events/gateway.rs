//! Events about the gateway itself; wire tag `status`.
use vstd::prelude::*;

verus! {

#[derive(Debug, Clone)]
pub enum Event {
    Online { version: String },
    Offline,
}

} // verus!
