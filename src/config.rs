//! What a run is given: the endpoint, the canister and the key file.
use vstd::prelude::*;
use crate::session::{initial, Action, Pipeline};
use crate::types::ActorId;

verus! {

/// The settings of one run.
#[derive(Debug, Clone)]
pub struct Config {
    /// The URL of the node to connect to.
    pub url: String,
    /// The canister whose logs are fetched.
    pub canister: ActorId,
    /// The PEM key file that the identity is made from.
    pub keyfile_path: String,
}

impl Config {
    /// Starts a run against the configured endpoint.
    pub fn start_session(&self) -> (r: (Pipeline, Action))
        ensures
            r.0 == initial(self.url@),
            r.1 == Action::LoadIdentity,
    {
        Pipeline::start(self.url.as_str())
    }
}

} // verus!
