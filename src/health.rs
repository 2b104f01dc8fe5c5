//! The health reporter: a liveness check that does not probe the database.
use vstd::prelude::*;

verus! {

/// The serving state that a health check reports.
#[derive(PartialEq, Eq, Structural, Clone, Copy, Debug)]
pub enum ServingStatus {
    Unknown,
    Serving,
    NotServing,
    ServiceUnknown,
}

/// Reports every service as serving once the process has started.
#[derive(Clone, Copy, Debug)]
pub struct HealthService;

impl HealthService {
    /// The status of `service`: always serving.
    pub fn check(&self, service: &str) -> (r: ServingStatus)
        ensures
            r == ServingStatus::Serving,
    {
        ServingStatus::Serving
    }
}

} // verus!
