//! The heartbeat service: it answers a ping, and holds nothing.

use vstd::prelude::*;

verus! {

#[derive(Debug, Clone, Copy, PartialEq, Eq, Structural)]
pub struct HeartbeatService;

impl HeartbeatService {
    pub fn new() -> (service: Self)
        ensures
            service == HeartbeatService,
    {
        HeartbeatService
    }

    /// Answers a ping.
    pub fn ping(&self) -> (alive: bool)
        ensures
            alive,
    {
        true
    }
}

} // verus!
