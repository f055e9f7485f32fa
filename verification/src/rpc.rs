//! What the RPC layer asks of the core: which status an error maps to, and
//! whether a request can be served by a device.

pub mod errors;
pub mod heartbeat;
pub mod led;
pub mod reflection;
