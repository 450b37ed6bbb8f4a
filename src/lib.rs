//! The control plane of a desktop client for tool-providing RPC services: a
//! registry of live sessions keyed by caller-chosen ids, the choice of wire
//! transport for a session, and the lifecycle and settings document of a
//! small local control server.

use vstd::prelude::*;
use vstd::string::*;

pub mod codec;
pub mod control;
pub mod registry;
pub mod settings;
pub mod transport;

pub use control::{SyncError, SyncService};
pub use registry::{McpError, SessionRegistry};
pub use settings::SettingsStore;
pub use transport::{select_transport, TransportType};

verus! {

/// The greeting that the host shows for `name`.
pub fn greet(name: &str) -> (r: String)
    ensures
        r@ == "Hello, "@ + name@ + "! You've been greeted from Rust!"@,
{
    let s = String::from_str("Hello, ");
    let s = s.concat(name);
    s.concat("! You've been greeted from Rust!")
}

} // verus!
