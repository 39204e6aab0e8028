//! Lifecycle supervision of one long-running service process: the decisions
//! that start, stop, restart and tear down the process, the relay of its
//! output, and the escalating termination plan, all with verified contracts.

use vstd::prelude::*;

pub mod clock;
pub mod guard;
pub mod launch;
pub mod manager;
pub mod model;
pub mod probe;
pub mod relay;
pub mod terminator;
pub mod text;

pub use manager::ServerManager;
pub use model::{ServerConfig, ServerOutput, ServerStatus};

verus! {

/// The greeting for `name`.
pub fn greet(name: &str) -> (r: String)
    ensures
        r@ == "Hello, "@ + name@ + "! You've been greeted from Rust!"@,
{
    let mut r = String::from_str("Hello, ");
    r.append(name);
    r.append("! You've been greeted from Rust!");
    r
}

} // verus!
