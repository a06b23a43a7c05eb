//! Streaming of textual motion commands to a device over a line-oriented,
//! acknowledged channel.

use vstd::prelude::*;

pub mod async_streamer;
pub mod config;
pub mod device_manager;
pub mod endpoint;
pub mod engine;
pub mod error;
pub mod framing;
pub mod gcode;
pub mod job;
pub mod laws;
pub mod machine;
pub mod models;
pub mod protocol;
pub mod serial;
pub mod settings;
pub mod storage;
pub mod slint_bindings;
pub mod streamer;
pub mod streamer_worker;
pub mod text;
pub mod transport;
pub mod ui;

verus! {

/// Readiness banner of the core.
pub fn hello_core() -> (banner: &'static str)
    ensures
        banner@ == "gcodekit-core: ready"@,
{
    "gcodekit-core: ready"
}

} // verus!
