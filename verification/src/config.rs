//! The immutable session parameters: where to connect and which channel to
//! join. They are created once at startup, from configuration the
//! surrounding process reads, and live for the process lifetime.

use vstd::prelude::*;

verus! {

/// The session parameters: the server address (host and port) and the
/// channel name.
pub struct Config {
    pub socket_addr: String,
    pub channel: String,
}

impl Config {
    /// Bundle the two externally supplied parameters.
    pub fn new(socket_addr: String, channel: String) -> (c: Config)
        ensures
            c.socket_addr@ == socket_addr@,
            c.channel@ == channel@,
    {
        Config { socket_addr, channel }
    }
}

} // verus!
