//! The configuration that the client and the server share.

use vstd::prelude::*;

verus! {

/// The shared configuration.
pub struct SharedConfig {
    /// The address of the authentication server, as `host:port`.
    pub auth_server_address: String,
}

impl SharedConfig {
    /// The configuration with the server's address as it was read.
    pub fn new(auth_server_address: String) -> (config: Self)
        ensures
            config.auth_server_address@ == auth_server_address@,
    {
        SharedConfig { auth_server_address }
    }
}

} // verus!
