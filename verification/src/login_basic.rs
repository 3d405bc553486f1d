//! The earlier, simpler login form controller: the same connection
//! parameters, with a boolean outcome instead of an error message.

use vstd::prelude::*;
use crate::models::DatabaseConfig;

verus! {

/// Simple login form state.
pub struct LoginView {
    pub config: DatabaseConfig,
    pub connecting: bool,
    pub show_password: bool,
}

impl LoginView {
    /// A fresh login form over the default connection parameters.
    pub fn new() -> (r: Self)
        ensures
            !r.connecting,
            !r.show_password,
            r.config.host@ == "localhost"@,
            r.config.port == 5432,
            r.config.username@ == "postgres"@,
            r.config.password@.len() == 0,
            r.config.database@ == "comunidad"@,
    {
        LoginView { config: DatabaseConfig::default(), connecting: false, show_password: false }
    }

    /// The client-side check before connecting: host, user and database must
    /// be filled. The connecting flag always ends lowered: the real work is
    /// handed off.
    pub fn attempt_connection(&mut self) -> (r: bool)
        ensures
            !final(self).connecting,
            final(self).config == old(self).config,
            final(self).show_password == old(self).show_password,
            r <==> old(self).config.host@.len() > 0 && old(self).config.username@.len() > 0 && old(
                self,
            ).config.database@.len() > 0,
    {
        self.connecting = true;
        if self.config.host.as_str().is_empty() || self.config.username.as_str().is_empty()
            || self.config.database.as_str().is_empty() {
            self.connecting = false;
            return false;
        }
        self.connecting = false;
        true
    }
}

} // verus!
