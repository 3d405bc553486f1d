//! The login form controller: connection parameters, the connecting flag,
//! and the client-side checks run before a connect is attempted. Reading and
//! writing the connection-profile file happens outside the library; the
//! loaded profile is assigned over the default configuration.

use vstd::prelude::*;
use crate::models::DatabaseConfig;

verus! {

/// Login form state.
pub struct LoginView {
    pub config: DatabaseConfig,
    pub connecting: bool,
    pub show_password: bool,
    pub connection_error: Option<String>,
}

impl LoginView {
    /// A fresh login form over the default connection parameters.
    pub fn new() -> (r: Self)
        ensures
            !r.connecting,
            !r.show_password,
            r.connection_error is None,
            r.config.host@ == "localhost"@,
            r.config.port == 5432,
            r.config.username@ == "postgres"@,
            r.config.password@.len() == 0,
            r.config.database@ == "comunidad"@,
    {
        LoginView {
            config: DatabaseConfig::default(),
            connecting: false,
            show_password: false,
            connection_error: None,
        }
    }

    /// The client-side checks before connecting: host, user and database
    /// must be filled and the port must not be zero; the password alone may
    /// stay empty.
    pub fn attempt_connection(&mut self) -> (r: Result<bool, String>)
        ensures
            *final(self) == *old(self),
            r is Err <==> old(self).config.host@.len() == 0 || old(self).config.username@.len()
                == 0 || old(self).config.database@.len() == 0 || old(self).config.port == 0,
            (old(self).config.host@.len() == 0 || old(self).config.username@.len() == 0 || old(
                self,
            ).config.database@.len() == 0) ==> (r matches Err(m) && m@
                == "Todos los campos son obligatorios excepto la contraseña"@),
            r is Ok ==> r == Result::<bool, String>::Ok(true),
    {
        if self.config.host.as_str().is_empty() || self.config.username.as_str().is_empty()
            || self.config.database.as_str().is_empty() {
            return Err(
                String::from_str("Todos los campos son obligatorios excepto la contraseña"),
            );
        }
        if self.config.port == 0 {
            return Err(String::from_str("Puerto debe estar entre 1 y 65535"));
        }
        Ok(true)
    }
}

} // verus!
