//! The application controller: the current screen, the connection flag, the
//! message banner, and the connect flow. Background work runs outside the
//! library; each started operation carries a sequence number, and a
//! completion is absorbed only while its number is still the pending one, so
//! a result from a replaced operation is dropped.

use vstd::prelude::*;
use crate::models::DatabaseConfig;
use crate::store::DatabaseManager;
use crate::text::{dec_repr, u32_to_string};

verus! {

/// The keyword/value connection string handed to the backing store's
/// client: host, port, user, password and database, space-separated.
pub fn connection_string(config: &DatabaseConfig) -> (r: String)
    ensures
        exists|d: Seq<char>|
            #[trigger] dec_repr(config.port as nat, d) && r@ == "host="@ + config.host@ + " port="@
                + d + " user="@ + config.username@ + " password="@ + config.password@ + " dbname="@
                + config.database@,
{
    let port = u32_to_string(config.port as u32);
    let ghost d = port@;
    let r = String::from_str("host=").concat(config.host.as_str()).concat(" port=").concat(
        port.as_str(),
    ).concat(" user=").concat(config.username.as_str()).concat(" password=").concat(
        config.password.as_str(),
    ).concat(" dbname=").concat(config.database.as_str());
    proof {
        assert(dec_repr(config.port as nat, d) && r@ == "host="@ + config.host@ + " port="@ + d
            + " user="@ + config.username@ + " password="@ + config.password@ + " dbname="@
            + config.database@);
    }
    r
}

/// The screen the application is showing.
#[derive(Debug, Clone, PartialEq, Eq, Structural)]
pub enum AppState {
    Login,
    Dashboard,
    Queries,
    Insertions,
    About,
}

/// A request to connect, for the background runner to perform.
pub struct ConnectRequest {
    pub seq: u64,
    pub config: DatabaseConfig,
}

/// Top-level state: screen, connection flag and banner messages.
pub struct App {
    pub state: AppState,
    pub is_connected: bool,
    pub error_message: Option<String>,
    pub success_message: Option<String>,
    pub connection_pending: Option<u64>,
    pub next_seq: u64,
}

impl App {
    /// A fresh controller on the login screen.
    pub fn new() -> (r: Self)
        ensures
            r.state == AppState::Login,
            !r.is_connected,
            r.error_message is None,
            r.success_message is None,
            r.connection_pending is None,
            r.next_seq == 1,
    {
        App {
            state: AppState::Login,
            is_connected: false,
            error_message: None,
            success_message: None,
            connection_pending: None,
            next_seq: 1,
        }
    }

    /// Switches screens and drops any banner.
    pub fn set_state(&mut self, state: AppState)
        ensures
            final(self).state == state,
            final(self).error_message is None,
            final(self).success_message is None,
            final(self).is_connected == old(self).is_connected,
            final(self).connection_pending == old(self).connection_pending,
            final(self).next_seq == old(self).next_seq,
    {
        self.state = state;
        self.clear_messages();
    }

    /// Records the connection flag; gaining a connection on the login screen
    /// moves to the dashboard, and losing it returns to login. The result
    /// says whether the query screen should now load its initial data.
    pub fn set_connected(&mut self, connected: bool) -> (r: bool)
        ensures
            final(self).is_connected == connected,
            r == (connected && old(self).state == AppState::Login),
            r ==> final(self).state == AppState::Dashboard,
            !connected ==> final(self).state == AppState::Login,
            connected && old(self).state != AppState::Login ==> final(self).state
                == old(self).state && final(self).error_message == old(self).error_message
                && final(self).success_message == old(self).success_message,
            final(self).connection_pending == old(self).connection_pending,
            final(self).next_seq == old(self).next_seq,
    {
        self.is_connected = connected;
        if connected && self.state == AppState::Login {
            self.set_state(AppState::Dashboard);
            true
        } else if !connected {
            self.set_state(AppState::Login);
            false
        } else {
            false
        }
    }

    /// Shows an error banner, displacing any success banner.
    pub fn set_error(&mut self, message: String)
        ensures
            final(self).error_message matches Some(m) && m@ == message@,
            final(self).success_message is None,
            final(self).state == old(self).state,
            final(self).is_connected == old(self).is_connected,
            final(self).connection_pending == old(self).connection_pending,
            final(self).next_seq == old(self).next_seq,
    {
        self.error_message = Some(message);
        self.success_message = None;
    }

    /// Shows a success banner, displacing any error banner.
    pub fn set_success(&mut self, message: String)
        ensures
            final(self).success_message matches Some(m) && m@ == message@,
            final(self).error_message is None,
            final(self).state == old(self).state,
            final(self).is_connected == old(self).is_connected,
            final(self).connection_pending == old(self).connection_pending,
            final(self).next_seq == old(self).next_seq,
    {
        self.success_message = Some(message);
        self.error_message = None;
    }

    /// Drops both banners.
    pub fn clear_messages(&mut self)
        ensures
            final(self).error_message is None,
            final(self).success_message is None,
            final(self).state == old(self).state,
            final(self).is_connected == old(self).is_connected,
            final(self).connection_pending == old(self).connection_pending,
            final(self).next_seq == old(self).next_seq,
    {
        self.error_message = None;
        self.success_message = None;
    }

    /// Starts a connect operation: the returned request carries a fresh
    /// sequence number, and any earlier pending connect is forgotten, so its
    /// late result will be dropped.
    pub fn start_connection(&mut self, config: DatabaseConfig) -> (r: ConnectRequest)
        requires
            old(self).next_seq < u64::MAX,
        ensures
            r.seq == old(self).next_seq,
            r.config == config,
            final(self).connection_pending == Some(r.seq),
            final(self).next_seq == old(self).next_seq + 1,
            final(self).state == old(self).state,
            final(self).is_connected == old(self).is_connected,
            final(self).error_message == old(self).error_message,
            final(self).success_message == old(self).success_message,
    {
        let seq = self.next_seq;
        self.next_seq = seq + 1;
        self.connection_pending = Some(seq);
        ConnectRequest { seq, config }
    }

    /// Absorbs a connect completion handed back by the runner. A completion
    /// is taken only while its sequence number is the pending one; anything
    /// else is dropped unchanged. The result says whether a connection was
    /// just established.
    pub fn check_connection_result(&mut self, event: Option<(u64, Result<String, String>)>) -> (r:
        bool)
        ensures
            ({
                let fresh = old(self).connection_pending matches Some(s) && event matches Some(
                    (s2, _),
                ) && s2 == s;
                &&& !fresh ==> *final(self) == *old(self) && r == false
                &&& fresh ==> final(self).connection_pending is None
                &&& fresh ==> (match event {
                    Some((_, Ok(m))) => {
                        &&& r == true
                        &&& final(self).is_connected
                        &&& final(self).success_message matches Some(sm) && sm@ == m@
                        &&& final(self).error_message is None
                        &&& (old(self).state == AppState::Login ==> final(self).state
                            == AppState::Dashboard)
                    },
                    Some((_, Err(m))) => {
                        &&& r == false
                        &&& final(self).is_connected == old(self).is_connected
                        &&& final(self).error_message matches Some(em) && em@ == m@
                        &&& final(self).success_message is None
                        &&& final(self).state == old(self).state
                    },
                    None => true,
                })
            }),
    {
        match event {
            None => false,
            Some((seq, result)) => {
                let fresh = match self.connection_pending {
                    Some(s) => s == seq,
                    None => false,
                };
                if !fresh {
                    return false;
                }
                self.connection_pending = None;
                match result {
                    Ok(success_msg) => {
                        self.set_connected(true);
                        self.set_success(success_msg);
                        true
                    },
                    Err(error_msg) => {
                        self.set_error(error_msg);
                        false
                    },
                }
            },
        }
    }
}

/// The connect flow a background unit performs against the store: take the
/// connection, then prove it with a round trip, and hand back one terminal
/// outcome.
pub fn perform_connect(db: &mut DatabaseManager, config: &DatabaseConfig) -> (r: Result<
    String,
    String,
>)
    requires
        old(db).wf(),
    ensures
        final(db).wf(),
        final(db).is_connected(),
        r matches Ok(m) && m@ == "Conexión establecida exitosamente"@,
{
    match db.connect(config) {
        Ok(()) => {
            match db.test_connection() {
                Ok(true) => Ok(String::from_str("Conexión establecida exitosamente")),
                Ok(false) => Err(String::from_str("Error al probar la conexión")),
                Err(e) => Err(e.message()),
            }
        },
        Err(e) => Err(e.message()),
    }
}

} // verus!
