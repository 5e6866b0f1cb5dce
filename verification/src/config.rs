//! Configuration model: the top-level settings and the per-target
//! server entries, with every default applied by a pure function.
//!
//! Optional fields left unset fall back first to an explicit
//! environment override (supplied once, at startup, through
//! [`Configurations::apply_env`] and [`ServerConfiguration::apply_env`])
//! and then to a built-in default. After that single resolution step
//! every accessor is pure: the same configuration value always reads
//! the same way.

use crate::text::{
    find_first_sep, first_segment, last_segment, spec_first_segment, spec_first_sep,
    spec_last_segment, spec_split, split_string, views_of,
};
use vstd::prelude::*;
use vstd::string::StrSliceExecFns;
use vstd::string::StringExecFns;

verus! {

/// Built-in fallback poll interval, in milliseconds.
pub const DEFAULT_SERVER_INFO_INTERVAL_MS: u64 = 10000;

/// Built-in fallback cap on the retry delay, in seconds.
pub const DEFAULT_MAX_RETRY_INTERVAL_S: u64 = 300;

/// Built-in fallback for the number of failures per backoff step.
pub const DEFAULT_RETRY_STEP: i32 = 10;

/// Built-in fallback for the delay added per backoff step, in seconds.
pub const DEFAULT_RETRY_ADDITION_S: u64 = 30;

/// Top-level settings: where the sink lives and which targets to poll.
pub struct Configurations {
    pub timezone: Option<String>,
    pub database_url: Option<String>,
    pub database_name: Option<String>,
    pub servers: Option<Vec<ServerConfiguration>>,
}

impl Configurations {
    /// The timezone setting, or its built-in default.
    pub open spec fn spec_timezone(self) -> Seq<char> {
        if self.timezone is Some {
            self.timezone->0@
        } else {
            "Europe/Helsinki"@
        }
    }

    /// The sink URL setting, or its built-in default.
    pub open spec fn spec_database_url(self) -> Seq<char> {
        if self.database_url is Some {
            self.database_url->0@
        } else {
            "http://localhost:8086"@
        }
    }

    /// The sink database name setting, or its built-in default.
    pub open spec fn spec_database_name(self) -> Seq<char> {
        if self.database_name is Some {
            self.database_name->0@
        } else {
            "bflogger"@
        }
    }

    pub fn get_timezone(&self) -> (r: String)
        ensures
            r@ == self.spec_timezone(),
    {
        match &self.timezone {
            Some(t) => t.clone(),
            None => String::from_str("Europe/Helsinki"),
        }
    }

    pub fn get_database_url(&self) -> (r: String)
        ensures
            r@ == self.spec_database_url(),
    {
        match &self.database_url {
            Some(t) => t.clone(),
            None => String::from_str("http://localhost:8086"),
        }
    }

    pub fn get_database_name(&self) -> (r: String)
        ensures
            r@ == self.spec_database_name(),
    {
        match &self.database_name {
            Some(t) => t.clone(),
            None => String::from_str("bflogger"),
        }
    }

    /// The configured target list. Callers that may have no `servers`
    /// entry first merge one in (for example from the environment) with
    /// [`Configurations::apply_env`] or build one with
    /// [`servers_from_addresses`].
    pub fn get_servers(&self) -> (r: Vec<ServerConfiguration>)
        requires
            self.servers is Some,
        ensures
            r@ == self.servers->0@,
    {
        clone_server_vec(match &self.servers {
            Some(s) => s,
            None => unreached(),
        })
    }

    /// The single, explicit resolution step for the optional top-level
    /// settings: a field keeps its configured value, and an unset field
    /// takes the environment override if one was supplied. Run once at
    /// startup, before any worker exists.
    pub fn apply_env(
        self,
        env_timezone: Option<String>,
        env_database_url: Option<String>,
        env_database_name: Option<String>,
    ) -> (r: Configurations)
        ensures
            r.timezone == (if self.timezone is Some {
                self.timezone
            } else {
                env_timezone
            }),
            r.database_url == (if self.database_url is Some {
                self.database_url
            } else {
                env_database_url
            }),
            r.database_name == (if self.database_name is Some {
                self.database_name
            } else {
                env_database_name
            }),
            r.servers == self.servers,
    {
        Configurations {
            timezone: or_else_string(self.timezone, env_timezone),
            database_url: or_else_string(self.database_url, env_database_url),
            database_name: or_else_string(self.database_name, env_database_name),
            servers: self.servers,
        }
    }
}

/// The first value if present, else the second.
fn or_else_string(setting: Option<String>, fallback: Option<String>) -> (r: Option<String>)
    ensures
        r == (if setting is Some {
            setting
        } else {
            fallback
        }),
{
    match setting {
        Some(v) => Some(v),
        None => fallback,
    }
}

/// One polled target: its addresses, identity, and retry tuning.
pub struct ServerConfiguration {
    pub game_ip: String,
    pub game_port: Option<String>,
    pub rcon_port: String,
    pub unique_id: String,
    pub update_interval: Option<u64>,
    pub max_retry_connection_interval: Option<u64>,
    pub retry_connection_step: Option<i32>,
    pub retry_connection_addition: Option<u64>,
}

impl ServerConfiguration {
    /// The address polled over the control connection: `ip:rcon_port`.
    pub open spec fn spec_game_ip_rcon_port(self) -> Seq<char> {
        self.game_ip@ + ":"@ + self.rcon_port@
    }

    /// The public game address `ip:game_port`, or the given fallback
    /// when no game port is configured.
    pub open spec fn spec_game_ip_port(self, fallback: Seq<char>) -> Seq<char> {
        if self.game_port is Some {
            self.game_ip@ + ":"@ + self.game_port->0@
        } else {
            fallback
        }
    }

    /// The poll interval in milliseconds, defaulted.
    pub open spec fn spec_server_info_interval(self) -> u64 {
        if self.update_interval is Some {
            self.update_interval->0
        } else {
            DEFAULT_SERVER_INFO_INTERVAL_MS
        }
    }

    /// The retry delay cap in seconds, defaulted.
    pub open spec fn spec_max_retry_connection_interval(self) -> u64 {
        if self.max_retry_connection_interval is Some {
            self.max_retry_connection_interval->0
        } else {
            DEFAULT_MAX_RETRY_INTERVAL_S
        }
    }

    /// The failures-per-backoff-step count, defaulted.
    pub open spec fn spec_retry_connection_step(self) -> i32 {
        if self.retry_connection_step is Some {
            self.retry_connection_step->0
        } else {
            DEFAULT_RETRY_STEP
        }
    }

    /// The per-step delay increment in seconds, defaulted.
    pub open spec fn spec_retry_connection_addition(self) -> u64 {
        if self.retry_connection_addition is Some {
            self.retry_connection_addition->0
        } else {
            DEFAULT_RETRY_ADDITION_S
        }
    }

    pub fn get_game_ip_rcon_port(&self) -> (r: String)
        ensures
            r@ == self.spec_game_ip_rcon_port(),
    {
        self.game_ip.clone().concat(":").concat(self.rcon_port.as_str())
    }

    pub fn get_game_ip_port(&self, fallback: &str) -> (r: String)
        ensures
            r@ == self.spec_game_ip_port(fallback@),
    {
        match &self.game_port {
            Some(port) => self.game_ip.clone().concat(":").concat(port.as_str()),
            None => fallback.to_owned(),
        }
    }

    pub fn get_unique_id(&self) -> (r: String)
        ensures
            r@ == self.unique_id@,
    {
        self.unique_id.clone()
    }

    pub fn get_server_info_interval(&self) -> (r: u64)
        ensures
            r == self.spec_server_info_interval(),
    {
        self.get_u64_with_fallback(&self.update_interval, DEFAULT_SERVER_INFO_INTERVAL_MS)
    }

    pub fn get_max_retry_connection_interval(&self) -> (r: u64)
        ensures
            r == self.spec_max_retry_connection_interval(),
    {
        self.get_u64_with_fallback(
            &self.max_retry_connection_interval,
            DEFAULT_MAX_RETRY_INTERVAL_S,
        )
    }

    pub fn get_retry_connection_step(&self) -> (r: i32)
        ensures
            r == self.spec_retry_connection_step(),
    {
        self.get_i32_with_fallback(&self.retry_connection_step, DEFAULT_RETRY_STEP)
    }

    pub fn get_retry_connection_addition(&self) -> (r: u64)
        ensures
            r == self.spec_retry_connection_addition(),
    {
        self.get_u64_with_fallback(&self.retry_connection_addition, DEFAULT_RETRY_ADDITION_S)
    }

    /// The setting if present, else the fallback.
    pub fn get_i32_with_fallback(&self, setting: &Option<i32>, fallback: i32) -> (r: i32)
        ensures
            r == (if setting is Some {
                setting->0
            } else {
                fallback
            }),
    {
        match setting {
            Some(v) => *v,
            None => fallback,
        }
    }

    /// The setting if present, else the fallback.
    pub fn get_u64_with_fallback(&self, setting: &Option<u64>, fallback: u64) -> (r: u64)
        ensures
            r == (if setting is Some {
                setting->0
            } else {
                fallback
            }),
    {
        match setting {
            Some(v) => *v,
            None => fallback,
        }
    }

    /// The setting if present, else an environment override already
    /// read and parsed by the caller, else the fallback.
    pub fn get_u64_with_key_fallback(
        &self,
        setting: &Option<u64>,
        env_value: Option<u64>,
        fallback: u64,
    ) -> (r: u64)
        ensures
            r == (if setting is Some {
                setting->0
            } else if env_value is Some {
                env_value->0
            } else {
                fallback
            }),
    {
        match setting {
            Some(v) => *v,
            None => match env_value {
                Some(v) => v,
                None => fallback,
            },
        }
    }

    /// The single, explicit resolution step for the per-target
    /// environment override: an unset poll interval takes the value
    /// read from the environment once at startup.
    pub fn apply_env(self, env_update_interval: Option<u64>) -> (r: ServerConfiguration)
        ensures
            r.update_interval == (if self.update_interval is Some {
                self.update_interval
            } else {
                env_update_interval
            }),
            r.game_ip == self.game_ip,
            r.game_port == self.game_port,
            r.rcon_port == self.rcon_port,
            r.unique_id == self.unique_id,
            r.max_retry_connection_interval == self.max_retry_connection_interval,
            r.retry_connection_step == self.retry_connection_step,
            r.retry_connection_addition == self.retry_connection_addition,
    {
        let update_interval = match self.update_interval {
            Some(v) => Some(v),
            None => env_update_interval,
        };
        ServerConfiguration { update_interval, ..self }
    }

    /// Field-by-field copy.
    pub fn clone_config(&self) -> (r: ServerConfiguration)
        ensures
            r == *self,
    {
        ServerConfiguration {
            game_ip: self.game_ip.clone(),
            game_port: clone_string_option(&self.game_port),
            rcon_port: self.rcon_port.clone(),
            unique_id: self.unique_id.clone(),
            update_interval: self.update_interval,
            max_retry_connection_interval: self.max_retry_connection_interval,
            retry_connection_step: self.retry_connection_step,
            retry_connection_addition: self.retry_connection_addition,
        }
    }
}

/// Copy of an optional string.
fn clone_string_option(v: &Option<String>) -> (r: Option<String>)
    ensures
        r == *v,
{
    match v {
        Some(s) => Some(s.clone()),
        None => None,
    }
}

/// The ip half of an `ip:port` address: what stands before the first
/// colon.
pub open spec fn spec_address_ip(piece: Seq<char>) -> Seq<char> {
    spec_first_segment(piece, ':')
}

/// The port half of an `ip:port` address: what stands after the last
/// colon.
pub open spec fn spec_address_port(piece: Seq<char>) -> Seq<char> {
    spec_last_segment(piece, ':')
}

/// An address usable as a target: it contains a colon.
pub open spec fn spec_address_well_formed(piece: Seq<char>) -> bool {
    spec_first_sep(piece, ':') < piece.len()
}

/// Whether a server entry is exactly the one built from a bare
/// `ip:port` address: the address halves, an identity of `ip:port`,
/// and everything else left for the resolution step to fill.
pub open spec fn spec_server_from_address(server: ServerConfiguration, piece: Seq<char>) -> bool {
    &&& server.game_ip@ == spec_address_ip(piece)
    &&& server.game_port is None
    &&& server.rcon_port@ == spec_address_port(piece)
    &&& server.unique_id@ == spec_address_ip(piece) + ":"@ + spec_address_port(piece)
    &&& server.update_interval is None
    &&& server.max_retry_connection_interval is None
    &&& server.retry_connection_step is None
    &&& server.retry_connection_addition is None
}

/// Builds one server entry per comma-separated `ip:port` address.
/// Returns the entries exactly when every address has a colon, and
/// nothing when one does not.
pub fn servers_from_addresses(addresses: &str) -> (r: Option<Vec<ServerConfiguration>>)
    ensures
        r is Some <==> (forall|k: int|
            0 <= k < spec_split(addresses@, ',').len() ==> spec_address_well_formed(
                #[trigger] spec_split(addresses@, ',')[k],
            )),
        r is Some ==> r->0@.len() == spec_split(addresses@, ',').len(),
        r is Some ==> (forall|k: int|
            0 <= k < spec_split(addresses@, ',').len() ==> spec_server_from_address(
                #[trigger] r->0@[k],
                spec_split(addresses@, ',')[k],
            )),
{
    let pieces = split_string(addresses, ',');
    let mut servers: Vec<ServerConfiguration> = Vec::new();
    let mut i: usize = 0;
    while i < pieces.len()
        invariant
            i <= pieces@.len(),
            views_of(pieces@) == spec_split(addresses@, ','),
            servers@.len() == i,
            forall|k: int|
                0 <= k < i ==> spec_address_well_formed(#[trigger] spec_split(addresses@, ',')[k]),
            forall|k: int|
                0 <= k < i ==> spec_server_from_address(
                    #[trigger] servers@[k],
                    spec_split(addresses@, ',')[k],
                ),
        decreases pieces@.len() - i,
    {
        proof {
            assert(pieces@[i as int]@ == spec_split(addresses@, ',')[i as int]);
        }
        let piece: &String = &pieces[i];
        let sep_at = find_first_sep(piece.as_str(), ':');
        if sep_at == piece.as_str().unicode_len() {
            proof {
                assert(!spec_address_well_formed(spec_split(addresses@, ',')[i as int]));
            }
            return None;
        }
        let game_ip = first_segment(piece.as_str(), ':');
        let rcon_port = last_segment(piece.as_str(), ':');
        let unique_id = game_ip.clone().concat(":").concat(rcon_port.as_str());
        servers.push(
            ServerConfiguration {
                game_ip,
                game_port: None,
                rcon_port,
                unique_id,
                update_interval: None,
                max_retry_connection_interval: None,
                retry_connection_step: None,
                retry_connection_addition: None,
            },
        );
        i = i + 1;
    }
    Some(servers)
}

/// Copy of a target list.
pub fn clone_server_vec(servers: &Vec<ServerConfiguration>) -> (r: Vec<ServerConfiguration>)
    ensures
        r@ == servers@,
{
    let mut out: Vec<ServerConfiguration> = Vec::new();
    let mut i: usize = 0;
    while i < servers.len()
        invariant
            i <= servers@.len(),
            out@ =~= servers@.take(i as int),
        decreases servers@.len() - i,
    {
        out.push(servers[i].clone_config());
        i = i + 1;
    }
    proof {
        assert(servers@.take(servers@.len() as int) =~= servers@);
    }
    out
}

} // verus!
