//! Readings: the immutable values built from one fetched status
//! snapshot, tagged with the originating target's identity and a
//! timestamp, and handed to the sink exactly once.

use crate::config::ServerConfiguration;
use vstd::prelude::*;

verus! {

/// Plain values of one status snapshot, as the fetch collaborator
/// reports them for one target.
pub struct ServerInfo {
    pub server_name: String,
    pub playercount: i32,
    pub max_playercount: i32,
    pub game_mode: String,
    pub map_original: String,
    pub rounds_played: i32,
    pub rounds_total: i32,
    pub online_state: String,
    pub ranked: bool,
    pub punkbuster: bool,
    pub has_gamepassword: bool,
    pub server_uptime: i32,
    pub roundtime: i32,
    pub game_ip_and_port: String,
    pub punkbuster_version: String,
    pub join_queue_enabled: bool,
    pub region: String,
    pub closest_ping_site: String,
    pub country: String,
    pub blaze_player_count: i32,
    pub blaze_game_state: String,
}

/// One reading to persist: the snapshot values plus the timestamp and
/// the identity tags of the target it came from.
pub struct Reading {
    pub time_ms: i64,
    pub server_name: String,
    pub server_name_tag: String,
    pub playercount: i32,
    pub max_playercount: i32,
    pub game_mode: String,
    pub map: String,
    pub rounds_played: i32,
    pub rounds_total: i32,
    pub online_state: String,
    pub ranked: bool,
    pub punkbuster: bool,
    pub has_gamepassword: bool,
    pub server_uptime: i32,
    pub roundtime: i32,
    pub game_ip_and_port: String,
    pub punkbuster_version: String,
    pub join_queue_enabled: bool,
    pub region: String,
    pub closest_ping_site: String,
    pub country: String,
    pub blaze_player_count: i32,
    pub blaze_game_state: String,
    pub unique_id: String,
}

/// The game address recorded on a reading: the one the snapshot
/// reports, unless it is empty, in which case the configured game
/// address (itself falling back to the polled address) stands in.
pub open spec fn spec_recorded_game_address(info: ServerInfo, server: ServerConfiguration) -> Seq<
    char,
> {
    if info.game_ip_and_port@.len() == 0 {
        server.spec_game_ip_port(server.spec_game_ip_rcon_port())
    } else {
        info.game_ip_and_port@
    }
}

/// Whether a reading records exactly the given snapshot for the given
/// target at the given time.
pub open spec fn spec_reading_of(
    r: Reading,
    time_ms: i64,
    info: ServerInfo,
    server: ServerConfiguration,
) -> bool {
    &&& r.time_ms == time_ms
    &&& r.server_name@ == info.server_name@
    &&& r.server_name_tag@ == info.server_name@
    &&& r.playercount == info.playercount
    &&& r.max_playercount == info.max_playercount
    &&& r.game_mode@ == info.game_mode@
    &&& r.map@ == info.map_original@
    &&& r.rounds_played == info.rounds_played
    &&& r.rounds_total == info.rounds_total
    &&& r.online_state@ == info.online_state@
    &&& r.ranked == info.ranked
    &&& r.punkbuster == info.punkbuster
    &&& r.has_gamepassword == info.has_gamepassword
    &&& r.server_uptime == info.server_uptime
    &&& r.roundtime == info.roundtime
    &&& r.game_ip_and_port@ == spec_recorded_game_address(info, server)
    &&& r.punkbuster_version@ == info.punkbuster_version@
    &&& r.join_queue_enabled == info.join_queue_enabled
    &&& r.region@ == info.region@
    &&& r.closest_ping_site@ == info.closest_ping_site@
    &&& r.country@ == info.country@
    &&& r.blaze_player_count == info.blaze_player_count
    &&& r.blaze_game_state == info.blaze_game_state
    &&& r.unique_id@ == server.unique_id@
}

impl Reading {
    /// Builds the reading for one fetched snapshot: every snapshot
    /// value is carried over, the name doubles as its tag, an empty
    /// reported game address is replaced by the configured one, and
    /// the reading is tagged with the target's identity and the given
    /// timestamp.
    pub fn from_server_info(time_ms: i64, info: ServerInfo, server: &ServerConfiguration) -> (r:
        Reading)
        ensures
            spec_reading_of(r, time_ms, info, *server),
    {
        let game_ip_and_port: String = if info.game_ip_and_port.as_str().is_empty() {
            let addr = server.get_game_ip_rcon_port();
            server.get_game_ip_port(addr.as_str())
        } else {
            info.game_ip_and_port
        };
        Reading {
            time_ms,
            server_name: info.server_name.clone(),
            server_name_tag: info.server_name,
            playercount: info.playercount,
            max_playercount: info.max_playercount,
            game_mode: info.game_mode,
            map: info.map_original,
            rounds_played: info.rounds_played,
            rounds_total: info.rounds_total,
            online_state: info.online_state,
            ranked: info.ranked,
            punkbuster: info.punkbuster,
            has_gamepassword: info.has_gamepassword,
            server_uptime: info.server_uptime,
            roundtime: info.roundtime,
            game_ip_and_port,
            punkbuster_version: info.punkbuster_version,
            join_queue_enabled: info.join_queue_enabled,
            region: info.region,
            closest_ping_site: info.closest_ping_site,
            country: info.country,
            blaze_player_count: info.blaze_player_count,
            blaze_game_state: info.blaze_game_state,
            unique_id: server.get_unique_id(),
        }
    }

    /// [`Reading::from_server_info`] stamped with the clock's current
    /// time, about which nothing further is promised.
    pub fn from_server_info_now(info: ServerInfo, server: &ServerConfiguration) -> (r: Reading)
        ensures
            spec_reading_of(r, r.time_ms, info, *server),
    {
        let time_ms = now_timestamp_millis();
        Reading::from_server_info(time_ms, info, server)
    }
}

/// Relies on chrono's `Utc::now` and `DateTime::timestamp_millis`: the
/// current wall-clock time as non-leap milliseconds since the Unix
/// epoch. The result depends on the clock, so nothing is promised of
/// its value.
#[verifier::external_body]
pub(crate) fn now_timestamp_millis() -> i64 {
    chrono::Utc::now().timestamp_millis()
}

} // verus!
