//! Snapshot readings for targets polled through the public snapshot
//! endpoint: the fetched game snapshot as plain values, and the
//! reading built from it.

use crate::text::{last_segment, spec_last_segment};
use vstd::prelude::*;

verus! {

/// Rush-mode state of the defending side, as fetched.
pub struct DefenderSide {
    pub team: u8,
    pub bases: u8,
    pub bases_max: u8,
    pub attacker: u8,
}

/// Rush-mode state of the attacking side, as fetched.
pub struct AttackerSide {
    pub team: u8,
    pub tickets: u16,
    pub tickets_max: u16,
    pub attacker: u8,
}

/// Rush-mode state; present exactly while a round is running.
pub struct RushState {
    pub defenders: DefenderSide,
    pub attackers: AttackerSide,
}

/// Plain values of one game snapshot, as the snapshot endpoint reports
/// them for one target.
pub struct GameSnapshot {
    pub game_id: u64,
    pub game_mode: String,
    pub map_variant: u8,
    pub current_map: String,
    pub max_players: u8,
    pub waiting_players: u8,
    pub players: u16,
    pub round_time: u32,
    pub default_round_time_multiplier: u32,
    pub rush: Option<RushState>,
}

/// One snapshot reading to persist: the snapshot values plus the
/// timestamp and the target's identity, with the map path reduced to
/// its last segment and the rush sides flattened into optional fields.
pub struct SnapshotReading {
    pub time_ms: i64,
    pub server_guid: String,
    pub game_id: u64,
    pub game_mode: String,
    pub map_variant: u8,
    pub current_map: String,
    pub current_map_name: String,
    pub max_players: u8,
    pub waiting_players: u8,
    pub players: u16,
    pub round_time: u32,
    pub default_round_time_multiplier: u32,
    pub round_running: bool,
    pub round_running_val: bool,
    pub defender_team: Option<u8>,
    pub defender_bases: Option<u8>,
    pub defender_bases_max: Option<u8>,
    pub defender_attacker: Option<u8>,
    pub attacker_team: Option<u8>,
    pub attacker_tickets: Option<u16>,
    pub attacker_tickets_max: Option<u16>,
    pub attacker_attacker: Option<u8>,
}

/// Whether a snapshot reading records exactly the given snapshot for
/// the given target at the given time.
pub open spec fn spec_snapshot_reading_of(
    r: SnapshotReading,
    time_ms: i64,
    server_guid: Seq<char>,
    snap: GameSnapshot,
) -> bool {
    &&& r.time_ms == time_ms
    &&& r.server_guid@ == server_guid
    &&& r.game_id == snap.game_id
    &&& r.game_mode@ == snap.game_mode@
    &&& r.map_variant == snap.map_variant
    &&& r.current_map@ == spec_last_segment(snap.current_map@, '/')
    &&& r.current_map_name@ == spec_last_segment(snap.current_map@, '/')
    &&& r.max_players == snap.max_players
    &&& r.waiting_players == snap.waiting_players
    &&& r.players == snap.players
    &&& r.round_time == snap.round_time
    &&& r.default_round_time_multiplier == snap.default_round_time_multiplier
    &&& r.round_running == (snap.rush is Some)
    &&& r.round_running_val == (snap.rush is Some)
    &&& r.defender_team == (if snap.rush is Some {
        Some(snap.rush->0.defenders.team)
    } else {
        None::<u8>
    })
    &&& r.defender_bases == (if snap.rush is Some {
        Some(snap.rush->0.defenders.bases)
    } else {
        None::<u8>
    })
    &&& r.defender_bases_max == (if snap.rush is Some {
        Some(snap.rush->0.defenders.bases_max)
    } else {
        None::<u8>
    })
    &&& r.defender_attacker == (if snap.rush is Some {
        Some(snap.rush->0.defenders.attacker)
    } else {
        None::<u8>
    })
    &&& r.attacker_team == (if snap.rush is Some {
        Some(snap.rush->0.attackers.team)
    } else {
        None::<u8>
    })
    &&& r.attacker_tickets == (if snap.rush is Some {
        Some(snap.rush->0.attackers.tickets)
    } else {
        None::<u16>
    })
    &&& r.attacker_tickets_max == (if snap.rush is Some {
        Some(snap.rush->0.attackers.tickets_max)
    } else {
        None::<u16>
    })
    &&& r.attacker_attacker == (if snap.rush is Some {
        Some(snap.rush->0.attackers.attacker)
    } else {
        None::<u8>
    })
}

impl SnapshotReading {
    /// Builds the reading for one fetched game snapshot: every value
    /// is carried over, the map path keeps only what follows its last
    /// slash, a running round is recorded exactly when rush state is
    /// present, and the rush sides are flattened.
    pub fn from_game_snapshot(time_ms: i64, server_guid: &str, snap: GameSnapshot) -> (r:
        SnapshotReading)
        ensures
            spec_snapshot_reading_of(r, time_ms, server_guid@, snap),
    {
        let map_name = last_segment(snap.current_map.as_str(), '/');
        let round_running = snap.rush.is_some();
        let (defender_team, defender_bases, defender_bases_max, defender_attacker) =
            match &snap.rush {
            Some(rush) => (
                Some(rush.defenders.team),
                Some(rush.defenders.bases),
                Some(rush.defenders.bases_max),
                Some(rush.defenders.attacker),
            ),
            None => (None, None, None, None),
        };
        let (attacker_team, attacker_tickets, attacker_tickets_max, attacker_attacker) =
            match &snap.rush {
            Some(rush) => (
                Some(rush.attackers.team),
                Some(rush.attackers.tickets),
                Some(rush.attackers.tickets_max),
                Some(rush.attackers.attacker),
            ),
            None => (None, None, None, None),
        };
        SnapshotReading {
            time_ms,
            server_guid: server_guid.to_owned(),
            game_id: snap.game_id,
            game_mode: snap.game_mode,
            map_variant: snap.map_variant,
            current_map: map_name.clone(),
            current_map_name: map_name,
            max_players: snap.max_players,
            waiting_players: snap.waiting_players,
            players: snap.players,
            round_time: snap.round_time,
            default_round_time_multiplier: snap.default_round_time_multiplier,
            round_running,
            round_running_val: round_running,
            defender_team,
            defender_bases,
            defender_bases_max,
            defender_attacker,
            attacker_team,
            attacker_tickets,
            attacker_tickets_max,
            attacker_attacker,
        }
    }

    /// [`SnapshotReading::from_game_snapshot`] stamped with the
    /// clock's current time, about which nothing further is promised.
    pub fn from_game_snapshot_now(server_guid: &str, snap: GameSnapshot) -> (r: SnapshotReading)
        ensures
            spec_snapshot_reading_of(r, r.time_ms, server_guid@, snap),
    {
        let time_ms = crate::reading::now_timestamp_millis();
        SnapshotReading::from_game_snapshot(time_ms, server_guid, snap)
    }
}

} // verus!
