use rconlogger::config::ServerConfiguration;
use rconlogger::reading::{Reading, ServerInfo};
use rconlogger::snapshot::{
    AttackerSide, DefenderSide, GameSnapshot, RushState, SnapshotReading,
};
use rconlogger::text::last_segment;

fn server() -> ServerConfiguration {
    ServerConfiguration {
        game_ip: String::from("127.0.0.1"),
        game_port: Some(String::from("25200")),
        rcon_port: String::from("47200"),
        unique_id: String::from("xxxxxxxx-xxxx-xxxx-xxxx-xxxxxxxxxxxx"),
        update_interval: None,
        max_retry_connection_interval: None,
        retry_connection_step: None,
        retry_connection_addition: None,
    }
}

fn info(game_ip_and_port: &str) -> ServerInfo {
    ServerInfo {
        server_name: String::from("Test Server"),
        playercount: 12,
        max_playercount: 64,
        game_mode: String::from("ConquestLarge0"),
        map_original: String::from("MP_Prison"),
        rounds_played: 1,
        rounds_total: 2,
        online_state: String::from("online"),
        ranked: true,
        punkbuster: false,
        has_gamepassword: false,
        server_uptime: 3600,
        roundtime: 420,
        game_ip_and_port: String::from(game_ip_and_port),
        punkbuster_version: String::from("1.905"),
        join_queue_enabled: true,
        region: String::from("EU"),
        closest_ping_site: String::from("ams"),
        country: String::from("DE"),
        blaze_player_count: 13,
        blaze_game_state: String::from("IN_GAME"),
    }
}

#[test]
fn reading_carries_snapshot_and_identity() {
    let reading = Reading::from_server_info(1700000000000, info("1.2.3.4:25200"), &server());
    assert_eq!(reading.time_ms, 1700000000000);
    assert_eq!(reading.server_name, "Test Server");
    assert_eq!(reading.server_name_tag, "Test Server");
    assert_eq!(reading.playercount, 12);
    assert_eq!(reading.map, "MP_Prison");
    assert_eq!(reading.game_ip_and_port, "1.2.3.4:25200");
    assert_eq!(reading.unique_id, "xxxxxxxx-xxxx-xxxx-xxxx-xxxxxxxxxxxx");
}

#[test]
fn empty_reported_address_falls_back_to_configured_one() {
    let reading = Reading::from_server_info(0, info(""), &server());
    assert_eq!(reading.game_ip_and_port, "127.0.0.1:25200");

    // Without a configured game port the polled address stands in.
    let mut bare = server();
    bare.game_port = None;
    let reading = Reading::from_server_info(0, info(""), &bare);
    assert_eq!(reading.game_ip_and_port, "127.0.0.1:47200");
}

#[test]
fn map_path_keeps_only_its_last_segment() {
    assert_eq!(last_segment("Levels/MP_Prison", '/'), "MP_Prison");
    assert_eq!(last_segment("XP0/Levels/XP0_Metro", '/'), "XP0_Metro");
    assert_eq!(last_segment("MP_Naval", '/'), "MP_Naval");
    assert_eq!(last_segment("Levels/", '/'), "");
    assert_eq!(last_segment("", '/'), "");
}

fn game_snapshot(rush: Option<RushState>) -> GameSnapshot {
    GameSnapshot {
        game_id: 123456,
        game_mode: String::from("Rush"),
        map_variant: 2,
        current_map: String::from("Levels/MP_Prison"),
        max_players: 64,
        waiting_players: 3,
        players: 48,
        round_time: 900,
        default_round_time_multiplier: 100,
        rush,
    }
}

#[test]
fn snapshot_reading_without_rush_round() {
    let reading = SnapshotReading::from_game_snapshot(42, "guid-1", game_snapshot(None));
    assert_eq!(reading.time_ms, 42);
    assert_eq!(reading.server_guid, "guid-1");
    assert_eq!(reading.game_id, 123456);
    assert_eq!(reading.current_map, "MP_Prison");
    assert_eq!(reading.current_map_name, "MP_Prison");
    assert!(!reading.round_running);
    assert!(!reading.round_running_val);
    assert_eq!(reading.defender_team, None);
    assert_eq!(reading.attacker_tickets, None);
}

#[test]
fn snapshot_reading_flattens_rush_sides() {
    let rush = RushState {
        defenders: DefenderSide { team: 1, bases: 2, bases_max: 4, attacker: 0 },
        attackers: AttackerSide { team: 2, tickets: 75, tickets_max: 150, attacker: 1 },
    };
    let reading = SnapshotReading::from_game_snapshot(42, "guid-2", game_snapshot(Some(rush)));
    assert!(reading.round_running);
    assert!(reading.round_running_val);
    assert_eq!(reading.defender_team, Some(1));
    assert_eq!(reading.defender_bases, Some(2));
    assert_eq!(reading.defender_bases_max, Some(4));
    assert_eq!(reading.defender_attacker, Some(0));
    assert_eq!(reading.attacker_team, Some(2));
    assert_eq!(reading.attacker_tickets, Some(75));
    assert_eq!(reading.attacker_tickets_max, Some(150));
    assert_eq!(reading.attacker_attacker, Some(1));
}

#[test]
fn now_stamped_reading_keeps_all_other_fields() {
    let reading = Reading::from_server_info_now(info("1.2.3.4:25200"), &server());
    assert_eq!(reading.server_name, "Test Server");
    assert_eq!(reading.game_ip_and_port, "1.2.3.4:25200");
    assert_eq!(reading.unique_id, "xxxxxxxx-xxxx-xxxx-xxxx-xxxxxxxxxxxx");
    // The clock moved past the epoch a while ago.
    assert!(reading.time_ms > 0);
}
