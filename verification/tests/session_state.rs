//! Session state bookkeeping: the switchable-scene set, scene tables, and
//! the outbound chat messages.

use noalbs::chat::{ChatLanguage, ChatPlatform};
use noalbs::config::{
    Chat, Config, ObsConfig, OptionalOptions, OptionalScenes, SoftwareConnection, Switcher, User,
};
use noalbs::error::Error;
use noalbs::state::{contains_scene, State, StreamStatus, SwitcherState};
use noalbs::stream_servers::{find_server_index, DependsOn, StreamServer};
use noalbs::switcher::{
    auto_switch_message, offline_timeout_message, SwitchType, SwitchingScenes, Triggers,
};

fn base_config() -> Config {
    Config {
        user: User { id: None, name: "me".to_string(), password_hash: None },
        switcher: Switcher::default(),
        software: SoftwareConnection::Obs(ObsConfig {
            host: "localhost".to_string(),
            password: None,
            port: 4455,
        }),
        chat: None,
        optional_scenes: OptionalScenes::default(),
        optional_options: OptionalOptions::default(),
    }
}

#[test]
fn switchable_scenes_union_all_configured_tables() {
    let mut config = base_config();
    config.switcher.stream_servers.push(StreamServer {
        name: "A".to_string(),
        priority: Some(0),
        override_scenes: Some(SwitchingScenes::new("a-live", "a-low", "a-offline")),
        depends_on: Some(DependsOn {
            name: "B".to_string(),
            backup_scenes: SwitchingScenes::new("bk-live", "bk-low", "bk-offline"),
        }),
        enabled: true,
    });

    let mut state = State {
        config,
        switcher_state: SwitcherState::default(),
        broadcasting_software: Default::default(),
    };
    state.set_all_switchable_scenes();

    let scenes = &state.switcher_state.switchable_scenes;
    for name in [
        "live", "low", "offline", "a-live", "a-low", "a-offline", "bk-live", "bk-low",
        "bk-offline",
    ] {
        assert!(contains_scene(scenes, &name.to_string()), "{} should be switchable", name);
    }
    assert!(!contains_scene(scenes, &"starting".to_string()));
}

#[test]
fn scene_tables_map_classifications() {
    let scenes = SwitchingScenes::new("live", "low", "offline");
    assert_eq!(scenes.type_to_scene(&SwitchType::Normal).unwrap().as_str(), "live");
    assert_eq!(scenes.type_to_scene(&SwitchType::Low).unwrap().as_str(), "low");
    assert_eq!(scenes.type_to_scene(&SwitchType::Offline).unwrap().as_str(), "offline");
    // `Previous` never resolves through a table.
    assert!(matches!(
        scenes.type_to_scene(&SwitchType::Previous),
        Err(Error::SwitchTypeNotSupported)
    ));
}

#[test]
fn stock_triggers_match_the_defaults() {
    let triggers = Triggers::default();
    assert_eq!(triggers.low, Some(800));
    assert_eq!(triggers.rtt, Some(2500));
    assert_eq!(triggers.offline, None);
    assert_eq!(triggers.rtt_offline, None);

    let mut triggers = Triggers::default();
    triggers.set_low(Some(1200));
    assert_eq!(triggers.low, Some(1200));
    assert_eq!(triggers.rtt, Some(2500));
}

#[test]
fn telemetry_deltas_subtract_the_baseline() {
    let sample = |total: u64, dropped: u64| StreamStatus {
        bitrate: 6000,
        fps: 60,
        num_total_frames: total,
        num_dropped_frames: dropped,
        render_total_frames: total,
        render_missed_frames: 0,
        output_total_frames: total,
        output_skipped_frames: 0,
    };
    let current = sample(500, 20).calculate_current(&sample(100, 5));
    assert_eq!(current.bitrate, 6000);
    assert_eq!(current.num_total_frames, 400);
    assert_eq!(current.num_dropped_frames, 15);
}

#[test]
fn server_entries_are_enabled_by_default() {
    assert!(noalbs::stream_servers::default_server_enabled());
}

#[test]
fn server_lookup_finds_the_first_match() {
    let server = |name: &str| StreamServer {
        name: name.to_string(),
        priority: None,
        override_scenes: None,
        depends_on: None,
        enabled: true,
    };
    let servers = vec![server("A"), server("B"), server("B")];
    assert_eq!(find_server_index(&servers, &"B".to_string()), Some(1));
    assert_eq!(find_server_index(&servers, &"C".to_string()), None);
}

#[test]
fn chat_messages_carry_channel_and_scene() {
    let mut config = base_config();
    config.chat = Some(Chat {
        platform: ChatPlatform::Twitch,
        username: "chan".to_string(),
        admins: vec![],
        language: ChatLanguage::EN,
        prefix: "!".to_string(),
        enable_public_commands: true,
        enable_mod_commands: true,
        enable_auto_stop_stream_on_host_or_raid: true,
        commands: None,
    });
    let mut state = State {
        config,
        switcher_state: SwitcherState::default(),
        broadcasting_software: Default::default(),
    };
    state.broadcasting_software.is_streaming = true;

    let message = auto_switch_message(&state, &"low".to_string(), SwitchType::Low)
        .expect("announcement expected");
    assert_eq!(message.channel, "chan");
    assert_eq!(message.scene, "low");
    assert_eq!(message.switch_type, SwitchType::Low);

    let notice = offline_timeout_message(&state).expect("notice expected");
    assert_eq!(notice.channel, "chan");
    assert!(matches!(notice.kind, noalbs::chat::InternalUpdate::OfflineTimeout));

    // Silent when not streaming, when notifications are off, or without a
    // configured chat.
    state.broadcasting_software.is_streaming = false;
    assert!(auto_switch_message(&state, &"low".to_string(), SwitchType::Low).is_none());
    state.broadcasting_software.is_streaming = true;
    state.config.switcher.auto_switch_notification = false;
    assert!(auto_switch_message(&state, &"low".to_string(), SwitchType::Low).is_none());
    state.config.chat = None;
    assert!(offline_timeout_message(&state).is_none());
}
