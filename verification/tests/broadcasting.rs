//! The broadcasting-software side: state synchronisation, backoff, fuzzy
//! scene matching, and recovery of stalled media sources.

use noalbs::broadcasting_software::obs::{
    needs_restart, plan_fix, starts_with, MediaSourceScan, MediaState, SceneItem, SourceItem,
};
use noalbs::broadcasting_software::obs_v5::{stream_status_from_samples, GeneralStats, OutputSample};
use noalbs::broadcasting_software::{
    handle_connected, handle_disconnected, handle_event, resolve_scene_name, ConnectionEvent,
    RetryBackoff,
};
use noalbs::config::{
    Config, ObsConfig, OptionalOptions, OptionalScenes, SoftwareConnection, Switcher, User,
};
use noalbs::state::{ClientStatus, State, StreamStatus, SwitcherState};
use noalbs::switcher::Signal;
use noalbs::text::{parse_u32, str_contains, str_eq};

fn empty_state() -> State {
    let config = Config {
        user: User { id: None, name: "me".to_string(), password_hash: None },
        switcher: Switcher::default(),
        software: SoftwareConnection::Obs(ObsConfig {
            host: "localhost".to_string(),
            password: None,
            port: 4455,
        }),
        chat: None,
        optional_scenes: OptionalScenes::default(),
        optional_options: OptionalOptions::default(),
    };
    let mut state = State {
        config,
        switcher_state: SwitcherState::default(),
        broadcasting_software: Default::default(),
    };
    state.set_all_switchable_scenes();
    state
}

fn status(bitrate: u64, total: u64, dropped: u64) -> StreamStatus {
    StreamStatus {
        bitrate,
        fps: 60,
        num_total_frames: total,
        num_dropped_frames: dropped,
        render_total_frames: total,
        render_missed_frames: 0,
        output_total_frames: total,
        output_skipped_frames: 0,
    }
}

#[test]
fn reconnect_backoff_grows_and_caps() {
    let mut backoff = RetryBackoff::new(5);
    let delays: Vec<u64> = (0..7).map(|_| backoff.next_delay_secs()).collect();
    assert_eq!(delays, vec![2, 4, 8, 16, 32, 32, 32]);
}

#[test]
fn connecting_synchronizes_state_and_fires_signals() {
    let mut state = empty_state();
    let signals = handle_connected(&mut state, "live".to_string(), true);
    assert_eq!(
        signals,
        vec![Signal::Connected, Signal::StartStreaming, Signal::SwitchScene]
    );
    assert_eq!(state.broadcasting_software.status, ClientStatus::Connected);
    assert_eq!(state.broadcasting_software.current_scene, "live");
    assert!(state.broadcasting_software.is_streaming);

    // A scene outside the switchable set fires no scene signal; a stopped
    // stream fires no streaming signal.
    let mut state = empty_state();
    let signals = handle_connected(&mut state, "unknown".to_string(), false);
    assert_eq!(signals, vec![Signal::Connected]);
}

#[test]
fn disconnecting_discards_telemetry() {
    let mut state = empty_state();
    handle_connected(&mut state, "live".to_string(), true);
    handle_event(&mut state, ConnectionEvent::StreamStatus(status(6000, 100, 1)));
    handle_disconnected(&mut state);

    assert_eq!(state.broadcasting_software.status, ClientStatus::Disconnected);
    assert!(!state.broadcasting_software.is_streaming);
    assert!(state.broadcasting_software.initial_stream_status.is_none());
    assert!(state.broadcasting_software.stream_status.is_none());
}

#[test]
fn stream_status_events_compute_deltas_against_the_baseline() {
    let mut state = empty_state();

    // The first sample becomes the baseline.
    handle_event(&mut state, ConnectionEvent::StreamStatus(status(6000, 100, 2)));
    assert!(state.broadcasting_software.stream_status.is_none());

    // Later samples are reported as deltas against it.
    handle_event(&mut state, ConnectionEvent::StreamStatus(status(5500, 250, 5)));
    let current = state.broadcasting_software.stream_status.expect("delta expected");
    assert_eq!(current.bitrate, 5500);
    assert_eq!(current.num_total_frames, 150);
    assert_eq!(current.num_dropped_frames, 3);
}

#[test]
fn stream_events_toggle_the_streaming_flag() {
    let mut state = empty_state();
    let signal = handle_event(&mut state, ConnectionEvent::StreamStarted { at: 1000 });
    assert_eq!(signal, Some(Signal::StartStreaming));
    assert!(state.broadcasting_software.is_streaming);
    assert_eq!(state.broadcasting_software.last_stream_started_at, 1000);

    let signal = handle_event(&mut state, ConnectionEvent::StreamStopped);
    assert_eq!(signal, None);
    assert!(!state.broadcasting_software.is_streaming);
}

#[test]
fn fuzzy_match_tolerates_case_and_typo_drift() {
    let scenes = vec!["Live".to_string(), "Low bitrate".to_string(), "Offline".to_string()];

    // Case drift.
    assert_eq!(resolve_scene_name("LIVE", &scenes), "Live");
    assert_eq!(resolve_scene_name("offline", &scenes), "Offline");
    // Typo drift.
    assert_eq!(resolve_scene_name("Lov bitrate", &scenes), "Low bitrate");
    // No scene list: the lowercased request stands.
    assert_eq!(resolve_scene_name("BRB", &Vec::new()), "brb");
}

#[test]
fn fuzzy_match_is_not_first_come_first_served() {
    // The requested name sits at the end of the list: distance decides,
    // not position.
    let scenes = vec!["offline".to_string(), "live".to_string()];
    assert_eq!(resolve_scene_name("live", &scenes), "live");
}

#[test]
fn fuzzy_match_compares_lowercased_names() {
    // An exact lowercased match beats a near miss: "LIVE" lowercases onto
    // "live", not onto the shorter "liv".
    let scenes = vec!["liv".to_string(), "live".to_string()];
    assert_eq!(resolve_scene_name("LIVE", &scenes), "live");
}

#[test]
fn network_fed_inputs_need_a_restart() {
    assert!(needs_restart(&vec!["RTMP://ingest/live".to_string()]));
    assert!(needs_restart(&vec!["srt://host:9000".to_string()]));
    assert!(needs_restart(&vec!["udp://0.0.0.0:1234".to_string()]));
    assert!(!needs_restart(&vec!["/tmp/loop.mp4".to_string(), "https://cdn/x.mp4".to_string()]));
    assert!(!needs_restart(&Vec::new()));
}

#[test]
fn fix_plans_nudges_for_network_fed_sources_only() {
    let item = |name: &str| SourceItem {
        id: 1,
        scene_name: "live".to_string(),
        source_name: name.to_string(),
        source_kind: "ffmpeg_source".to_string(),
    };
    let plan = plan_fix(&vec![
        (item("feed"), vec!["RTMP://ingest/live".to_string()]),
        (item("music"), vec!["/home/media/loop.mp3".to_string()]),
        (item("backup"), vec!["srt://host:9000".to_string()]),
    ]);
    let names: Vec<String> = plan.iter().map(|s| s.source_name.clone()).collect();
    assert_eq!(names, vec!["feed".to_string(), "backup".to_string()]);
}

#[test]
fn media_scan_walks_nested_scenes_once() {
    let media = |name: &str, state: MediaState| SceneItem {
        id: 1,
        source_name: name.to_string(),
        source_kind: "ffmpeg_source".to_string(),
        media_state: Some(state),
        is_group: false,
    };
    let nested = |name: &str| SceneItem {
        id: 2,
        source_name: name.to_string(),
        source_kind: "scene".to_string(),
        media_state: None,
        is_group: false,
    };

    let mut scan = MediaSourceScan::new("live".to_string());

    let first = scan.next_scene().expect("the starting scene is queued");
    assert_eq!(first.name, "live");
    scan.feed(
        &first.name,
        &vec![media("feed", MediaState::Playing), nested("inner"), nested("inner")],
    );

    let second = scan.next_scene().expect("the nested scene is queued once");
    assert_eq!(second.name, "inner");
    scan.feed(
        &second.name,
        &vec![
            media("stalled", MediaState::Buffering),
            media("idle", MediaState::Stopped),
            // A cycle back to an already-queued scene is not entered again.
            nested("inner"),
        ],
    );

    assert!(scan.next_scene().is_none());
    let names: Vec<String> = scan.sources.iter().map(|s| s.source_name.clone()).collect();
    assert_eq!(names, vec!["feed".to_string(), "stalled".to_string()]);
}

#[test]
fn telemetry_sample_is_assembled_from_two_readings() {
    let prev = OutputSample { bytes: 0, duration_ms: 0, total_frames: 0, skipped_frames: 0 };
    let cur = OutputSample {
        bytes: 250_000,
        duration_ms: 1000,
        total_frames: 120,
        skipped_frames: 3,
    };
    let stats = GeneralStats {
        active_fps: 60,
        render_total_frames: 500,
        render_skipped_frames: 4,
        output_total_frames: 400,
        output_skipped_frames: 2,
    };
    let sample = stream_status_from_samples(&prev, &cur, &stats);
    // 250000 bytes in one second are 2000 Kbps.
    assert_eq!(sample.bitrate, 2000);
    assert_eq!(sample.fps, 60);
    assert_eq!(sample.num_total_frames, 120);
    assert_eq!(sample.num_dropped_frames, 3);
    assert_eq!(sample.render_total_frames, 500);
    assert_eq!(sample.output_skipped_frames, 2);
}

#[test]
fn string_helpers_compare_by_characters() {
    assert!(str_eq("live", "live"));
    assert!(!str_eq("live", "Live"));
    assert!(starts_with("rtmp://x", "rtmp"));
    assert!(!starts_with("rt", "rtmp"));
    assert!(str_contains("udp://0.0.0.0:2020", "0.0.0.0:2020"));
    assert!(!str_contains("udp://0.0.0.0:2020", "3030"));
    assert!(str_contains("anything", ""));
}

#[test]
fn decimal_strings_parse_exactly() {
    assert_eq!(parse_u32("0"), Some(0));
    assert_eq!(parse_u32("2048000"), Some(2048000));
    assert_eq!(parse_u32("4294967295"), Some(u32::MAX));
    assert_eq!(parse_u32("4294967296"), None);
    assert_eq!(parse_u32(""), None);
    assert_eq!(parse_u32("12a"), None);
    assert_eq!(parse_u32("-5"), None);
}
