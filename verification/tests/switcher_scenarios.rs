//! End-to-end scenarios of the per-tick switching decision.

use noalbs::broadcasting_software::{handle_event, ConnectionEvent};
use noalbs::config::{
    Config, ObsConfig, OptionalOptions, OptionalScenes, SoftwareConnection, Switcher, User,
};
use noalbs::state::{ClientStatus, State, SwitcherState};
use noalbs::stream_servers::StreamServer;
use noalbs::switcher::{
    apply_tick_bookkeeping, get_online_stream_server, get_sleep_notifier_if_necessary, plan_tick,
    resolve_scene, switch_if_necessary, Signal, SwitchType, SwitchingScenes, TickState, Triggers,
};

fn server(name: &str, priority: i32) -> StreamServer {
    StreamServer {
        name: name.to_string(),
        priority: Some(priority),
        override_scenes: None,
        depends_on: None,
        enabled: true,
    }
}

fn base_state(servers: Vec<StreamServer>) -> State {
    let mut switcher = Switcher::default();
    switcher.instantly_switch_on_recover = false;
    switcher.retry_attempts = 3;
    switcher.triggers = Triggers { low: Some(800), rtt: None, offline: None, rtt_offline: None };
    switcher.stream_servers = servers;

    let config = Config {
        user: User { id: None, name: "me".to_string(), password_hash: None },
        switcher,
        software: SoftwareConnection::Obs(ObsConfig {
            host: "localhost".to_string(),
            password: None,
            port: 4455,
        }),
        chat: None,
        optional_scenes: OptionalScenes::default(),
        optional_options: OptionalOptions::default(),
    };

    let mut state = State {
        config,
        switcher_state: SwitcherState::default(),
        broadcasting_software: Default::default(),
    };
    state.set_all_switchable_scenes();
    state.broadcasting_software.current_scene = "live".to_string();
    state.broadcasting_software.prev_scene = "live".to_string();
    state.broadcasting_software.status = ClientStatus::Connected;
    state.broadcasting_software.is_streaming = true;
    state
}

/// Runs one full tick against the given per-server classifications and
/// returns the scene switched to, if the tick switched.
fn run_tick(
    state: &mut State,
    classifications: Vec<SwitchType>,
    ts: &mut TickState,
) -> Option<String> {
    if get_sleep_notifier_if_necessary(state).is_some() {
        return None;
    }

    let plan = plan_tick(state, &classifications, ts);
    if !plan.act {
        return None;
    }

    // No configured server here depends on another, so the dependency
    // signal flag is irrelevant.
    let scene = resolve_scene(state, &plan.server, true, plan.switch_type);
    apply_tick_bookkeeping(state, plan.switch_type, &scene, &plan.server);

    if switch_if_necessary(state, &scene, plan.switch_type) {
        state.broadcasting_software.current_scene = scene.clone();
        return Some(scene);
    }
    None
}

#[test]
fn low_bitrate_switches_on_third_tick() {
    let mut state = base_state(vec![server("A", 0)]);
    let mut ts = TickState::new();

    // The probe reports 450 Kbps against a low trigger of 800 for three
    // consecutive ticks: exactly one switch, on the third.
    let first = run_tick(&mut state, vec![SwitchType::Low], &mut ts);
    assert_eq!(first, None);
    let second = run_tick(&mut state, vec![SwitchType::Low], &mut ts);
    assert_eq!(second, None);
    let third = run_tick(&mut state, vec![SwitchType::Low], &mut ts);
    assert_eq!(third, Some("low".to_string()));

    // Holding the same reading does not switch again: the target is
    // already active.
    let fourth = run_tick(&mut state, vec![SwitchType::Low], &mut ts);
    assert_eq!(fourth, None);
}

#[test]
fn unreachable_probe_switches_to_offline_and_keeps_prev_scene() {
    let mut state = base_state(vec![server("A", 0)]);
    let mut ts = TickState::new();
    state.switcher_state.last_used_server = Some("A".to_string());

    // An unreachable probe classifies as Offline each tick; after the
    // debounce runs out, one switch to the offline scene.
    let mut switches: Vec<String> = Vec::new();
    for _ in 0..3 {
        if let Some(s) = run_tick(&mut state, vec![SwitchType::Offline], &mut ts) {
            switches.push(s);
        }
    }
    assert_eq!(switches, vec!["offline".to_string()]);

    // An Offline resolution never touches the stored previous scene.
    assert_eq!(state.broadcasting_software.prev_scene, "live");
}

#[test]
fn instant_recovery_switches_on_the_same_tick() {
    let mut state = base_state(vec![server("A", 0)]);
    state.config.switcher.instantly_switch_on_recover = true;
    state.broadcasting_software.current_scene = "offline".to_string();

    let mut ts = TickState::new();
    assert_eq!(ts.prev_switch_type, SwitchType::Offline);

    // Coming back from offline with instant recovery: the very first
    // Normal tick switches, the debounce counter notwithstanding.
    let result = run_tick(&mut state, vec![SwitchType::Normal], &mut ts);
    assert_eq!(result, Some("live".to_string()));
}

#[test]
fn second_server_wins_when_first_is_offline() {
    let mut b = server("B", 2);
    b.override_scenes = Some(SwitchingScenes::new("b-live", "b-low", "b-offline"));
    let mut state = base_state(vec![server("A", 1), b]);
    state.set_all_switchable_scenes();
    state.config.switcher.instantly_switch_on_recover = true;

    let classifications = vec![SwitchType::Offline, SwitchType::Normal];
    let (winner, winner_type) =
        get_online_stream_server(&state.config.switcher.stream_servers, &classifications);
    assert_eq!(winner, Some(1));
    assert_eq!(winner_type, SwitchType::Normal);

    // Act on the first tick (instant recovery): the scene comes from B's
    // override table and B becomes the last used server.
    let mut ts = TickState::new();
    let result = run_tick(&mut state, classifications, &mut ts);
    assert_eq!(result, Some("b-live".to_string()));
    assert_eq!(state.switcher_state.last_used_server, Some("B".to_string()));
}

#[test]
fn manual_scene_change_blocks_on_the_switchable_gate() {
    let mut state = base_state(vec![server("A", 0)]);

    // A manual change moves the current scene outside the switchable set:
    // the loop must block on the scene-switchable signal and probe nothing.
    state.broadcasting_software.current_scene = "just chatting".to_string();
    assert_eq!(get_sleep_notifier_if_necessary(&state), Some(Signal::SwitchScene));

    let mut ts = TickState::new();
    let result = run_tick(&mut state, vec![SwitchType::Low], &mut ts);
    assert_eq!(result, None);
    // The carried debounce state is untouched: the tick never probed.
    assert_eq!(ts.same_type, 0);

    // A change back to a switchable scene fires the wake signal, and the
    // wait condition clears.
    let signal = handle_event(
        &mut state,
        ConnectionEvent::SceneChanged { scene_name: "live".to_string() },
    );
    assert_eq!(signal, Some(Signal::SwitchScene));
    assert_eq!(get_sleep_notifier_if_necessary(&state), None);
}

#[test]
fn wait_gates_fire_in_priority_order() {
    let mut state = base_state(vec![server("A", 0)]);

    state.config.switcher.bitrate_switcher_enabled = false;
    assert_eq!(get_sleep_notifier_if_necessary(&state), Some(Signal::SwitcherEnabled));

    state.config.switcher.bitrate_switcher_enabled = true;
    state.broadcasting_software.status = ClientStatus::Disconnected;
    assert_eq!(get_sleep_notifier_if_necessary(&state), Some(Signal::Connected));

    state.broadcasting_software.status = ClientStatus::Connected;
    state.broadcasting_software.is_streaming = false;
    assert_eq!(get_sleep_notifier_if_necessary(&state), Some(Signal::StartStreaming));

    state.config.switcher.only_switch_when_streaming = false;
    assert_eq!(get_sleep_notifier_if_necessary(&state), None);
}

#[test]
fn offline_timeout_plans_a_stream_stop() {
    let mut state = base_state(vec![server("A", 0)]);
    state.config.optional_options.offline_timeout = Some(1);
    state.switcher_state.last_used_server = Some("A".to_string());

    let mut ts = TickState::new();
    ts.prev_switch_type = SwitchType::Offline;
    ts.same_type = 2;
    ts.same_type_seconds = 61;

    let plan = plan_tick(&state, &vec![SwitchType::Offline], &mut ts);
    assert!(plan.act);
    assert!(plan.offline_stop);
    // No recording stop was asked for, and with no chat configured there
    // is no notice either.
    assert!(!plan.offline_check_recording);
    assert!(!plan.offline_notice);
    // The re-pointed server is the last used one.
    assert_eq!(plan.server, Some(0));
}

#[test]
fn previous_from_a_changed_server_upgrades_to_normal() {
    let mut state = base_state(vec![server("A", 0)]);
    state.switcher_state.last_used_server = Some("B".to_string());

    let mut ts = TickState::new();
    let plan = plan_tick(&state, &vec![SwitchType::Previous], &mut ts);
    assert!(plan.act);
    assert!(plan.force);
    assert_eq!(plan.switch_type, SwitchType::Normal);
}

#[test]
fn previous_resolves_to_the_stored_scene() {
    let mut state = base_state(vec![server("A", 0)]);
    state.switcher_state.last_used_server = Some("A".to_string());
    state.broadcasting_software.prev_scene = "intermission".to_string();

    let scene = resolve_scene(&mut state, &Some(0), true, SwitchType::Previous);
    assert_eq!(scene, "intermission");
}

#[test]
fn dependency_without_signal_resolves_through_backup_scenes() {
    let mut a = server("A", 0);
    a.override_scenes = Some(SwitchingScenes::new("a-live", "a-low", "a-offline"));
    a.depends_on = Some(noalbs::stream_servers::DependsOn {
        name: "B".to_string(),
        backup_scenes: SwitchingScenes::new("bk-live", "bk-low", "bk-offline"),
    });
    let mut state = base_state(vec![a, server("B", 1)]);
    state.set_all_switchable_scenes();

    // Whatever the server's own classification, a dependency reporting no
    // signal routes resolution through the backup table.
    assert_eq!(resolve_scene(&state, &Some(0), false, SwitchType::Normal), "bk-live");
    assert_eq!(resolve_scene(&state, &Some(0), false, SwitchType::Low), "bk-low");
    assert_eq!(resolve_scene(&state, &Some(0), false, SwitchType::Offline), "bk-offline");

    // With the dependency delivering, the override table applies.
    assert_eq!(resolve_scene(&state, &Some(0), true, SwitchType::Normal), "a-live");
}

#[test]
fn switch_if_necessary_is_idempotent() {
    let state = base_state(vec![server("A", 0)]);
    let live = "live".to_string();
    // Asking for the scene already active never switches.
    assert!(!switch_if_necessary(&state, &live, SwitchType::Normal));

    let low = "low".to_string();
    assert!(switch_if_necessary(&state, &low, SwitchType::Low));
}

#[test]
fn starting_scene_promotion_skips_offline_and_allows_recovery() {
    let mut state = base_state(vec![server("A", 0)]);
    state.config.optional_scenes.starting = Some("starting".to_string());
    state.config.optional_options.switch_from_starting_scene_to_live_scene = true;
    state.broadcasting_software.current_scene = "starting".to_string();

    // From the starting scene, never towards the offline scene...
    assert!(!switch_if_necessary(&state, &"offline".to_string(), SwitchType::Offline));
    // ...but a recovery may promote to live although the starting scene
    // itself is not switchable.
    assert!(switch_if_necessary(&state, &"live".to_string(), SwitchType::Normal));
}

#[test]
fn degradation_recovery_and_offline_in_one_session() {
    let mut state = base_state(vec![server("A", 0)]);
    let mut ts = TickState::new();

    // Degradation: three low ticks switch to the low scene and store it
    // as the previous scene.
    let mut switches: Vec<String> = Vec::new();
    for _ in 0..3 {
        if let Some(s) = run_tick(&mut state, vec![SwitchType::Low], &mut ts) {
            switches.push(s);
        }
    }
    assert_eq!(switches, vec!["low".to_string()]);
    assert_eq!(state.broadcasting_software.prev_scene, "low");

    // Recovery: three normal ticks switch back to live and store it.
    let mut switches: Vec<String> = Vec::new();
    for _ in 0..3 {
        if let Some(s) = run_tick(&mut state, vec![SwitchType::Normal], &mut ts) {
            switches.push(s);
        }
    }
    assert_eq!(switches, vec!["live".to_string()]);
    assert_eq!(state.broadcasting_software.prev_scene, "live");

    // The probe then becomes unreachable: one switch to the offline
    // scene, and the stored previous scene keeps the value from before
    // the degradation.
    let mut switches: Vec<String> = Vec::new();
    for _ in 0..3 {
        if let Some(s) = run_tick(&mut state, vec![SwitchType::Offline], &mut ts) {
            switches.push(s);
        }
    }
    assert_eq!(switches, vec!["offline".to_string()]);
    assert_eq!(state.broadcasting_software.prev_scene, "live");
}
