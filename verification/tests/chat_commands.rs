//! The chat command layer: permissions, aliases, command words, and the
//! session configuration mutators.

use noalbs::chat::chat_handler::{
    default_command_settings, enabled_to_bool, get_command_from_alias_string, get_permission,
    handle_timeout, is_allowed_to_use_command, permission_is_allowed, try_get_command_from_alias,
    try_get_permission, Timeout,
};
use noalbs::chat::{ChatLanguage, ChatMessage, ChatPlatform, Command, Permission};
use noalbs::config::{
    update_command, Chat, CommandInfo, Config, ObsConfig, OptionalOptions, OptionalScenes,
    SoftwareConnection, Switcher, User,
};
use noalbs::error::Error;
use noalbs::state::{contains_scene, State, SwitcherState};
use noalbs::stream_servers::StreamServer;
use noalbs::switcher::TriggerType;

fn entry(command: Command, permission: Option<Permission>, aliases: Vec<&str>) -> (Command, CommandInfo) {
    let alias = if aliases.is_empty() {
        None
    } else {
        Some(aliases.into_iter().map(|a| a.to_string()).collect())
    };
    (command, CommandInfo { permission, alias })
}

fn chat_config() -> Chat {
    Chat {
        platform: ChatPlatform::Twitch,
        username: "chan".to_string(),
        admins: vec!["boss".to_string()],
        language: ChatLanguage::EN,
        prefix: "!".to_string(),
        enable_public_commands: true,
        enable_mod_commands: true,
        enable_auto_stop_stream_on_host_or_raid: true,
        commands: None,
    }
}

fn chat_state(chat: Option<Chat>) -> State {
    let config = Config {
        user: User { id: None, name: "me".to_string(), password_hash: None },
        switcher: Switcher::default(),
        software: SoftwareConnection::Obs(ObsConfig {
            host: "localhost".to_string(),
            password: None,
            port: 4455,
        }),
        chat,
        optional_scenes: OptionalScenes::default(),
        optional_options: OptionalOptions::default(),
    };
    State {
        config,
        switcher_state: SwitcherState::default(),
        broadcasting_software: Default::default(),
    }
}

#[test]
fn permissions_resolve_user_table_first() {
    let user = vec![entry(Command::Fix, Some(Permission::Public), vec![])];
    let defaults = default_command_settings();

    // The user's override wins over the default table.
    assert_eq!(get_permission(&Command::Fix, &Some(user), &defaults), Permission::Public);
    // The default table answers where the user is silent.
    assert_eq!(get_permission(&Command::Bitrate, &None, &defaults), Permission::Public);
    assert_eq!(get_permission(&Command::Trigger, &None, &defaults), Permission::Mod);
    // Anything unconfigured stays with the admins.
    assert_eq!(get_permission(&Command::Start, &None, &defaults), Permission::Admin);
}

#[test]
fn permission_lookup_skips_entries_without_one() {
    let table = vec![
        entry(Command::Fix, None, vec![]),
        entry(Command::Bitrate, Some(Permission::Public), vec![]),
    ];
    assert_eq!(try_get_permission(&Command::Fix, &table), None);
    assert_eq!(try_get_permission(&Command::Bitrate, &table), Some(Permission::Public));
    assert_eq!(try_get_permission(&Command::Stop, &table), None);
}

#[test]
fn permission_check_ranks_mod_over_public() {
    assert!(permission_is_allowed(&Permission::Public, &Permission::Public));
    assert!(permission_is_allowed(&Permission::Public, &Permission::Mod));
    assert!(permission_is_allowed(&Permission::Mod, &Permission::Mod));
    assert!(!permission_is_allowed(&Permission::Mod, &Permission::Public));
    assert!(!permission_is_allowed(&Permission::Admin, &Permission::Mod));
}

#[test]
fn command_gate_honours_admin_list_and_toggles() {
    let chat = chat_config();
    let msg = |sender: &str, permission: Permission| ChatMessage {
        platform: ChatPlatform::Twitch,
        permission,
        channel: "chan".to_string(),
        sender: sender.to_string(),
        message: "!fix".to_string(),
    };

    // Admins, by role or by the admin list, always pass.
    assert!(is_allowed_to_use_command(&chat, &msg("x", Permission::Admin), &Permission::Admin));
    assert!(is_allowed_to_use_command(&chat, &msg("boss", Permission::Public), &Permission::Admin));

    // The toggles cut whole classes off.
    let mut closed = chat_config();
    closed.enable_mod_commands = false;
    assert!(!is_allowed_to_use_command(&closed, &msg("m", Permission::Mod), &Permission::Mod));

    let mut muted = chat_config();
    muted.enable_public_commands = false;
    assert!(!is_allowed_to_use_command(&muted, &msg("p", Permission::Public), &Permission::Public));

    // Otherwise the ordinary ranking decides.
    assert!(is_allowed_to_use_command(&chat, &msg("p", Permission::Public), &Permission::Public));
    assert!(!is_allowed_to_use_command(&chat, &msg("p", Permission::Public), &Permission::Mod));
}

#[test]
fn aliases_resolve_to_their_commands() {
    let user = vec![entry(Command::Fix, None, vec!["f", "r"])];
    let defaults = vec![entry(Command::Bitrate, None, vec!["b"])];

    assert_eq!(get_command_from_alias_string(&user, "f"), Some(Command::Fix));
    assert_eq!(get_command_from_alias_string(&user, "b"), None);

    assert_eq!(try_get_command_from_alias(&Some(user), &defaults, "b"), Some(Command::Bitrate));
    assert_eq!(
        try_get_command_from_alias(&None, &defaults, "nope"),
        None
    );
}

#[test]
fn command_words_parse_in_any_case() {
    assert_eq!(Command::from_word("SWITCH"), Command::Switch);
    assert_eq!(Command::from_word("bitrate"), Command::Bitrate);
    assert_eq!(Command::from_word("Record"), Command::Rec);
    assert_eq!(Command::from_word("noalbsversion"), Command::Version);
    assert_eq!(Command::from_word("wobble"), Command::Unknown("wobble".to_string()));
    assert_eq!(Command::from_word("WOBBLE"), Command::Unknown("wobble".to_string()));
}

#[test]
fn language_codes_parse_in_any_case() {
    assert_eq!(ChatLanguage::from_str("en"), Ok(ChatLanguage::EN));
    assert_eq!(ChatLanguage::from_str("PT_BR"), Ok(ChatLanguage::PTBR));
    assert_eq!(ChatLanguage::from_str("tlh"), Err(Error::LangNotSupported));
}

#[test]
fn chat_toggle_words_read_on_and_off() {
    assert_eq!(enabled_to_bool("on"), Ok(true));
    assert_eq!(enabled_to_bool("ON"), Ok(true));
    assert_eq!(enabled_to_bool("off"), Ok(false));
    assert_eq!(enabled_to_bool("maybe"), Err(Error::EnabledToBoolConversionError));
}

#[test]
fn update_command_overwrites_and_appends() {
    let mut table = vec![entry(Command::Fix, Some(Permission::Mod), vec!["f"])];

    // An existing entry takes the new permission and the extra alias.
    update_command(&mut table, "fix".to_string(), Some(Permission::Public), Some("r".to_string()));
    assert_eq!(table.len(), 1);
    assert_eq!(table[0].1.permission, Some(Permission::Public));
    assert_eq!(table[0].1.alias, Some(vec!["f".to_string(), "r".to_string()]));

    // A missing entry is appended.
    update_command(&mut table, "BITRATE".to_string(), Some(Permission::Public), None);
    assert_eq!(table.len(), 2);
    assert_eq!(table[1].0, Command::Bitrate);

    // An unrecognized command word changes nothing.
    update_command(&mut table, "wobble".to_string(), Some(Permission::Public), None);
    assert_eq!(table.len(), 2);
}

#[test]
fn session_alias_bookkeeping_round_trips() {
    let mut state = chat_state(Some(chat_config()));

    assert_eq!(state.contains_alias("f"), Ok(false));
    assert_eq!(state.add_alias("f".to_string(), Command::Fix), Ok(()));
    assert_eq!(state.contains_alias("f"), Ok(true));
    assert_eq!(state.remove_alias("f"), Ok(true));
    assert_eq!(state.contains_alias("f"), Ok(false));
    assert_eq!(state.remove_alias("f"), Ok(false));

    // Without a configured chat every alias operation is refused.
    let mut bare = chat_state(None);
    assert_eq!(bare.contains_alias("f"), Err(Error::NoChat));
    assert_eq!(bare.add_alias("f".to_string(), Command::Fix), Err(Error::NoChat));
    assert_eq!(bare.remove_alias("f"), Err(Error::NoChat));
}

#[test]
fn session_toggles_and_triggers_round_trip() {
    let mut state = chat_state(Some(chat_config()));

    assert_eq!(state.get_trigger_by_type(TriggerType::Low), Some(800));
    assert_eq!(state.update_trigger(TriggerType::Low, 500), Some(500));
    assert_eq!(state.get_trigger_by_type(TriggerType::Low), Some(500));
    // Zero clears a trigger.
    assert_eq!(state.update_trigger(TriggerType::Low, 0), None);
    assert_eq!(state.get_trigger_by_type(TriggerType::Low), None);

    assert!(state.get_notify());
    state.set_notify(false);
    assert!(!state.get_notify());

    assert_eq!(state.get_retry_attempts(), 5);
    state.set_retry_attempts(3);
    assert_eq!(state.get_retry_attempts(), 3);

    // The toggle flips and reports the new value.
    assert!(!state.set_instantly_switch_on_recover());
    assert!(state.set_instantly_switch_on_recover());

    assert!(!state.set_bitrate_switcher_state(false));
    assert!(!state.config.switcher.bitrate_switcher_enabled);

    assert_eq!(state.get_autostop(), Ok(true));
    assert_eq!(state.chat_language(), Ok(ChatLanguage::EN));
}

#[test]
fn public_command_cooldown_lasts_five_seconds() {
    let mut timeouts: Vec<Timeout> = Vec::new();

    // A channel seen for the first time is not in cooldown.
    assert!(!handle_timeout(&mut timeouts, &"chan".to_string(), 100));
    // Within five seconds it is.
    assert!(handle_timeout(&mut timeouts, &"chan".to_string(), 103));
    assert!(handle_timeout(&mut timeouts, &"chan".to_string(), 105));
    // Afterwards the marker refreshes.
    assert!(!handle_timeout(&mut timeouts, &"chan".to_string(), 106));
    assert!(handle_timeout(&mut timeouts, &"chan".to_string(), 107));
    // Another channel has its own marker.
    assert!(!handle_timeout(&mut timeouts, &"other".to_string(), 107));
}

#[test]
fn server_list_sorts_by_priority() {
    let server = |name: &str, priority: Option<i32>| StreamServer {
        name: name.to_string(),
        priority,
        override_scenes: None,
        depends_on: None,
        enabled: true,
    };

    let mut switcher = Switcher::default();
    switcher.add_stream_server(server("c", Some(7)));
    switcher.add_stream_server(server("a", Some(1)));
    switcher.add_stream_server(server("n", None));
    switcher.add_stream_server(server("b", Some(3)));

    let names: Vec<String> = switcher.stream_servers.iter().map(|s| s.name.clone()).collect();
    assert_eq!(
        names,
        vec!["n".to_string(), "a".to_string(), "b".to_string(), "c".to_string()]
    );
}

#[test]
fn fresh_sessions_prime_the_previous_scene() {
    let mut config_state = chat_state(Some(chat_config()));
    config_state.config.switcher.switching_scenes =
        noalbs::switcher::SwitchingScenes::new("main", "backup", "brb");
    let state = State::new(config_state.config);

    assert_eq!(state.broadcasting_software.prev_scene, "main");
    assert_eq!(state.broadcasting_software.current_scene, "");
    assert!(!state.broadcasting_software.is_streaming);
    for name in ["main", "backup", "brb"] {
        assert!(contains_scene(&state.switcher_state.switchable_scenes, &name.to_string()));
    }
}

#[test]
fn chat_setters_round_trip() {
    let mut state = chat_state(Some(chat_config()));

    assert_eq!(state.get_enable_mod(), Ok(true));
    assert_eq!(state.set_enable_mod(false), Ok(()));
    assert_eq!(state.get_enable_mod(), Ok(false));

    assert_eq!(state.get_enable_public(), Ok(true));
    assert_eq!(state.set_enable_public(false), Ok(()));
    assert_eq!(state.get_enable_public(), Ok(false));

    assert_eq!(state.set_autostop(false), Ok(()));
    assert_eq!(state.get_autostop(), Ok(false));

    assert_eq!(state.set_prefix("?".to_string()), Ok(()));
    assert_eq!(state.config.chat.as_ref().unwrap().prefix, "?");

    assert_eq!(state.set_chat_language(ChatLanguage::DE), Ok(()));
    assert_eq!(state.chat_language(), Ok(ChatLanguage::DE));

    state.set_password("SECRET-REDACTED".to_string());
    assert!(state.config.user.password_hash.is_some());

    let mut bare = chat_state(None);
    assert_eq!(bare.set_enable_mod(true), Err(Error::NoChat));
    assert_eq!(bare.set_prefix("!".to_string()), Err(Error::NoChat));
}
