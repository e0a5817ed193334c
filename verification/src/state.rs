//! The shared per-session state: scene bookkeeping, switcher bookkeeping,
//! and the mirror of the broadcasting software's live status.

use vstd::prelude::*;

use crate::chat::ChatLanguage;
use crate::config::Config;
use crate::error::Error;
use crate::switcher::{SwitchingScenes, TriggerType, Triggers};

verus! {

/// Whether the broadcasting-software connection is currently up.
#[derive(Debug, Clone, Copy, PartialEq, Eq, Structural)]
pub enum ClientStatus {
    Connected,
    Disconnected,
}

/// One telemetry sample of the running stream. Frame counts are cumulative
/// counters; `calculate_current` turns them into deltas against a baseline.
/// The frame rate is rounded to whole frames per second.
#[derive(Debug, Clone, Copy)]
pub struct StreamStatus {
    pub bitrate: u64,
    pub fps: u64,
    pub num_total_frames: u64,
    pub num_dropped_frames: u64,
    pub render_total_frames: u64,
    pub render_missed_frames: u64,
    pub output_total_frames: u64,
    pub output_skipped_frames: u64,
}

/// The cumulative counters of `b` are dominated by those of `s`: `s` was
/// sampled no earlier than `b` on one uninterrupted stream.
pub open spec fn spec_status_dominates(s: StreamStatus, b: StreamStatus) -> bool {
    &&& b.num_total_frames <= s.num_total_frames
    &&& b.num_dropped_frames <= s.num_dropped_frames
    &&& b.render_total_frames <= s.render_total_frames
    &&& b.render_missed_frames <= s.render_missed_frames
    &&& b.output_total_frames <= s.output_total_frames
    &&& b.output_skipped_frames <= s.output_skipped_frames
}

impl StreamStatus {
    /// The status since the baseline: bitrate and frame rate are taken as
    /// they are, the cumulative frame counters become deltas.
    pub fn calculate_current(&self, baseline: &Self) -> (r: Self)
        requires
            spec_status_dominates(*self, *baseline),
        ensures
            r.bitrate == self.bitrate,
            r.fps == self.fps,
            r.num_total_frames == self.num_total_frames - baseline.num_total_frames,
            r.num_dropped_frames == self.num_dropped_frames - baseline.num_dropped_frames,
            r.render_total_frames == self.render_total_frames - baseline.render_total_frames,
            r.render_missed_frames == self.render_missed_frames - baseline.render_missed_frames,
            r.output_total_frames == self.output_total_frames - baseline.output_total_frames,
            r.output_skipped_frames == self.output_skipped_frames - baseline.output_skipped_frames,
    {
        Self {
            bitrate: self.bitrate,
            fps: self.fps,
            num_total_frames: self.num_total_frames - baseline.num_total_frames,
            num_dropped_frames: self.num_dropped_frames - baseline.num_dropped_frames,
            render_total_frames: self.render_total_frames - baseline.render_total_frames,
            render_missed_frames: self.render_missed_frames - baseline.render_missed_frames,
            output_total_frames: self.output_total_frames - baseline.output_total_frames,
            output_skipped_frames: self.output_skipped_frames - baseline.output_skipped_frames,
        }
    }
}

/// The switcher's own shared bookkeeping.
#[derive(Debug, Clone)]
pub struct SwitcherState {
    /// The server that last produced a non-offline classification.
    pub last_used_server: Option<String>,

    /// Every scene the switcher may observe itself on and still act: the
    /// union of the default, override and backup scene tables.
    pub switchable_scenes: Vec<String>,
}

impl Default for SwitcherState {
    fn default() -> (r: Self)
        ensures
            r.last_used_server.is_none(),
            r.switchable_scenes@.len() == 0,
    {
        Self { last_used_server: None, switchable_scenes: Vec::new() }
    }
}

/// The mirror of the broadcasting software's live status, kept fresh by the
/// connection's event task.
#[derive(Debug, Clone)]
pub struct BroadcastingSoftwareState {
    pub prev_scene: String,
    pub current_scene: String,
    pub status: ClientStatus,
    pub is_streaming: bool,
    /// Seconds since an arbitrary fixed origin at which streaming last
    /// started.
    pub last_stream_started_at: u64,
    pub initial_stream_status: Option<StreamStatus>,
    pub stream_status: Option<StreamStatus>,
}

impl Default for BroadcastingSoftwareState {
    fn default() -> (r: Self)
        ensures
            r.prev_scene@.len() == 0,
            r.current_scene@.len() == 0,
            r.status == ClientStatus::Disconnected,
            !r.is_streaming,
            r.last_stream_started_at == 0u64,
            r.initial_stream_status.is_none(),
            r.stream_status.is_none(),
    {
        Self {
            prev_scene: String::new(),
            current_scene: String::new(),
            status: ClientStatus::Disconnected,
            is_streaming: false,
            last_stream_started_at: 0,
            initial_stream_status: None,
            stream_status: None,
        }
    }
}

/// All shared state of one session.
#[derive(Debug, Clone)]
pub struct State {
    pub config: Config,
    pub switcher_state: SwitcherState,
    pub broadcasting_software: BroadcastingSoftwareState,
}

/// Whether `scenes` holds an entry whose characters are `name`.
pub open spec fn spec_contains_scene(scenes: Seq<String>, name: Seq<char>) -> bool {
    exists|i: int| 0 <= i < scenes.len() && scenes[i]@ == name
}

/// Whether the session may observe itself on the scene `name` and still
/// act: the scene is in its switchable-scene list.
pub open spec fn spec_switchable(state: State, name: Seq<char>) -> bool {
    spec_contains_scene(state.switcher_state.switchable_scenes@, name)
}

/// Whether `name` is one of the three entries of the scene table `s`.
pub open spec fn spec_scenes_has(s: SwitchingScenes, name: Seq<char>) -> bool {
    s.normal@ == name || s.low@ == name || s.offline@ == name
}

/// Whether `name` appears in the override or backup table of one of the
/// first `n` configured stream servers.
pub open spec fn spec_server_scene_before(
    servers: Seq<crate::stream_servers::StreamServer>,
    n: int,
    name: Seq<char>,
) -> bool {
    exists|j: int|
        #![trigger servers[j]]
        0 <= j < n && ((servers[j].override_scenes matches Some(s) && spec_scenes_has(s, name)) || (
        servers[j].depends_on matches Some(d) && spec_scenes_has(d.backup_scenes, name)))
}

/// Whether `name` is reachable through the session's scene configuration:
/// the default table, an override table, or a dependency's backup table.
pub open spec fn spec_config_scene(cfg: crate::config::Switcher, name: Seq<char>) -> bool {
    spec_scenes_has(cfg.switching_scenes, name) || spec_server_scene_before(
        cfg.stream_servers@,
        cfg.stream_servers@.len() as int,
        name,
    )
}

proof fn lemma_contains_push(scenes: Seq<String>, x: String, name: Seq<char>)
    ensures
        spec_contains_scene(scenes.push(x), name) <==> (spec_contains_scene(scenes, name) || x@
            == name),
{
    if spec_contains_scene(scenes, name) {
        let i = choose|i: int| 0 <= i < scenes.len() && scenes[i]@ == name;
        assert(scenes.push(x)[i]@ == name);
    }
    if x@ == name {
        assert(scenes.push(x)[scenes.len() as int]@ == name);
    }
    if spec_contains_scene(scenes.push(x), name) {
        let i = choose|i: int| 0 <= i < scenes.push(x).len() && scenes.push(x)[i]@ == name;
        if i < scenes.len() {
            assert(scenes[i]@ == name);
        } else {
            assert(x@ == name);
        }
    }
}

impl State {
    /// Recomputes the switchable-scene set from the configuration, keeping
    /// anything that was already switchable: afterwards a scene is
    /// switchable exactly when it was before or is reachable through the
    /// default, override or backup scene tables. Called once after loading
    /// the configuration and again whenever it changes.
    pub fn set_all_switchable_scenes(&mut self)
        ensures
            final(self).config == old(self).config,
            final(self).broadcasting_software == old(self).broadcasting_software,
            final(self).switcher_state.last_used_server == old(self).switcher_state.last_used_server,
            forall|name: Seq<char>|
                #![trigger spec_switchable(*final(self), name)]
                spec_switchable(*final(self), name) <==> (spec_switchable(*old(self), name)
                    || spec_config_scene(old(self).config.switcher, name)),
    {
        let ghost orig = *old(self);
        let ghost servers_view = self.config.switcher.stream_servers@;
        let mut additions: Vec<String> = Vec::new();

        let scenes = &self.config.switcher.switching_scenes;
        additions.push(scenes.low.clone());
        additions.push(scenes.normal.clone());
        additions.push(scenes.offline.clone());

        proof {
            assert forall|name: Seq<char>|
                spec_contains_scene(additions@, name) <==> spec_scenes_has(
                    self.config.switcher.switching_scenes,
                    name,
                ) by {
                if spec_contains_scene(additions@, name) {
                    let i = choose|i: int|
                        0 <= i < additions@.len() && additions@[i]@ == name;
                    assert(i == 0 || i == 1 || i == 2);
                }
                if spec_scenes_has(self.config.switcher.switching_scenes, name) {
                    assert(additions@[0]@ == self.config.switcher.switching_scenes.low@);
                    assert(additions@[1]@ == self.config.switcher.switching_scenes.normal@);
                    assert(additions@[2]@ == self.config.switcher.switching_scenes.offline@);
                }
            }
        }

        let n: usize = self.config.switcher.stream_servers.len();
        let mut i: usize = 0;
        while i < n
            invariant
                0 <= i <= n,
                n == servers_view.len(),
                servers_view == self.config.switcher.stream_servers@,
                forall|name: Seq<char>|
                    spec_contains_scene(additions@, name) <==> (spec_scenes_has(
                        self.config.switcher.switching_scenes,
                        name,
                    ) || spec_server_scene_before(servers_view, i as int, name)),
            decreases n - i,
        {
            let ghost additions_before = additions@;
            if let Some(override_scenes) = &self.config.switcher.stream_servers[i].override_scenes {
                additions.push(override_scenes.low.clone());
                additions.push(override_scenes.normal.clone());
                additions.push(override_scenes.offline.clone());
            }
            let ghost additions_mid = additions@;
            if let Some(depends_on) = &self.config.switcher.stream_servers[i].depends_on {
                let backup = &depends_on.backup_scenes;
                additions.push(backup.low.clone());
                additions.push(backup.normal.clone());
                additions.push(backup.offline.clone());
            }
            proof {
                let s = servers_view[i as int];
                assert forall|name: Seq<char>|
                    spec_contains_scene(additions@, name) <==> (spec_scenes_has(
                        self.config.switcher.switching_scenes,
                        name,
                    ) || spec_server_scene_before(servers_view, i as int + 1, name)) by {
                    lemma_contains_extend(additions_before, additions_mid, additions@, s, name);
                    lemma_server_scene_step(servers_view, i as int, name);
                    assert(spec_contains_scene(additions_before, name) <==> (spec_scenes_has(
                        self.config.switcher.switching_scenes,
                        name,
                    ) || spec_server_scene_before(servers_view, i as int, name)));
                }
            }
            i += 1;
        }

        let ghost old_scenes = self.switcher_state.switchable_scenes@;
        let ghost additions_view = additions@;
        self.switcher_state.switchable_scenes.append(&mut additions);
        proof {
            assert forall|name: Seq<char>|
                #![trigger spec_switchable(*self, name)]
                spec_switchable(*self, name) <==> (spec_switchable(orig, name)
                    || spec_config_scene(orig.config.switcher, name)) by {
                lemma_contains_concat(old_scenes, additions_view, name);
                assert(self.switcher_state.switchable_scenes@ == old_scenes + additions_view);
                assert(spec_contains_scene(additions_view, name) <==> (spec_scenes_has(
                    orig.config.switcher.switching_scenes,
                    name,
                ) || spec_server_scene_before(
                    servers_view,
                    servers_view.len() as int,
                    name,
                )));
            }
        }
    }
}

proof fn lemma_contains_concat(a: Seq<String>, b: Seq<String>, name: Seq<char>)
    ensures
        spec_contains_scene(a + b, name) <==> (spec_contains_scene(a, name) || spec_contains_scene(
            b,
            name,
        )),
{
    if spec_contains_scene(a, name) {
        let i = choose|i: int| 0 <= i < a.len() && a[i]@ == name;
        assert((a + b)[i]@ == name);
    }
    if spec_contains_scene(b, name) {
        let i = choose|i: int| 0 <= i < b.len() && b[i]@ == name;
        assert((a + b)[a.len() + i]@ == name);
    }
    if spec_contains_scene(a + b, name) {
        let i = choose|i: int| 0 <= i < (a + b).len() && (a + b)[i]@ == name;
        if i < a.len() {
            assert(a[i]@ == name);
        } else {
            assert(b[i - a.len()]@ == name);
        }
    }
}

proof fn lemma_contains_extend(
    before: Seq<String>,
    mid: Seq<String>,
    after_all: Seq<String>,
    s: crate::stream_servers::StreamServer,
    name: Seq<char>,
)
    requires
        match s.override_scenes {
            Some(o) => mid == before.push(o.low).push(o.normal).push(o.offline),
            None => mid == before,
        },
        match s.depends_on {
            Some(d) => after_all == mid.push(d.backup_scenes.low).push(d.backup_scenes.normal).push(
                d.backup_scenes.offline,
            ),
            None => after_all == mid,
        },
    ensures
        spec_contains_scene(after_all, name) <==> (spec_contains_scene(before, name) || (
        s.override_scenes matches Some(o) && spec_scenes_has(o, name)) || (s.depends_on matches Some(
            d,
        ) && spec_scenes_has(d.backup_scenes, name))),
{
    match s.override_scenes {
        Some(o) => {
            lemma_contains_push(before, o.low, name);
            lemma_contains_push(before.push(o.low), o.normal, name);
            lemma_contains_push(before.push(o.low).push(o.normal), o.offline, name);
        },
        None => {},
    }
    match s.depends_on {
        Some(d) => {
            lemma_contains_push(mid, d.backup_scenes.low, name);
            lemma_contains_push(mid.push(d.backup_scenes.low), d.backup_scenes.normal, name);
            lemma_contains_push(
                mid.push(d.backup_scenes.low).push(d.backup_scenes.normal),
                d.backup_scenes.offline,
                name,
            );
        },
        None => {},
    }
}

proof fn lemma_server_scene_step(
    servers: Seq<crate::stream_servers::StreamServer>,
    i: int,
    name: Seq<char>,
)
    requires
        0 <= i < servers.len(),
    ensures
        spec_server_scene_before(servers, i + 1, name) <==> (spec_server_scene_before(
            servers,
            i,
            name,
        ) || (servers[i].override_scenes matches Some(o) && spec_scenes_has(o, name)) || (
        servers[i].depends_on matches Some(d) && spec_scenes_has(d.backup_scenes, name))),
{
    if spec_server_scene_before(servers, i, name) {
        let j = choose|j: int|
            #![trigger servers[j]]
            0 <= j < i && ((servers[j].override_scenes matches Some(s) && spec_scenes_has(s, name))
                || (servers[j].depends_on matches Some(d) && spec_scenes_has(d.backup_scenes, name)));
        assert(0 <= j < i + 1 && ((servers[j].override_scenes matches Some(s) && spec_scenes_has(
            s,
            name,
        )) || (servers[j].depends_on matches Some(d) && spec_scenes_has(d.backup_scenes, name))));
    }
}

/// Whether the session's switchable-scene list holds `name`.
pub fn contains_scene(scenes: &Vec<String>, name: &String) -> (r: bool)
    ensures
        r == spec_contains_scene(scenes@, name@),
{
    let n: usize = scenes.len();
    let mut i: usize = 0;
    while i < n
        invariant
            0 <= i <= n,
            n == scenes@.len(),
            forall|j: int| 0 <= j < i ==> scenes@[j]@ != name@,
        decreases n - i,
    {
        if crate::text::str_eq(scenes[i].as_str(), name.as_str()) {
            return true;
        }
        i += 1;
    }
    false
}

impl State {
    /// The threshold stored for one trigger kind.
    pub fn get_trigger_by_type(&self, kind: TriggerType) -> (r: Option<u32>)
        ensures
            r == match kind {
                TriggerType::Low => self.config.switcher.triggers.low,
                TriggerType::Rtt => self.config.switcher.triggers.rtt,
                TriggerType::Offline => self.config.switcher.triggers.offline,
                TriggerType::RttOffline => self.config.switcher.triggers.rtt_offline,
            },
    {
        let triggers = &self.config.switcher.triggers;

        match kind {
            TriggerType::Low => triggers.low,
            TriggerType::Rtt => triggers.rtt,
            TriggerType::Offline => triggers.offline,
            TriggerType::RttOffline => triggers.rtt_offline,
        }
    }

    /// Stores a threshold for one trigger kind; zero clears it. Returns
    /// what was stored.
    pub fn update_trigger(&mut self, kind: TriggerType, value: u32) -> (r: Option<u32>)
        ensures
            r == (if value == 0 {
                None::<u32>
            } else {
                Some(value)
            }),
            final(self).config.switcher.triggers == (match kind {
                TriggerType::Low => Triggers { low: r, ..old(self).config.switcher.triggers },
                TriggerType::Rtt => Triggers { rtt: r, ..old(self).config.switcher.triggers },
                TriggerType::Offline => Triggers {
                    offline: r,
                    ..old(self).config.switcher.triggers
                },
                TriggerType::RttOffline => Triggers {
                    rtt_offline: r,
                    ..old(self).config.switcher.triggers
                },
            }),
            final(self).config.switcher == (crate::config::Switcher {
                triggers: final(self).config.switcher.triggers,
                ..old(self).config.switcher
            }),
            final(self).config == (crate::config::Config {
                switcher: final(self).config.switcher,
                ..old(self).config
            }),
            final(self).switcher_state == old(self).switcher_state,
            final(self).broadcasting_software == old(self).broadcasting_software,
    {
        let real_value: Option<u32> = if value == 0 {
            None
        } else {
            Some(value)
        };

        match kind {
            TriggerType::Low => self.config.switcher.triggers.low = real_value,
            TriggerType::Rtt => self.config.switcher.triggers.rtt = real_value,
            TriggerType::Offline => self.config.switcher.triggers.offline = real_value,
            TriggerType::RttOffline => self.config.switcher.triggers.rtt_offline = real_value,
        }

        real_value
    }

    /// Whether automatic switches are announced in chat.
    pub fn get_notify(&self) -> (r: bool)
        ensures
            r == self.config.switcher.auto_switch_notification,
    {
        self.config.switcher.auto_switch_notification
    }

    /// Turns chat announcements of automatic switches on or off.
    pub fn set_notify(&mut self, enabled: bool)
        ensures
            final(self).config.switcher == (crate::config::Switcher {
                auto_switch_notification: enabled,
                ..old(self).config.switcher
            }),
            final(self).config == (crate::config::Config {
                switcher: final(self).config.switcher,
                ..old(self).config
            }),
            final(self).switcher_state == old(self).switcher_state,
            final(self).broadcasting_software == old(self).broadcasting_software,
    {
        self.config.switcher.auto_switch_notification = enabled;
    }

    /// The configured number of retry attempts.
    pub fn get_retry_attempts(&self) -> (r: u8)
        ensures
            r == self.config.switcher.retry_attempts,
    {
        self.config.switcher.retry_attempts
    }

    /// Stores the number of retry attempts.
    pub fn set_retry_attempts(&mut self, value: u8)
        ensures
            final(self).config.switcher == (crate::config::Switcher {
                retry_attempts: value,
                ..old(self).config.switcher
            }),
            final(self).config == (crate::config::Config {
                switcher: final(self).config.switcher,
                ..old(self).config
            }),
            final(self).switcher_state == old(self).switcher_state,
            final(self).broadcasting_software == old(self).broadcasting_software,
    {
        self.config.switcher.retry_attempts = value;
    }

    /// Flips instant recovery and reports the new setting.
    pub fn set_instantly_switch_on_recover(&mut self) -> (r: bool)
        ensures
            r == !old(self).config.switcher.instantly_switch_on_recover,
            final(self).config.switcher == (crate::config::Switcher {
                instantly_switch_on_recover: r,
                ..old(self).config.switcher
            }),
            final(self).config == (crate::config::Config {
                switcher: final(self).config.switcher,
                ..old(self).config
            }),
            final(self).switcher_state == old(self).switcher_state,
            final(self).broadcasting_software == old(self).broadcasting_software,
    {
        let toggle = !self.config.switcher.instantly_switch_on_recover;
        self.config.switcher.instantly_switch_on_recover = toggle;
        toggle
    }

    /// Turns the switcher on or off; the caller fires the enabled wake
    /// signal exactly when `r` says so.
    pub fn set_bitrate_switcher_state(&mut self, enabled: bool) -> (r: bool)
        ensures
            r == enabled,
            final(self).config.switcher == (crate::config::Switcher {
                bitrate_switcher_enabled: enabled,
                ..old(self).config.switcher
            }),
            final(self).config == (crate::config::Config {
                switcher: final(self).config.switcher,
                ..old(self).config
            }),
            final(self).switcher_state == old(self).switcher_state,
            final(self).broadcasting_software == old(self).broadcasting_software,
    {
        self.config.switcher.set_bitrate_switcher_enabled(enabled);
        enabled
    }

    /// Stores the user's password hash.
    pub fn set_password(&mut self, password: String)
        ensures
            final(self).config.user == (crate::config::User {
                password_hash: Some(password),
                ..old(self).config.user
            }),
            final(self).config == (crate::config::Config {
                user: final(self).config.user,
                ..old(self).config
            }),
            final(self).switcher_state == old(self).switcher_state,
            final(self).broadcasting_software == old(self).broadcasting_software,
    {
        self.config.user.password_hash = Some(password);
    }

    /// Whether the stream is stopped automatically on a host or raid; an
    /// error without a configured chat.
    pub fn get_autostop(&self) -> (r: Result<bool, Error>)
        ensures
            match self.config.chat {
                Some(chat) => r === Ok(chat.enable_auto_stop_stream_on_host_or_raid),
                None => r === Err(Error::NoChat),
            },
    {
        match &self.config.chat {
            Some(chat) => Ok(chat.enable_auto_stop_stream_on_host_or_raid),
            None => Err(Error::NoChat),
        }
    }

    /// The configured chat language; an error without a configured chat.
    pub fn chat_language(&self) -> (r: Result<ChatLanguage, Error>)
        ensures
            match self.config.chat {
                Some(chat) => r === Ok(chat.language),
                None => r === Err(Error::NoChat),
            },
    {
        match &self.config.chat {
            Some(chat) => Ok(chat.language),
            None => Err(Error::NoChat),
        }
    }

    /// Whether some configured alias list holds `alias`; an error without
    /// a configured chat.
    pub fn contains_alias(&self, alias: &str) -> (r: Result<bool, Error>)
        ensures
            match self.config.chat {
                None => r === Err(Error::NoChat),
                Some(chat) => match chat.commands {
                    None => r === Ok(false),
                    Some(t) => r === Ok(
                        crate::chat::chat_handler::spec_alias_hit(t@, alias@) is Some,
                    ),
                },
            },
    {
        match &self.config.chat {
            None => Err(Error::NoChat),
            Some(chat) => match &chat.commands {
                None => Ok(false),
                Some(table) => Ok(
                    crate::chat::chat_handler::get_command_from_alias_string(
                        table,
                        alias,
                    ).is_some(),
                ),
            },
        }
    }
}

impl State {
    /// Adds `alias` for `command` in the session's command table, creating
    /// the table and the entry as needed; an error without a configured
    /// chat.
    pub fn add_alias(&mut self, alias: String, command: crate::chat::Command) -> (r: Result<
        (),
        Error,
    >)
        ensures
            final(self).switcher_state == old(self).switcher_state,
            final(self).broadcasting_software == old(self).broadcasting_software,
            match old(self).config.chat {
                None => r === Err(Error::NoChat) && *final(self) == *old(self),
                Some(chat) => {
                    &&& r === Ok(())
                    &&& final(self).config == (Config {
                        chat: final(self).config.chat,
                        ..old(self).config
                    })
                    &&& final(self).config.chat matches Some(c2)
                    &&& (final(self).config.chat matches Some(c2) ==> c2 == (
                    crate::config::Chat { commands: c2.commands, ..chat }) && (
                    c2.commands matches Some(t2) && spec_alias_added(
                        match chat.commands {
                            Some(t) => t@,
                            None => Seq::empty(),
                        },
                        t2@,
                        command,
                        alias,
                    )))
                },
            },
    {
        match &mut self.config.chat {
            None => Err(Error::NoChat),
            Some(chat) => {
                match &mut chat.commands {
                    Some(table) => {
                        crate::config::update_command_entry(table, command, None, Some(alias));
                    },
                    None => {
                        let mut table: Vec<(crate::chat::Command, crate::config::CommandInfo)> =
                            Vec::new();
                        proof {
                            assert(table@ =~= Seq::<
                                (crate::chat::Command, crate::config::CommandInfo),
                            >::empty());
                        }
                        crate::config::update_command_entry(&mut table, command, None, Some(alias));
                        chat.commands = Some(table);
                    },
                }
                Ok(())
            },
        }
    }

    /// Takes `alias` out of the first command entry holding it; reports
    /// whether one was removed; an error without a configured chat.
    pub fn remove_alias(&mut self, alias: &str) -> (r: Result<bool, Error>)
        ensures
            final(self).switcher_state == old(self).switcher_state,
            final(self).broadcasting_software == old(self).broadcasting_software,
            match old(self).config.chat {
                None => r === Err(Error::NoChat) && *final(self) == *old(self),
                Some(chat) => match chat.commands {
                    None => r === Ok(false) && *final(self) == *old(self),
                    Some(t) => {
                        &&& final(self).config == (Config {
                            chat: final(self).config.chat,
                            ..old(self).config
                        })
                        &&& final(self).config.chat matches Some(c2)
                        &&& (final(self).config.chat matches Some(c2) ==> c2 == (
                        crate::config::Chat { commands: c2.commands, ..chat }) && (
                        c2.commands matches Some(t2) && (match
                            crate::chat::chat_handler::spec_alias_hit(t@, alias@) {
                            None => r === Ok(false) && t2@ == t@,
                            Some(i) => r === Ok(true)
                                && crate::config::spec_alias_removed_at(t@, t2@, i, alias@),
                        })))
                    },
                },
            },
    {
        match &mut self.config.chat {
            None => Err(Error::NoChat),
            Some(chat) => match &mut chat.commands {
                None => Ok(false),
                Some(table) => Ok(crate::config::table_remove_alias(table, alias)),
            },
        }
    }
}

/// The command table after adding one alias: the entry of `command` (a
/// fresh one when none existed) carries the alias appended to its list,
/// and everything else is untouched.
pub open spec fn spec_alias_added(
    before: Seq<(crate::chat::Command, crate::config::CommandInfo)>,
    after: Seq<(crate::chat::Command, crate::config::CommandInfo)>,
    command: crate::chat::Command,
    alias: String,
) -> bool {
    match crate::chat::chat_handler::spec_cmd_index(before, command) {
        Some(i) => crate::config::spec_table_updated_at(before, after, i, None, Some(alias)),
        None => crate::config::spec_table_appended(before, after, command, None, Some(alias)),
    }
}

impl State {
    /// A fresh session over a loaded configuration: no broadcasting
    /// software seen yet, the switchable-scene set computed from the
    /// configuration, and the stored previous scene primed with the
    /// default normal scene.
    pub fn new(config: Config) -> (r: State)
        ensures
            r.config == config,
            r.switcher_state.last_used_server is None,
            r.broadcasting_software.prev_scene@ == config.switcher.switching_scenes.normal@,
            r.broadcasting_software.current_scene@.len() == 0,
            r.broadcasting_software.status == ClientStatus::Disconnected,
            !r.broadcasting_software.is_streaming,
            r.broadcasting_software.initial_stream_status is None,
            r.broadcasting_software.stream_status is None,
            forall|name: Seq<char>|
                #![trigger spec_switchable(r, name)]
                spec_switchable(r, name) <==> spec_config_scene(config.switcher, name),
    {
        let prev_scene = config.switcher.switching_scenes.normal.clone();
        let mut state = State {
            config,
            switcher_state: SwitcherState::default(),
            broadcasting_software: BroadcastingSoftwareState::default(),
        };
        state.broadcasting_software.prev_scene = prev_scene;
        state.set_all_switchable_scenes();
        state
    }

    /// Stops the stream automatically on a host or raid, or not; an error
    /// without a configured chat.
    pub fn set_autostop(&mut self, enabled: bool) -> (r: Result<(), Error>)
        ensures
            final(self).switcher_state == old(self).switcher_state,
            final(self).broadcasting_software == old(self).broadcasting_software,
            match old(self).config.chat {
                None => r === Err(Error::NoChat) && *final(self) == *old(self),
                Some(chat) => r === Ok(()) && final(self).config == (Config {
                    chat: Some(
                        crate::config::Chat {
                            enable_auto_stop_stream_on_host_or_raid: enabled,
                            ..chat
                        },
                    ),
                    ..old(self).config
                }),
            },
    {
        match &mut self.config.chat {
            None => Err(Error::NoChat),
            Some(chat) => {
                chat.enable_auto_stop_stream_on_host_or_raid = enabled;
                Ok(())
            },
        }
    }

    /// Whether moderators may run mod commands; an error without a
    /// configured chat.
    pub fn get_enable_mod(&self) -> (r: Result<bool, Error>)
        ensures
            match self.config.chat {
                Some(chat) => r === Ok(chat.enable_mod_commands),
                None => r === Err(Error::NoChat),
            },
    {
        match &self.config.chat {
            Some(chat) => Ok(chat.enable_mod_commands),
            None => Err(Error::NoChat),
        }
    }

    /// Lets moderators run mod commands, or not; an error without a
    /// configured chat.
    pub fn set_enable_mod(&mut self, enabled: bool) -> (r: Result<(), Error>)
        ensures
            final(self).switcher_state == old(self).switcher_state,
            final(self).broadcasting_software == old(self).broadcasting_software,
            match old(self).config.chat {
                None => r === Err(Error::NoChat) && *final(self) == *old(self),
                Some(chat) => r === Ok(()) && final(self).config == (Config {
                    chat: Some(crate::config::Chat { enable_mod_commands: enabled, ..chat }),
                    ..old(self).config
                }),
            },
    {
        match &mut self.config.chat {
            None => Err(Error::NoChat),
            Some(chat) => {
                chat.enable_mod_commands = enabled;
                Ok(())
            },
        }
    }

    /// Whether everyone may run public commands; an error without a
    /// configured chat.
    pub fn get_enable_public(&self) -> (r: Result<bool, Error>)
        ensures
            match self.config.chat {
                Some(chat) => r === Ok(chat.enable_public_commands),
                None => r === Err(Error::NoChat),
            },
    {
        match &self.config.chat {
            Some(chat) => Ok(chat.enable_public_commands),
            None => Err(Error::NoChat),
        }
    }

    /// Lets everyone run public commands, or not; an error without a
    /// configured chat.
    pub fn set_enable_public(&mut self, enabled: bool) -> (r: Result<(), Error>)
        ensures
            final(self).switcher_state == old(self).switcher_state,
            final(self).broadcasting_software == old(self).broadcasting_software,
            match old(self).config.chat {
                None => r === Err(Error::NoChat) && *final(self) == *old(self),
                Some(chat) => r === Ok(()) && final(self).config == (Config {
                    chat: Some(crate::config::Chat { enable_public_commands: enabled, ..chat }),
                    ..old(self).config
                }),
            },
    {
        match &mut self.config.chat {
            None => Err(Error::NoChat),
            Some(chat) => {
                chat.enable_public_commands = enabled;
                Ok(())
            },
        }
    }

    /// Stores the chat command prefix; an error without a configured chat.
    pub fn set_prefix(&mut self, prefix: String) -> (r: Result<(), Error>)
        ensures
            final(self).switcher_state == old(self).switcher_state,
            final(self).broadcasting_software == old(self).broadcasting_software,
            match old(self).config.chat {
                None => r === Err(Error::NoChat) && *final(self) == *old(self),
                Some(chat) => r === Ok(()) && final(self).config == (Config {
                    chat: Some(crate::config::Chat { prefix: prefix, ..chat }),
                    ..old(self).config
                }),
            },
    {
        match &mut self.config.chat {
            None => Err(Error::NoChat),
            Some(chat) => {
                chat.prefix = prefix;
                Ok(())
            },
        }
    }

    /// Stores the chat language; an error without a configured chat.
    pub fn set_chat_language(&mut self, language: ChatLanguage) -> (r: Result<(), Error>)
        ensures
            final(self).switcher_state == old(self).switcher_state,
            final(self).broadcasting_software == old(self).broadcasting_software,
            match old(self).config.chat {
                None => r === Err(Error::NoChat) && *final(self) == *old(self),
                Some(chat) => r === Ok(()) && final(self).config == (Config {
                    chat: Some(crate::config::Chat { language: language, ..chat }),
                    ..old(self).config
                }),
            },
    {
        match &mut self.config.chat {
            None => Err(Error::NoChat),
            Some(chat) => {
                chat.language = language;
                Ok(())
            },
        }
    }
}

} // verus!
