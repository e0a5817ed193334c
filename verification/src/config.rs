//! The per-session configuration the decision core runs against.

use vstd::prelude::*;
use vstd::multiset::Multiset;

use crate::chat::{ChatLanguage, ChatPlatform, Command, Permission};
use crate::stream_servers::StreamServer;
use crate::switcher::{SwitchingScenes, Triggers};

verus! {

/// Everything configured for one session.
#[derive(Debug, Clone)]
pub struct Config {
    pub user: User,
    pub switcher: Switcher,
    pub software: SoftwareConnection,
    pub chat: Option<Chat>,
    pub optional_scenes: OptionalScenes,
    pub optional_options: OptionalOptions,
}

/// The account the session belongs to.
#[derive(Debug, Clone)]
pub struct User {
    pub id: Option<i64>,
    pub name: String,
    pub password_hash: Option<String>,
}

/// The switcher's own settings: what may be changed from outside while the
/// loop runs.
#[derive(Debug, Clone)]
pub struct Switcher {
    /// Disable the switcher entirely.
    pub bitrate_switcher_enabled: bool,

    /// Only act while the broadcasting software is streaming.
    pub only_switch_when_streaming: bool,

    /// When the stream comes back from offline, switch on the same tick
    /// instead of waiting out the debounce counter.
    pub instantly_switch_on_recover: bool,

    /// Announce automatic switches in chat.
    pub auto_switch_notification: bool,

    /// How many consecutive identical classifications are needed before the
    /// switcher acts.
    pub retry_attempts: u8,

    /// Thresholds for the low and offline classifications.
    pub triggers: Triggers,

    /// The default scene table.
    pub switching_scenes: SwitchingScenes,

    /// The stream servers to watch, in priority order.
    pub stream_servers: Vec<StreamServer>,
}

impl Default for Switcher {
    /// The stock switcher settings: enabled, streaming-only, instant
    /// recovery and notifications on, five retry attempts, the stock
    /// triggers, and the scene names "live", "low" and "offline".
    fn default() -> (r: Self)
        ensures
            r.bitrate_switcher_enabled,
            r.only_switch_when_streaming,
            r.instantly_switch_on_recover,
            r.auto_switch_notification,
            r.retry_attempts == 5u8,
            r.triggers.low == Some(800u32),
            r.triggers.rtt == Some(2500u32),
            r.triggers.offline.is_none(),
            r.triggers.rtt_offline.is_none(),
            r.switching_scenes.normal@ == "live"@,
            r.switching_scenes.low@ == "low"@,
            r.switching_scenes.offline@ == "offline"@,
            r.stream_servers@.len() == 0,
    {
        Self {
            bitrate_switcher_enabled: true,
            only_switch_when_streaming: true,
            instantly_switch_on_recover: true,
            auto_switch_notification: true,
            triggers: Triggers::default(),
            stream_servers: Vec::new(),
            switching_scenes: SwitchingScenes::new("live", "low", "offline"),
            retry_attempts: 5,
        }
    }
}

/// How to reach the broadcasting software.
#[derive(Debug, Clone)]
pub enum SoftwareConnection {
    Obs(ObsConfig),
}

/// Connection parameters of the broadcasting software's control socket.
#[derive(Debug, Clone)]
pub struct ObsConfig {
    pub host: String,
    pub password: Option<String>,
    pub port: u16,
}

/// Chat settings of the session.
#[derive(Debug, Clone)]
pub struct Chat {
    pub platform: ChatPlatform,
    pub username: String,
    pub admins: Vec<String>,
    pub language: ChatLanguage,

    pub prefix: String,

    pub enable_public_commands: bool,
    pub enable_mod_commands: bool,
    pub enable_auto_stop_stream_on_host_or_raid: bool,
    /// Per-command overrides: permissions and aliases, keyed by command.
    pub commands: Option<Vec<(Command, CommandInfo)>>,
}

/// Permission and aliases configured for one command.
#[derive(Debug, Clone)]
pub struct CommandInfo {
    pub permission: Option<Permission>,
    pub alias: Option<Vec<String>>,
}

impl Default for CommandInfo {
    fn default() -> (r: Self)
        ensures
            r.permission.is_none(),
            r.alias.is_none(),
    {
        Self { permission: None, alias: None }
    }
}

/// Scene names with a special role, when the session uses them.
#[derive(Debug, Clone)]
pub struct OptionalScenes {
    pub starting: Option<String>,
    pub ending: Option<String>,
    pub privacy: Option<String>,
    pub refresh: Option<String>,
}

impl Default for OptionalScenes {
    fn default() -> (r: Self)
        ensures
            r.starting.is_none(),
            r.ending.is_none(),
            r.privacy.is_none(),
            r.refresh.is_none(),
    {
        Self { starting: None, ending: None, privacy: None, refresh: None }
    }
}

/// Remaining optional behaviour toggles.
#[derive(Debug, Clone)]
pub struct OptionalOptions {
    pub twitch_transcoding_check: bool,
    pub twitch_transcoding_retries: u64,
    pub twitch_transcoding_delay_seconds: u64,

    /// Stop the stream after this many minutes spent on the offline scene.
    pub offline_timeout: Option<u32>,

    /// When stopping on an offline timeout, also stop a running recording.
    pub record_while_streaming: bool,

    /// While on the starting scene, let a recovery switch through to the
    /// live scene even though the starting scene itself is not switchable,
    /// and never switch away from it to the offline scene.
    pub switch_from_starting_scene_to_live_scene: bool,
}

impl Default for OptionalOptions {
    fn default() -> (r: Self)
        ensures
            !r.twitch_transcoding_check,
            r.twitch_transcoding_retries == 5u64,
            r.twitch_transcoding_delay_seconds == 15u64,
            r.offline_timeout.is_none(),
            !r.record_while_streaming,
            !r.switch_from_starting_scene_to_live_scene,
    {
        Self {
            twitch_transcoding_check: false,
            twitch_transcoding_retries: 5,
            twitch_transcoding_delay_seconds: 15,
            offline_timeout: None,
            record_while_streaming: false,
            switch_from_starting_scene_to_live_scene: false,
        }
    }
}

/// Priority order on server entries: an absent priority sorts before every
/// present one, present ones sort by value.
pub open spec fn spec_prio_le(a: Option<i32>, b: Option<i32>) -> bool {
    match (a, b) {
        (None, _) => true,
        (Some(_), None) => false,
        (Some(x), Some(y)) => x <= y,
    }
}

/// The server list is sorted by priority, smaller first.
pub open spec fn spec_servers_sorted(s: Seq<StreamServer>) -> bool {
    forall|i: int, j: int|
        0 <= i < j < s.len() ==> spec_prio_le(#[trigger] s[i].priority, #[trigger] s[j].priority)
}

/// Exactly `spec_prio_le`.
fn prio_le(a: &Option<i32>, b: &Option<i32>) -> (r: bool)
    ensures
        r == spec_prio_le(*a, *b),
{
    match (a, b) {
        (None, _) => true,
        (Some(_), None) => false,
        (Some(x), Some(y)) => *x <= *y,
    }
}

impl Switcher {
    /// Adds a stream server and re-sorts the list by priority.
    pub fn add_stream_server(&mut self, stream_server: StreamServer)
        ensures
            *final(self) == (Switcher { stream_servers: final(self).stream_servers, ..*old(self) }),
            spec_servers_sorted(final(self).stream_servers@),
            final(self).stream_servers@.to_multiset() == old(self).stream_servers@.push(
                stream_server,
            ).to_multiset(),
    {
        self.stream_servers.push(stream_server);

        self.sort_stream_servers();
    }

    /// Sorts the server list by priority, smaller first; the entries are
    /// kept, only their order changes.
    pub fn sort_stream_servers(&mut self)
        ensures
            *final(self) == (Switcher { stream_servers: final(self).stream_servers, ..*old(self) }),
            spec_servers_sorted(final(self).stream_servers@),
            final(self).stream_servers@.to_multiset() == old(self).stream_servers@.to_multiset(),
    {
        broadcast use vstd::seq_lib::group_to_multiset_ensures;
        broadcast use vstd::multiset::group_multiset_axioms;

        let ghost orig = self.stream_servers@;
        let mut sorted: Vec<StreamServer> = Vec::new();
        while self.stream_servers.len() > 0
            invariant
                *self == (Switcher { stream_servers: self.stream_servers, ..*old(self) }),
                spec_servers_sorted(sorted@),
                sorted@.to_multiset().add(self.stream_servers@.to_multiset()) =~= orig.to_multiset(),
                orig == old(self).stream_servers@,
                forall|i: int, j: int|
                    0 <= i < sorted@.len() && 0 <= j < self.stream_servers@.len() ==> spec_prio_le(
                        #[trigger] sorted@[i].priority,
                        #[trigger] self.stream_servers@[j].priority,
                    ),
            decreases self.stream_servers@.len(),
        {
            let n: usize = self.stream_servers.len();
            let mut k: usize = 0;
            let mut i: usize = 1;
            while i < n
                invariant
                    0 <= k < i <= n,
                    n == self.stream_servers@.len(),
                    forall|j: int|
                        0 <= j < i ==> spec_prio_le(
                            self.stream_servers@[k as int].priority,
                            #[trigger] self.stream_servers@[j].priority,
                        ),
                decreases n - i,
            {
                if !prio_le(&self.stream_servers[k].priority, &self.stream_servers[i].priority) {
                    proof {
                        lemma_prio_le_total(
                            self.stream_servers@[k as int].priority,
                            self.stream_servers@[i as int].priority,
                        );
                        assert forall|j: int|
                            0 <= j < i + 1 implies spec_prio_le(
                            self.stream_servers@[i as int].priority,
                            #[trigger] self.stream_servers@[j].priority,
                        ) by {
                            if j < i {
                                lemma_prio_le_trans(
                                    self.stream_servers@[i as int].priority,
                                    self.stream_servers@[k as int].priority,
                                    self.stream_servers@[j].priority,
                                );
                            } else {
                                lemma_prio_le_total(
                                    self.stream_servers@[i as int].priority,
                                    self.stream_servers@[i as int].priority,
                                );
                            }
                        }
                    }
                    k = i;
                }
                i += 1;
            }
            let ghost before = self.stream_servers@;
            let ghost sorted_before = sorted@;
            let elem = self.stream_servers.remove(k);
            sorted.push(elem);
            proof {
                broadcast use vstd::seq_lib::group_to_multiset_ensures;
                broadcast use vstd::multiset::group_multiset_axioms;

                let e = before[k as int];
                assert(sorted@ == sorted_before.push(e));
                assert(self.stream_servers@ == before.remove(k as int));
                assert forall|i2: int, j2: int|
                    0 <= i2 < j2 < sorted@.len() implies spec_prio_le(
                    #[trigger] sorted@[i2].priority,
                    #[trigger] sorted@[j2].priority,
                ) by {
                    if j2 < sorted@.len() - 1 {
                        assert(sorted@[i2] == sorted_before[i2]);
                        assert(sorted@[j2] == sorted_before[j2]);
                    } else {
                        assert(sorted@[j2] == e);
                        assert(sorted@[i2] == sorted_before[i2]);
                        assert(spec_prio_le(sorted_before[i2].priority, before[k as int].priority));
                    }
                }
                assert forall|i2: int, j2: int|
                    0 <= i2 < sorted@.len() && 0 <= j2 < self.stream_servers@.len()
                    implies spec_prio_le(
                    #[trigger] sorted@[i2].priority,
                    #[trigger] self.stream_servers@[j2].priority,
                ) by {
                    if j2 < k {
                        assert(self.stream_servers@[j2] == before[j2]);
                    } else {
                        assert(self.stream_servers@[j2] == before[j2 + 1]);
                    }
                    if i2 < sorted@.len() - 1 {
                        assert(sorted@[i2] == sorted_before[i2]);
                    } else {
                        assert(sorted@[i2] == e);
                    }
                }
                assert(before.contains(e));
                assert(sorted@.to_multiset() == sorted_before.push(e).to_multiset());
                assert(sorted@.to_multiset() =~= sorted_before.to_multiset().insert(e));
                assert(self.stream_servers@.to_multiset() == before.remove(
                    k as int,
                ).to_multiset());
                assert(self.stream_servers@.to_multiset() =~= before.to_multiset().remove(e));
                assert forall|x: StreamServer|
                    sorted@.to_multiset().add(self.stream_servers@.to_multiset()).count(x)
                        == orig.to_multiset().count(x) by {
                    assert(sorted_before.to_multiset().add(before.to_multiset()).count(x)
                        == orig.to_multiset().count(x));
                    assert(before.to_multiset().count(e) > 0);
                }
                assert(sorted@.to_multiset().add(self.stream_servers@.to_multiset())
                    =~= orig.to_multiset());
            }
        }
        proof {
            assert(self.stream_servers@.to_multiset() =~= Multiset::<StreamServer>::empty());
            assert(sorted@.to_multiset().add(Multiset::<StreamServer>::empty()) =~= sorted@
                .to_multiset());
        }
        self.stream_servers = sorted;
    }

    /// Turns the switcher on or off; everything else stays as it was.
    pub fn set_bitrate_switcher_enabled(&mut self, enabled: bool)
        ensures
            *final(self) == (Switcher { bitrate_switcher_enabled: enabled, ..*old(self) }),
    {
        self.bitrate_switcher_enabled = enabled;
    }
}

/// Priorities are totally ordered: of any two, one sorts at or before the
/// other.
proof fn lemma_prio_le_total(a: Option<i32>, b: Option<i32>)
    ensures
        spec_prio_le(a, b) || spec_prio_le(b, a),
{
}

/// Priority order is transitive.
proof fn lemma_prio_le_trans(a: Option<i32>, b: Option<i32>, c: Option<i32>)
    requires
        spec_prio_le(a, b),
        spec_prio_le(b, c),
    ensures
        spec_prio_le(a, c),
{
}

/// Updates one command's settings in the command table: an unknown command
/// word is dropped; otherwise the first entry of the command is updated
/// (or a fresh entry appended): its permission is overwritten when one is
/// given, and a given alias is appended to its alias list.
pub fn update_command(
    config: &mut Vec<(Command, CommandInfo)>,
    command: String,
    permission: Option<Permission>,
    alias: Option<String>,
)
    ensures
        match crate::chat::spec_command_word(crate::text::lower_of(command@)) {
            None => final(config)@ == old(config)@,
            Some(c) => match crate::chat::chat_handler::spec_cmd_index(old(config)@, c) {
                Some(i) => spec_table_updated_at(
                    old(config)@,
                    final(config)@,
                    i,
                    permission,
                    alias,
                ),
                None => spec_table_appended(old(config)@, final(config)@, c, permission, alias),
            },
        },
{
    let ghost word = command@;
    let command = Command::from_word(command.as_str());

    if let Command::Unknown(_) = command {
        return;
    }
    proof {
        assert(crate::chat::spec_command_word(crate::text::lower_of(word)) matches Some(cc)
            && command == cc);
    }

    update_command_entry(config, command, permission, alias);
}

/// Updates the table entry of `command` (creating one when missing): its
/// permission is overwritten when one is given, and a given alias is
/// appended to its alias list.
pub fn update_command_entry(
    config: &mut Vec<(Command, CommandInfo)>,
    command: Command,
    permission: Option<Permission>,
    alias: Option<String>,
)
    ensures
        match crate::chat::chat_handler::spec_cmd_index(old(config)@, command) {
            Some(i) => spec_table_updated_at(old(config)@, final(config)@, i, permission, alias),
            None => spec_table_appended(old(config)@, final(config)@, command, permission, alias),
        },
{
    let ghost perm0 = permission;
    let ghost alias0 = alias;
    let ghost config0 = config@;
    let table_len: usize = config.len();
    proof {
        crate::chat::chat_handler::lemma_cmd_index_bounds(config@, command);
        assert(config@.len() == table_len);
    }
    match position_of_command(config, &command) {
        Some(i) => {
            let ghost before = config@;
            let mut entry = config.remove(i);
            apply_command_update(&mut entry.1, permission, alias);
            let ghost entry_v = entry;
            config.insert(i, entry);
            proof {
                assert(config@ == before.remove(i as int).insert(i as int, entry_v));
                assert(config@.len() == before.len());
                assert(config@[i as int] == entry_v);
                assert forall|j: int|
                    0 <= j < before.len() && j != i implies config@[j] == before[j] by {
                    if j < i {
                        assert(before.remove(i as int)[j] == before[j]);
                        assert(config@[j] == before.remove(i as int)[j]);
                    } else {
                        assert(before.remove(i as int)[j - 1] == before[j]);
                        assert(config@[j] == before.remove(i as int)[j - 1]);
                    }
                }
                assert(spec_table_updated_at(config0, config@, i as int, perm0, alias0));
                assert(crate::chat::chat_handler::spec_cmd_index(config0, command) == Some(
                    i as int,
                ));
            }
        },
        None => {
            let mut info = CommandInfo::default();
            apply_command_update(&mut info, permission, alias);
            let ghost cmd_v = command;
            config.push((command, info));
            proof {
                assert(config@.last() == (cmd_v, info));
                assert(spec_table_appended(config0, config@, cmd_v, perm0, alias0));
            }
        },
    }
}

/// The table after updating the entry at `i`: everything else untouched,
/// the entry's command kept, and its settings updated.
pub open spec fn spec_table_updated_at(
    before: Seq<(Command, CommandInfo)>,
    after: Seq<(Command, CommandInfo)>,
    i: int,
    permission: Option<Permission>,
    alias: Option<String>,
) -> bool {
    &&& after.len() == before.len()
    &&& (forall|j: int| 0 <= j < before.len() && j != i ==> after[j] == before[j])
    &&& spec_entry_updated(before[i], after[i], permission, alias)
}

/// The table after appending a fresh entry for `c`: everything else
/// untouched and the new entry's settings applied to an empty entry.
pub open spec fn spec_table_appended(
    before: Seq<(Command, CommandInfo)>,
    after: Seq<(Command, CommandInfo)>,
    c: Command,
    permission: Option<Permission>,
    alias: Option<String>,
) -> bool {
    &&& after.len() == before.len() + 1
    &&& (forall|j: int| 0 <= j < before.len() ==> after[j] == before[j])
    &&& crate::chat::cmd_eq(after.last().0, c)
    &&& spec_entry_updated(
        (after.last().0, CommandInfo { permission: None, alias: None }),
        after.last(),
        permission,
        alias,
    )
}

/// Applies one update to a command's settings: overwrite the permission
/// when one is given, append the alias when one is given.
fn apply_command_update(
    info: &mut CommandInfo,
    permission: Option<Permission>,
    alias: Option<String>,
)
    ensures
        final(info).permission == (if permission is Some {
            permission
        } else {
            old(info).permission
        }),
        match alias {
            None => final(info).alias == old(info).alias,
            Some(a) => final(info).alias matches Some(v) && v@ == (match old(info).alias {
                Some(ov) => ov@,
                None => Seq::<String>::empty(),
            }).push(a),
        },
{
    if permission.is_some() {
        info.permission = permission;
    }

    if let Some(alias) = alias {
        match &mut info.alias {
            Some(aliases) => aliases.push(alias),
            None => {
                let mut aliases: Vec<String> = Vec::new();
                aliases.push(alias);
                info.alias = Some(aliases);
            },
        }
    }
}

/// The updated entry keeps its command, takes the given permission when
/// one is given, and carries the given alias appended to its alias list.
pub open spec fn spec_entry_updated(
    before: (Command, CommandInfo),
    after: (Command, CommandInfo),
    permission: Option<Permission>,
    alias: Option<String>,
) -> bool {
    &&& after.0 == before.0
    &&& after.1.permission == (if permission is Some {
        permission
    } else {
        before.1.permission
    })
    &&& (match alias {
        None => after.1.alias == before.1.alias,
        Some(a) => after.1.alias matches Some(v) && v@ == (match before.1.alias {
            Some(ov) => ov@,
            None => Seq::<String>::empty(),
        }).push(a),
    })
}

/// The first position of `command` in the table, if any.
fn position_of_command(config: &Vec<(Command, CommandInfo)>, command: &Command) -> (r: Option<
    usize,
>)
    ensures
        r == (match crate::chat::chat_handler::spec_cmd_index(config@, *command) {
            Some(i) => Some(i as usize),
            None => None::<usize>,
        }),
        r matches Some(i) ==> i < config@.len(),
{
    proof {
        assert(config@.skip(0) =~= config@);
    }
    let n: usize = config.len();
    let mut i: usize = 0;
    while i < n
        invariant
            0 <= i <= n,
            n == config@.len(),
            crate::chat::chat_handler::spec_cmd_index(config@, *command)
                == crate::chat::chat_handler::spec_cmd_index_from(config@, *command, i as int),
        decreases n - i,
    {
        proof {
            assert(config@.skip(i as int)[0] == config@[i as int]);
            assert(config@.skip(i as int).skip(1) =~= config@.skip(i as int + 1));
        }
        if config[i].0.eq(command) {
            return Some(i);
        }
        i += 1;
    }
    proof {
        assert(config@.skip(n as int).len() == 0);
    }
    None
}

/// Takes `alias` out of the first command entry whose alias list holds it,
/// by swapping the list's last entry into its place; reports whether an
/// alias was removed.
pub fn table_remove_alias(config: &mut Vec<(Command, CommandInfo)>, alias: &str) -> (r: bool)
    ensures
        match crate::chat::chat_handler::spec_alias_hit(old(config)@, alias@) {
            None => !r && final(config)@ == old(config)@,
            Some(i) => r && spec_alias_removed_at(old(config)@, final(config)@, i, alias@),
        },
{
    proof {
        assert(config@.skip(0) =~= config@);
    }
    let n: usize = config.len();
    let mut i: usize = 0;
    while i < n
        invariant
            0 <= i <= n,
            n == config@.len(),
            config@ == old(config)@,
            crate::chat::chat_handler::spec_alias_hit(config@, alias@)
                == crate::chat::chat_handler::spec_alias_hit_from(config@, alias@, i as int),
        decreases n - i,
    {
        proof {
            assert(config@.skip(i as int)[0] == config@[i as int]);
            assert(config@.skip(i as int).skip(1) =~= config@.skip(i as int + 1));
        }
        let hit: Option<usize> = match &config[i].1.alias {
            Some(aliases) => crate::chat::chat_handler::first_alias_pos(aliases, alias),
            None => None,
        };
        if let Some(p) = hit {
            proof {
                assert(crate::chat::chat_handler::spec_has_alias(old(config)@[i as int].1, alias@));
                assert(crate::chat::chat_handler::spec_alias_hit(old(config)@, alias@) == Some(
                    i as int,
                ));
            }
            let ghost before = config@;
            let mut entry = config.remove(i);
            match &mut entry.1.alias {
                Some(aliases) => {
                    aliases.swap_remove(p);
                },
                None => {},
            }
            let ghost entry_v = entry;
            config.insert(i, entry);
            proof {
                assert(config@ == before.remove(i as int).insert(i as int, entry_v));
                assert forall|j: int|
                    0 <= j < before.len() && j != i implies config@[j] == before[j] by {
                    if j < i {
                        assert(before.remove(i as int)[j] == before[j]);
                    } else {
                        assert(before.remove(i as int)[j - 1] == before[j]);
                    }
                }
                assert(spec_alias_removed_at(old(config)@, config@, i as int, alias@));
            }
            return true;
        }
        i += 1;
    }
    proof {
        assert(config@.skip(n as int).len() == 0);
    }
    false
}

/// The table after removing `alias` from the entry at `i`: everything else
/// untouched, the entry's command and permission kept, and its alias list
/// shortened by swapping its last entry into the removed position.
pub open spec fn spec_alias_removed_at(
    before: Seq<(Command, CommandInfo)>,
    after: Seq<(Command, CommandInfo)>,
    i: int,
    alias: Seq<char>,
) -> bool {
    &&& after.len() == before.len()
    &&& (forall|j: int| 0 <= j < before.len() && j != i ==> after[j] == before[j])
    &&& after[i].0 == before[i].0
    &&& (before[i].1.alias matches Some(v) ==> (
    crate::chat::chat_handler::spec_first_alias_pos(v@, alias) matches Some(p)
        && after[i].1.alias matches Some(w) && w@ == v@.update(p, v@.last()).drop_last()))
    &&& after[i].1.permission == before[i].1.permission
}

} // verus!
