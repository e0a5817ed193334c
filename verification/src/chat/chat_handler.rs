//! Pure helpers of the chat command layer: permission resolution and
//! command-alias lookup over the configured command tables.

use vstd::prelude::*;

use crate::chat::{cmd_eq, Command, Permission};
use crate::config::CommandInfo;
use crate::error::Error;

verus! {

/// A per-channel cooldown marker for public commands.
#[derive(Debug)]
pub struct Timeout {
    pub channel: String,
    /// Seconds since an arbitrary fixed origin at which the channel last ran
    /// a public command.
    pub time: u64,
}

/// The first index of `commands` holding `c`, if any.
pub open spec fn spec_cmd_index(commands: Seq<(Command, CommandInfo)>, c: Command) -> Option<int>
    decreases commands.len(),
{
    if commands.len() == 0 {
        None
    } else if cmd_eq(commands[0].0, c) {
        Some(0int)
    } else {
        match spec_cmd_index(commands.skip(1), c) {
            None => None,
            Some(i) => Some(i + 1),
        }
    }
}

/// The permission stored for `c` in `commands`, if an entry exists and
/// carries one.
pub open spec fn spec_permission_of(commands: Seq<(Command, CommandInfo)>, c: Command) -> Option<
    Permission,
> {
    match spec_cmd_index(commands, c) {
        None => None,
        Some(i) => commands[i].1.permission,
    }
}

/// Looks `command` up in one command table and returns its configured
/// permission, if any.
pub fn try_get_permission(command: &Command, commands: &Vec<(Command, CommandInfo)>) -> (r: Option<
    Permission,
>)
    ensures
        r == spec_permission_of(commands@, *command),
{
    proof {
        assert(commands@.skip(0) =~= commands@);
    }
    let n: usize = commands.len();
    let mut i: usize = 0;
    while i < n
        invariant
            0 <= i <= n,
            n == commands@.len(),
            forall|j: int| 0 <= j < i ==> !cmd_eq(commands@[j].0, *command),
            spec_cmd_index(commands@, *command) == spec_cmd_index_from(commands@, *command, i as int),
        decreases n - i,
    {
        if commands[i].0.eq(command) {
            proof {
                lemma_cmd_index_from_here(commands@, *command, i as int);
            }
            return commands[i].1.permission;
        }
        proof {
            lemma_cmd_index_from_next(commands@, *command, i as int);
        }
        i += 1;
    }
    proof {
        lemma_cmd_index_from_end(commands@, *command);
    }
    None
}

/// A found command index is always a position of the table.
pub proof fn lemma_cmd_index_bounds(commands: Seq<(Command, CommandInfo)>, c: Command)
    ensures
        spec_cmd_index(commands, c) matches Some(i) ==> 0 <= i < commands.len(),
    decreases commands.len(),
{
    if commands.len() > 0 {
        lemma_cmd_index_bounds(commands.skip(1), c);
    }
}

/// `spec_cmd_index` restarted at position `i`.
pub open spec fn spec_cmd_index_from(
    commands: Seq<(Command, CommandInfo)>,
    c: Command,
    i: int,
) -> Option<int> {
    match spec_cmd_index(commands.skip(i), c) {
        None => None,
        Some(k) => Some(i + k),
    }
}

proof fn lemma_cmd_index_from_here(commands: Seq<(Command, CommandInfo)>, c: Command, i: int)
    requires
        0 <= i < commands.len(),
        cmd_eq(commands[i].0, c),
    ensures
        spec_cmd_index_from(commands, c, i) == Some(i),
{
    assert(commands.skip(i)[0] == commands[i]);
}

proof fn lemma_cmd_index_from_next(commands: Seq<(Command, CommandInfo)>, c: Command, i: int)
    requires
        0 <= i < commands.len(),
        !cmd_eq(commands[i].0, c),
    ensures
        spec_cmd_index_from(commands, c, i) == spec_cmd_index_from(commands, c, i + 1),
{
    assert(commands.skip(i)[0] == commands[i]);
    assert(commands.skip(i).skip(1) =~= commands.skip(i + 1));
}

proof fn lemma_cmd_index_from_end(commands: Seq<(Command, CommandInfo)>, c: Command)
    ensures
        spec_cmd_index_from(commands, c, commands.len() as int) == None::<int>,
{
    assert(commands.skip(commands.len() as int).len() == 0);
}

/// The permission a command runs under: the user's own table wins, the
/// default table is consulted next, and anything unconfigured is reserved
/// for admins.
pub fn get_permission(
    command: &Command,
    user_commands: &Option<Vec<(Command, CommandInfo)>>,
    default_commands: &Vec<(Command, CommandInfo)>,
) -> (r: Permission)
    ensures
        r == spec_get_permission(
            *command,
            match user_commands {
                Some(u) => Some(u@),
                None => None,
            },
            default_commands@,
        ),
{
    if let Some(user_commands) = user_commands {
        if let Some(p) = try_get_permission(command, user_commands) {
            return p;
        }
    }

    if let Some(p) = try_get_permission(command, default_commands) {
        return p;
    }

    Permission::Admin
}

/// What `get_permission` returns.
pub open spec fn spec_get_permission(
    c: Command,
    user_commands: Option<Seq<(Command, CommandInfo)>>,
    default_commands: Seq<(Command, CommandInfo)>,
) -> Permission {
    let user_hit = match user_commands {
        Some(u) => spec_permission_of(u, c),
        None => None,
    };
    match user_hit {
        Some(p) => p,
        None => match spec_permission_of(default_commands, c) {
            Some(p) => p,
            None => Permission::Admin,
        },
    }
}

/// Whether a command configured at `permission` may be run by a user holding
/// `user_permission`. Admin users are let through before this check.
pub fn permission_is_allowed(permission: &Permission, user_permission: &Permission) -> (r: bool)
    ensures
        r == (*permission == Permission::Public || (*permission == Permission::Mod
            && *user_permission == Permission::Mod)),
{
    *permission == Permission::Public || (*permission == Permission::Mod && *user_permission
        == Permission::Mod)
}

/// Whether some alias list of an entry of `commands` holds `alias`.
pub open spec fn spec_alias_hit(commands: Seq<(Command, CommandInfo)>, alias: Seq<char>) -> Option<
    int,
>
    decreases commands.len(),
{
    if commands.len() == 0 {
        None
    } else if spec_has_alias(commands[0].1, alias) {
        Some(0int)
    } else {
        match spec_alias_hit(commands.skip(1), alias) {
            None => None,
            Some(i) => Some(i + 1),
        }
    }
}

/// Whether `info`'s alias list holds `alias`.
pub open spec fn spec_has_alias(info: CommandInfo, alias: Seq<char>) -> bool {
    match info.alias {
        Some(aliases) => spec_first_alias_pos(aliases@, alias) is Some,
        None => false,
    }
}

/// The first position of `alias` in an alias list, if any.
pub open spec fn spec_first_alias_pos(aliases: Seq<String>, alias: Seq<char>) -> Option<int>
    decreases aliases.len(),
{
    if aliases.len() == 0 {
        None
    } else if aliases[0]@ == alias {
        Some(0int)
    } else {
        match spec_first_alias_pos(aliases.skip(1), alias) {
            None => None,
            Some(i) => Some(i + 1),
        }
    }
}

/// `spec_first_alias_pos` restarted at position `i`.
pub open spec fn spec_first_alias_pos_from(
    aliases: Seq<String>,
    alias: Seq<char>,
    i: int,
) -> Option<int> {
    match spec_first_alias_pos(aliases.skip(i), alias) {
        None => None,
        Some(k) => Some(i + k),
    }
}

/// A found alias position holds the alias.
pub proof fn lemma_first_alias_pos_hit(aliases: Seq<String>, alias: Seq<char>)
    ensures
        spec_first_alias_pos(aliases, alias) matches Some(p) ==> 0 <= p < aliases.len()
            && aliases[p]@ == alias,
    decreases aliases.len(),
{
    if aliases.len() > 0 {
        lemma_first_alias_pos_hit(aliases.skip(1), alias);
    }
}

/// With no found position, no entry holds the alias.
pub proof fn lemma_first_alias_pos_none(aliases: Seq<String>, alias: Seq<char>)
    ensures
        spec_first_alias_pos(aliases, alias) is None ==> forall|j: int|
            0 <= j < aliases.len() ==> aliases[j]@ != alias,
    decreases aliases.len(),
{
    if aliases.len() > 0 {
        lemma_first_alias_pos_none(aliases.skip(1), alias);
        if spec_first_alias_pos(aliases, alias) is None {
            assert forall|j: int| 0 <= j < aliases.len() implies aliases[j]@ != alias by {
                if j > 0 {
                    assert(aliases.skip(1)[j - 1] == aliases[j]);
                }
            }
        }
    }
}

/// Finds the first position of `alias` in an alias list.
pub fn first_alias_pos(aliases: &Vec<String>, alias: &str) -> (r: Option<usize>)
    ensures
        r matches Some(i) ==> i < aliases@.len() && spec_first_alias_pos(aliases@, alias@)
            == Some(i as int),
        r is None ==> spec_first_alias_pos(aliases@, alias@) is None,
{
    proof {
        assert(aliases@.skip(0) =~= aliases@);
    }
    let n: usize = aliases.len();
    let mut i: usize = 0;
    while i < n
        invariant
            0 <= i <= n,
            n == aliases@.len(),
            spec_first_alias_pos(aliases@, alias@) == spec_first_alias_pos_from(
                aliases@,
                alias@,
                i as int,
            ),
        decreases n - i,
    {
        proof {
            assert(aliases@.skip(i as int)[0] == aliases@[i as int]);
            assert(aliases@.skip(i as int).skip(1) =~= aliases@.skip(i as int + 1));
        }
        if crate::text::str_eq(aliases[i].as_str(), alias) {
            return Some(i);
        }
        i += 1;
    }
    proof {
        assert(aliases@.skip(n as int).len() == 0);
    }
    None
}

/// Finds the first command one of whose aliases is `alias`.
pub fn get_command_from_alias_string(
    commands: &Vec<(Command, CommandInfo)>,
    alias: &str,
) -> (r: Option<Command>)
    ensures
        match spec_alias_hit(commands@, alias@) {
            Some(i) => r matches Some(c) && cmd_eq(c, commands@[i].0),
            None => r is None,
        },
{
    proof {
        assert(commands@.skip(0) =~= commands@);
    }
    let n: usize = commands.len();
    let mut i: usize = 0;
    while i < n
        invariant
            0 <= i <= n,
            n == commands@.len(),
            forall|j: int| 0 <= j < i ==> !spec_has_alias(commands@[j].1, alias@),
            spec_alias_hit(commands@, alias@) == spec_alias_hit_from(commands@, alias@, i as int),
        decreases n - i,
    {
        if has_alias(&commands[i].1, alias) {
            proof {
                lemma_alias_hit_from_here(commands@, alias@, i as int);
            }
            return Some(commands[i].0.duplicate());
        }
        proof {
            lemma_alias_hit_from_next(commands@, alias@, i as int);
        }
        i += 1;
    }
    proof {
        lemma_alias_hit_from_end(commands@, alias@);
    }
    None
}

/// `spec_alias_hit` restarted at position `i`.
pub open spec fn spec_alias_hit_from(
    commands: Seq<(Command, CommandInfo)>,
    alias: Seq<char>,
    i: int,
) -> Option<int> {
    match spec_alias_hit(commands.skip(i), alias) {
        None => None,
        Some(k) => Some(i + k),
    }
}

proof fn lemma_alias_hit_from_here(commands: Seq<(Command, CommandInfo)>, alias: Seq<char>, i: int)
    requires
        0 <= i < commands.len(),
        spec_has_alias(commands[i].1, alias),
    ensures
        spec_alias_hit_from(commands, alias, i) == Some(i),
{
    assert(commands.skip(i)[0] == commands[i]);
}

proof fn lemma_alias_hit_from_next(commands: Seq<(Command, CommandInfo)>, alias: Seq<char>, i: int)
    requires
        0 <= i < commands.len(),
        !spec_has_alias(commands[i].1, alias),
    ensures
        spec_alias_hit_from(commands, alias, i) == spec_alias_hit_from(commands, alias, i + 1),
{
    assert(commands.skip(i)[0] == commands[i]);
    assert(commands.skip(i).skip(1) =~= commands.skip(i + 1));
}

proof fn lemma_alias_hit_from_end(commands: Seq<(Command, CommandInfo)>, alias: Seq<char>)
    ensures
        spec_alias_hit_from(commands, alias, commands.len() as int) == None::<int>,
{
    assert(commands.skip(commands.len() as int).len() == 0);
}

/// Whether `info`'s alias list holds `alias`.
fn has_alias(info: &CommandInfo, alias: &str) -> (r: bool)
    ensures
        r == spec_has_alias(*info, alias@),
{
    match &info.alias {
        None => false,
        Some(aliases) => first_alias_pos(aliases, alias).is_some(),
    }
}

/// Resolves a would-be command word through the alias tables: the user's own
/// aliases win over the default ones.
pub fn try_get_command_from_alias(
    user_commands: &Option<Vec<(Command, CommandInfo)>>,
    default_commands: &Vec<(Command, CommandInfo)>,
    potential_command: &str,
) -> (r: Option<Command>)
    ensures
        match user_commands {
            Some(u) => match spec_alias_hit(u@, potential_command@) {
                Some(i) => r matches Some(c) && cmd_eq(c, u@[i].0),
                None => match spec_alias_hit(default_commands@, potential_command@) {
                    Some(i) => r matches Some(c) && cmd_eq(c, default_commands@[i].0),
                    None => r is None,
                },
            },
            None => match spec_alias_hit(default_commands@, potential_command@) {
                Some(i) => r matches Some(c) && cmd_eq(c, default_commands@[i].0),
                None => r is None,
            },
        },
{
    if let Some(user_cmd) = user_commands {
        if let Some(cmd) = get_command_from_alias_string(user_cmd, potential_command) {
            return Some(cmd);
        }
    }

    if let Some(cmd) = get_command_from_alias_string(default_commands, potential_command) {
        return Some(cmd);
    }

    None
}

/// Parses a chat toggle argument: "on" and "off" (in any case) are accepted.
pub fn enabled_to_bool(enabled: &str) -> (r: Result<bool, Error>)
    ensures
        crate::text::lower_of(enabled@) == "on"@ ==> r === Ok(true),
        crate::text::lower_of(enabled@) != "on"@ && crate::text::lower_of(enabled@) == "off"@
            ==> r === Ok(false),
        crate::text::lower_of(enabled@) != "on"@ && crate::text::lower_of(enabled@) != "off"@
            ==> r === Err(Error::EnabledToBoolConversionError),
{
    let lowered = crate::text::lowercase(enabled);
    if crate::text::str_eq(lowered.as_str(), "on") {
        return Ok(true);
    }

    if crate::text::str_eq(lowered.as_str(), "off") {
        return Ok(false);
    }

    Err(Error::EnabledToBoolConversionError)
}

/// The built-in command table consulted after the user's own: what each
/// stock command is allowed to, before any per-user override.
pub fn default_command_settings() -> (r: Vec<(Command, CommandInfo)>)
    ensures
        r@ =~= seq![
            (Command::Switch, CommandInfo { permission: None, alias: None }),
            (
                Command::Bitrate,
                CommandInfo { permission: Some(Permission::Public), alias: None },
            ),
            (Command::Fix, CommandInfo { permission: Some(Permission::Mod), alias: None }),
            (Command::Obsinfo, CommandInfo { permission: Some(Permission::Mod), alias: None }),
            (Command::Otrigger, CommandInfo { permission: Some(Permission::Mod), alias: None }),
            (Command::Refresh, CommandInfo { permission: Some(Permission::Mod), alias: None }),
            (Command::Rtrigger, CommandInfo { permission: Some(Permission::Mod), alias: None }),
            (
                Command::Sourceinfo,
                CommandInfo { permission: Some(Permission::Mod), alias: None },
            ),
            (Command::Trigger, CommandInfo { permission: Some(Permission::Mod), alias: None }),
            (
                Command::Version,
                CommandInfo { permission: Some(Permission::Public), alias: None },
            ),
        ],
{
    let mut default: Vec<(Command, CommandInfo)> = Vec::new();

    default.push((Command::Switch, CommandInfo { permission: None, alias: None }));
    default.push(
        (Command::Bitrate, CommandInfo { permission: Some(Permission::Public), alias: None }),
    );
    default.push((Command::Fix, CommandInfo { permission: Some(Permission::Mod), alias: None }));
    default.push(
        (Command::Obsinfo, CommandInfo { permission: Some(Permission::Mod), alias: None }),
    );
    default.push(
        (Command::Otrigger, CommandInfo { permission: Some(Permission::Mod), alias: None }),
    );
    default.push(
        (Command::Refresh, CommandInfo { permission: Some(Permission::Mod), alias: None }),
    );
    default.push(
        (Command::Rtrigger, CommandInfo { permission: Some(Permission::Mod), alias: None }),
    );
    default.push(
        (Command::Sourceinfo, CommandInfo { permission: Some(Permission::Mod), alias: None }),
    );
    default.push(
        (Command::Trigger, CommandInfo { permission: Some(Permission::Mod), alias: None }),
    );
    default.push(
        (Command::Version, CommandInfo { permission: Some(Permission::Public), alias: None }),
    );

    default
}

/// Whether a public command from this channel is still in its cooldown:
/// within five seconds of the channel's last public command the message is
/// dropped; otherwise the marker is refreshed, and a channel seen for the
/// first time gets a fresh marker. Times are seconds since an arbitrary
/// fixed origin.
pub fn handle_timeout(timeouts: &mut Vec<Timeout>, channel: &String, now_secs: u64) -> (r: bool)
    ensures
        match spec_timeout_index(old(timeouts)@, channel@) {
            Some(i) => {
                let elapsed = now_secs - old(timeouts)@[i].time;
                &&& r == (old(timeouts)@[i].time <= now_secs && elapsed <= 5)
                &&& (r ==> final(timeouts)@ == old(timeouts)@)
                &&& (!r ==> final(timeouts)@.len() == old(timeouts)@.len() && (forall|j: int|
                    0 <= j < old(timeouts)@.len() && j != i
                        ==> final(timeouts)@[j] == old(timeouts)@[j])
                    && final(timeouts)@[i].channel == old(timeouts)@[i].channel
                    && final(timeouts)@[i].time == now_secs)
            },
            None => {
                &&& !r
                &&& final(timeouts)@.len() == old(timeouts)@.len() + 1
                &&& (forall|j: int|
                    0 <= j < old(timeouts)@.len() ==> final(timeouts)@[j] == old(timeouts)@[j])
                &&& final(timeouts)@.last().channel@ == channel@
                &&& final(timeouts)@.last().time == now_secs
            },
        },
{
    let n: usize = timeouts.len();
    proof {
        assert(timeouts@.skip(0) =~= timeouts@);
    }
    let mut i: usize = 0;
    while i < n
        invariant
            0 <= i <= n,
            n == timeouts@.len(),
            timeouts@ == old(timeouts)@,
            spec_timeout_index(timeouts@, channel@) == spec_timeout_index_from(
                timeouts@,
                channel@,
                i as int,
            ),
        decreases n - i,
    {
        proof {
            assert(timeouts@.skip(i as int)[0] == timeouts@[i as int]);
            assert(timeouts@.skip(i as int).skip(1) =~= timeouts@.skip(i as int + 1));
        }
        if crate::text::str_eq(timeouts[i].channel.as_str(), channel.as_str()) {
            if timeouts[i].time <= now_secs && now_secs - timeouts[i].time <= 5 {
                return true;
            }
            let ghost before = timeouts@;
            let mut entry = timeouts.remove(i);
            entry.time = now_secs;
            let ghost entry_v = entry;
            timeouts.insert(i, entry);
            proof {
                assert(timeouts@ == before.remove(i as int).insert(i as int, entry_v));
                assert forall|j: int|
                    0 <= j < before.len() && j != i implies timeouts@[j] == before[j] by {
                    if j < i {
                        assert(before.remove(i as int)[j] == before[j]);
                    } else {
                        assert(before.remove(i as int)[j - 1] == before[j]);
                    }
                }
            }
            return false;
        }
        i += 1;
    }
    proof {
        assert(timeouts@.skip(n as int).len() == 0);
    }
    timeouts.push(Timeout { channel: channel.clone(), time: now_secs });
    false
}

/// The first cooldown marker of `channel`, if any.
pub open spec fn spec_timeout_index(timeouts: Seq<Timeout>, channel: Seq<char>) -> Option<int>
    decreases timeouts.len(),
{
    if timeouts.len() == 0 {
        None
    } else if timeouts[0].channel@ == channel {
        Some(0int)
    } else {
        match spec_timeout_index(timeouts.skip(1), channel) {
            None => None,
            Some(i) => Some(i + 1),
        }
    }
}

/// `spec_timeout_index` restarted at position `i`.
pub open spec fn spec_timeout_index_from(
    timeouts: Seq<Timeout>,
    channel: Seq<char>,
    i: int,
) -> Option<int> {
    match spec_timeout_index(timeouts.skip(i), channel) {
        None => None,
        Some(k) => Some(i + k),
    }
}

/// Whether the sender of `msg` may run a command configured at
/// `permission` under the chat settings: admins (by role or by the admin
/// list) always may; with both public and mod commands disabled a
/// moderator may not; a moderator may not run a mod command while mod
/// commands are disabled; the public may not run anything while public
/// commands are disabled; and otherwise the permission check decides.
pub open spec fn spec_is_allowed_to_use_command(
    chat: crate::config::Chat,
    msg: crate::chat::ChatMessage,
    permission: Permission,
) -> bool {
    if msg.permission == Permission::Admin || crate::text::spec_list_contains(
        chat.admins@,
        msg.sender@,
    ) {
        true
    } else if msg.permission == Permission::Mod && !chat.enable_public_commands
        && !chat.enable_mod_commands {
        false
    } else if msg.permission == Permission::Mod && permission == Permission::Mod
        && !chat.enable_mod_commands {
        false
    } else if msg.permission == Permission::Public && !chat.enable_public_commands {
        false
    } else {
        permission == Permission::Public || (permission == Permission::Mod && msg.permission
            == Permission::Mod)
    }
}

/// Exactly `spec_is_allowed_to_use_command`.
pub fn is_allowed_to_use_command(
    chat: &crate::config::Chat,
    msg: &crate::chat::ChatMessage,
    permission: &Permission,
) -> (r: bool)
    ensures
        r == spec_is_allowed_to_use_command(*chat, *msg, *permission),
{
    let user_permission = &msg.permission;

    if *user_permission == Permission::Admin || crate::text::list_contains(
        &chat.admins,
        msg.sender.as_str(),
    ) {
        return true;
    }

    if *user_permission == Permission::Mod && !chat.enable_public_commands
        && !chat.enable_mod_commands {
        return false;
    }

    if *user_permission == Permission::Mod && *permission == Permission::Mod
        && !chat.enable_mod_commands {
        return false;
    }

    if *user_permission == Permission::Public && !chat.enable_public_commands {
        return false;
    }

    permission_is_allowed(permission, user_permission)
}

} // verus!
