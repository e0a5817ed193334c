//! Chat-facing data: the command vocabulary, permission levels, and the
//! outbound event payloads that the switching core emits for the chat layer.

use vstd::prelude::*;

use crate::switcher::SwitchType;

pub mod chat_handler;

verus! {

/// A connection to one chat platform, implemented by the surrounding
/// program per platform: all the core asks of it is delivering a message
/// to a channel.
pub trait ChatLogic {
    fn send_message(&self, channel: String, message: String);
}

/// A chat command understood by the bot layer.
#[derive(Debug, Clone)]
pub enum Command {
    Alias,
    Autostop,
    Bitrate,
    Fix,
    Mod,
    Noalbs,
    Notify,
    ServerInfo,
    Obsinfo,
    Otrigger,
    Ortrigger,
    Public,
    Rec,
    Refresh,
    Rtrigger,
    Source,
    Sourceinfo,
    Start,
    Stop,
    Collection,
    Switch,
    Trigger,
    Version,
    LiveScene,
    StartingScene,
    EndingScene,
    PrivacyScene,
    Unknown(String),
    StopOnRaid(RaidedInfo),
}

/// Equality on commands, comparing the carried strings by their characters.
pub open spec fn cmd_eq(a: Command, b: Command) -> bool {
    match (a, b) {
        (Command::Alias, Command::Alias) => true,
        (Command::Autostop, Command::Autostop) => true,
        (Command::Bitrate, Command::Bitrate) => true,
        (Command::Fix, Command::Fix) => true,
        (Command::Mod, Command::Mod) => true,
        (Command::Noalbs, Command::Noalbs) => true,
        (Command::Notify, Command::Notify) => true,
        (Command::ServerInfo, Command::ServerInfo) => true,
        (Command::Obsinfo, Command::Obsinfo) => true,
        (Command::Otrigger, Command::Otrigger) => true,
        (Command::Ortrigger, Command::Ortrigger) => true,
        (Command::Public, Command::Public) => true,
        (Command::Rec, Command::Rec) => true,
        (Command::Refresh, Command::Refresh) => true,
        (Command::Rtrigger, Command::Rtrigger) => true,
        (Command::Source, Command::Source) => true,
        (Command::Sourceinfo, Command::Sourceinfo) => true,
        (Command::Start, Command::Start) => true,
        (Command::Stop, Command::Stop) => true,
        (Command::Collection, Command::Collection) => true,
        (Command::Switch, Command::Switch) => true,
        (Command::Trigger, Command::Trigger) => true,
        (Command::Version, Command::Version) => true,
        (Command::LiveScene, Command::LiveScene) => true,
        (Command::StartingScene, Command::StartingScene) => true,
        (Command::EndingScene, Command::EndingScene) => true,
        (Command::PrivacyScene, Command::PrivacyScene) => true,
        (Command::Unknown(x), Command::Unknown(y)) => x@ == y@,
        (Command::StopOnRaid(x), Command::StopOnRaid(y)) => x.target@ == y.target@
            && x.display@ == y.display@,
        _ => false,
    }
}

impl PartialEq for Command {
    fn eq(&self, other: &Command) -> (r: bool)
        ensures
            r == cmd_eq(*self, *other),
    {
        match (self, other) {
            (Command::Alias, Command::Alias) => true,
            (Command::Autostop, Command::Autostop) => true,
            (Command::Bitrate, Command::Bitrate) => true,
            (Command::Fix, Command::Fix) => true,
            (Command::Mod, Command::Mod) => true,
            (Command::Noalbs, Command::Noalbs) => true,
            (Command::Notify, Command::Notify) => true,
            (Command::ServerInfo, Command::ServerInfo) => true,
            (Command::Obsinfo, Command::Obsinfo) => true,
            (Command::Otrigger, Command::Otrigger) => true,
            (Command::Ortrigger, Command::Ortrigger) => true,
            (Command::Public, Command::Public) => true,
            (Command::Rec, Command::Rec) => true,
            (Command::Refresh, Command::Refresh) => true,
            (Command::Rtrigger, Command::Rtrigger) => true,
            (Command::Source, Command::Source) => true,
            (Command::Sourceinfo, Command::Sourceinfo) => true,
            (Command::Start, Command::Start) => true,
            (Command::Stop, Command::Stop) => true,
            (Command::Collection, Command::Collection) => true,
            (Command::Switch, Command::Switch) => true,
            (Command::Trigger, Command::Trigger) => true,
            (Command::Version, Command::Version) => true,
            (Command::LiveScene, Command::LiveScene) => true,
            (Command::StartingScene, Command::StartingScene) => true,
            (Command::EndingScene, Command::EndingScene) => true,
            (Command::PrivacyScene, Command::PrivacyScene) => true,
            (Command::Unknown(x), Command::Unknown(y)) => crate::text::str_eq(
                x.as_str(),
                y.as_str(),
            ),
            (Command::StopOnRaid(x), Command::StopOnRaid(y)) => crate::text::str_eq(
                x.target.as_str(),
                y.target.as_str(),
            ) && crate::text::str_eq(x.display.as_str(), y.display.as_str()),
            _ => false,
        }
    }
}

impl Command {
    /// A copy that `cmd_eq` cannot tell apart from `self`.
    pub fn duplicate(&self) -> (r: Command)
        ensures
            cmd_eq(r, *self),
    {
        match self {
            Command::Alias => Command::Alias,
            Command::Autostop => Command::Autostop,
            Command::Bitrate => Command::Bitrate,
            Command::Fix => Command::Fix,
            Command::Mod => Command::Mod,
            Command::Noalbs => Command::Noalbs,
            Command::Notify => Command::Notify,
            Command::ServerInfo => Command::ServerInfo,
            Command::Obsinfo => Command::Obsinfo,
            Command::Otrigger => Command::Otrigger,
            Command::Ortrigger => Command::Ortrigger,
            Command::Public => Command::Public,
            Command::Rec => Command::Rec,
            Command::Refresh => Command::Refresh,
            Command::Rtrigger => Command::Rtrigger,
            Command::Source => Command::Source,
            Command::Sourceinfo => Command::Sourceinfo,
            Command::Start => Command::Start,
            Command::Stop => Command::Stop,
            Command::Collection => Command::Collection,
            Command::Switch => Command::Switch,
            Command::Trigger => Command::Trigger,
            Command::Version => Command::Version,
            Command::LiveScene => Command::LiveScene,
            Command::StartingScene => Command::StartingScene,
            Command::EndingScene => Command::EndingScene,
            Command::PrivacyScene => Command::PrivacyScene,
            Command::Unknown(x) => Command::Unknown(x.clone()),
            Command::StopOnRaid(x) => Command::StopOnRaid(
                RaidedInfo { target: x.target.clone(), display: x.display.clone() },
            ),
        }
    }
}

impl vstd::std_specs::cmp::PartialEqSpecImpl for Command {
    open spec fn obeys_eq_spec() -> bool {
        true
    }

    open spec fn eq_spec(&self, other: &Command) -> bool {
        cmd_eq(*self, *other)
    }
}

/// Who may run a command.
#[derive(Debug, Clone, Copy, PartialEq, Eq, Structural)]
pub enum Permission {
    Admin,
    Mod,
    Public,
}

/// The permission configured for one command, next to the list of users it
/// was granted to individually.
#[derive(Debug, Clone)]
pub struct CommandPermissions {
    pub permission: Option<Permission>,
    pub user_permissions: Option<Vec<String>>,
}

/// The chat platform a session's channel lives on.
#[derive(Debug, Clone, Copy, PartialEq, Eq, Structural)]
pub enum ChatPlatform {
    Twitch,
}

/// The language chat replies are written in.
#[derive(Debug, Clone, Copy, PartialEq, Eq, Structural)]
pub enum ChatLanguage {
    DE,
    DK,
    EN,
    ES,
    FR,
    IT,
    NB,
    NL,
    PL,
    PTBR,
    RU,
    SV,
    TR,
    ZHTW,
}

/// A unit of work for the chat layer.
#[derive(Debug)]
pub enum HandleMessage {
    ChatMessage(ChatMessage),
    InternalChatUpdate(InternalChatUpdate),
    AutomaticSwitchingScene(AutomaticSwitchingScene),
}

/// A message received from a chat channel.
#[derive(Debug, Clone)]
pub struct ChatMessage {
    pub platform: ChatPlatform,
    pub permission: Permission,
    pub channel: String,
    pub sender: String,
    pub message: String,
}

/// An update the core pushes towards a chat channel.
#[derive(Debug, Clone)]
pub struct InternalChatUpdate {
    pub platform: ChatPlatform,
    pub channel: String,
    pub kind: InternalUpdate,
}

/// What an internal chat update reports.
#[derive(Debug, Clone)]
pub enum InternalUpdate {
    Raided(RaidedInfo),
    OfflineTimeout,
}

/// Who raided the channel.
#[derive(Debug, Clone)]
pub struct RaidedInfo {
    pub target: String,
    pub display: String,
}

/// Announces that the switcher changed the scene on its own.
#[derive(Debug, Clone)]
pub struct AutomaticSwitchingScene {
    pub platform: ChatPlatform,
    pub channel: String,
    pub scene: String,
    pub switch_type: SwitchType,
}

/// The fixed command a (lowercased) command word names, if any.
pub open spec fn spec_command_word(lower: Seq<char>) -> Option<Command> {
    if lower == "alias"@ {
        Some(Command::Alias)
    } else if lower == "autostop"@ {
        Some(Command::Autostop)
    } else if lower == "bitrate"@ {
        Some(Command::Bitrate)
    } else if lower == "fix"@ {
        Some(Command::Fix)
    } else if lower == "mod"@ {
        Some(Command::Mod)
    } else if lower == "noalbs"@ {
        Some(Command::Noalbs)
    } else if lower == "notify"@ {
        Some(Command::Notify)
    } else if lower == "serverinfo"@ {
        Some(Command::ServerInfo)
    } else if lower == "obsinfo"@ {
        Some(Command::Obsinfo)
    } else if lower == "otrigger"@ {
        Some(Command::Otrigger)
    } else if lower == "ortrigger"@ {
        Some(Command::Ortrigger)
    } else if lower == "public"@ {
        Some(Command::Public)
    } else if lower == "record"@ {
        Some(Command::Rec)
    } else if lower == "refresh"@ {
        Some(Command::Refresh)
    } else if lower == "rtrigger"@ {
        Some(Command::Rtrigger)
    } else if lower == "sourceinfo"@ {
        Some(Command::Sourceinfo)
    } else if lower == "start"@ {
        Some(Command::Start)
    } else if lower == "stop"@ {
        Some(Command::Stop)
    } else if lower == "collection"@ {
        Some(Command::Collection)
    } else if lower == "switch"@ {
        Some(Command::Switch)
    } else if lower == "trigger"@ {
        Some(Command::Trigger)
    } else if lower == "source"@ {
        Some(Command::Source)
    } else if lower == "noalbsversion"@ {
        Some(Command::Version)
    } else if lower == "live"@ {
        Some(Command::LiveScene)
    } else if lower == "privacy"@ {
        Some(Command::PrivacyScene)
    } else if lower == "starting"@ {
        Some(Command::StartingScene)
    } else if lower == "ending"@ {
        Some(Command::EndingScene)
    } else {
        None
    }
}

impl Command {
    /// Reads a chat command word, in any case; anything unrecognized
    /// stays as an `Unknown` holding the lowercased word.
    pub fn from_word(command: &str) -> (r: Command)
        ensures
            match spec_command_word(crate::text::lower_of(command@)) {
                Some(c) => r == c,
                None => r matches Command::Unknown(s) && s@ == crate::text::lower_of(command@),
            },
    {
        let lowered = crate::text::lowercase(command);

        if crate::text::str_eq(lowered.as_str(), "alias") {
            Command::Alias
        } else if crate::text::str_eq(lowered.as_str(), "autostop") {
            Command::Autostop
        } else if crate::text::str_eq(lowered.as_str(), "bitrate") {
            Command::Bitrate
        } else if crate::text::str_eq(lowered.as_str(), "fix") {
            Command::Fix
        } else if crate::text::str_eq(lowered.as_str(), "mod") {
            Command::Mod
        } else if crate::text::str_eq(lowered.as_str(), "noalbs") {
            Command::Noalbs
        } else if crate::text::str_eq(lowered.as_str(), "notify") {
            Command::Notify
        } else if crate::text::str_eq(lowered.as_str(), "serverinfo") {
            Command::ServerInfo
        } else if crate::text::str_eq(lowered.as_str(), "obsinfo") {
            Command::Obsinfo
        } else if crate::text::str_eq(lowered.as_str(), "otrigger") {
            Command::Otrigger
        } else if crate::text::str_eq(lowered.as_str(), "ortrigger") {
            Command::Ortrigger
        } else if crate::text::str_eq(lowered.as_str(), "public") {
            Command::Public
        } else if crate::text::str_eq(lowered.as_str(), "record") {
            Command::Rec
        } else if crate::text::str_eq(lowered.as_str(), "refresh") {
            Command::Refresh
        } else if crate::text::str_eq(lowered.as_str(), "rtrigger") {
            Command::Rtrigger
        } else if crate::text::str_eq(lowered.as_str(), "sourceinfo") {
            Command::Sourceinfo
        } else if crate::text::str_eq(lowered.as_str(), "start") {
            Command::Start
        } else if crate::text::str_eq(lowered.as_str(), "stop") {
            Command::Stop
        } else if crate::text::str_eq(lowered.as_str(), "collection") {
            Command::Collection
        } else if crate::text::str_eq(lowered.as_str(), "switch") {
            Command::Switch
        } else if crate::text::str_eq(lowered.as_str(), "trigger") {
            Command::Trigger
        } else if crate::text::str_eq(lowered.as_str(), "source") {
            Command::Source
        } else if crate::text::str_eq(lowered.as_str(), "noalbsversion") {
            Command::Version
        } else if crate::text::str_eq(lowered.as_str(), "live") {
            Command::LiveScene
        } else if crate::text::str_eq(lowered.as_str(), "privacy") {
            Command::PrivacyScene
        } else if crate::text::str_eq(lowered.as_str(), "starting") {
            Command::StartingScene
        } else if crate::text::str_eq(lowered.as_str(), "ending") {
            Command::EndingScene
        } else {
            Command::Unknown(lowered)
        }
    }
}

/// The chat language a (lowercased) language code names, if any.
pub open spec fn spec_lang_of(lower: Seq<char>) -> Option<ChatLanguage> {
    if lower == "de"@ {
        Some(ChatLanguage::DE)
    } else if lower == "dk"@ {
        Some(ChatLanguage::DK)
    } else if lower == "en"@ {
        Some(ChatLanguage::EN)
    } else if lower == "es"@ {
        Some(ChatLanguage::ES)
    } else if lower == "fr"@ {
        Some(ChatLanguage::FR)
    } else if lower == "it"@ {
        Some(ChatLanguage::IT)
    } else if lower == "nb"@ {
        Some(ChatLanguage::NB)
    } else if lower == "nl"@ {
        Some(ChatLanguage::NL)
    } else if lower == "pl"@ {
        Some(ChatLanguage::PL)
    } else if lower == "pt_br"@ {
        Some(ChatLanguage::PTBR)
    } else if lower == "ru"@ {
        Some(ChatLanguage::RU)
    } else if lower == "sv"@ {
        Some(ChatLanguage::SV)
    } else if lower == "tr"@ {
        Some(ChatLanguage::TR)
    } else if lower == "zh_tw"@ {
        Some(ChatLanguage::ZHTW)
    } else {
        None
    }
}

impl ChatLanguage {
    /// Reads a language code, in any case; an unsupported code is an
    /// error.
    pub fn from_str(s: &str) -> (r: Result<ChatLanguage, crate::error::Error>)
        ensures
            match spec_lang_of(crate::text::lower_of(s@)) {
                Some(l) => r === Ok(l),
                None => r === Err(crate::error::Error::LangNotSupported),
            },
    {
        let language = crate::text::lowercase(s);

        if crate::text::str_eq(language.as_str(), "de") {
            Ok(ChatLanguage::DE)
        } else if crate::text::str_eq(language.as_str(), "dk") {
            Ok(ChatLanguage::DK)
        } else if crate::text::str_eq(language.as_str(), "en") {
            Ok(ChatLanguage::EN)
        } else if crate::text::str_eq(language.as_str(), "es") {
            Ok(ChatLanguage::ES)
        } else if crate::text::str_eq(language.as_str(), "fr") {
            Ok(ChatLanguage::FR)
        } else if crate::text::str_eq(language.as_str(), "it") {
            Ok(ChatLanguage::IT)
        } else if crate::text::str_eq(language.as_str(), "nb") {
            Ok(ChatLanguage::NB)
        } else if crate::text::str_eq(language.as_str(), "nl") {
            Ok(ChatLanguage::NL)
        } else if crate::text::str_eq(language.as_str(), "pl") {
            Ok(ChatLanguage::PL)
        } else if crate::text::str_eq(language.as_str(), "pt_br") {
            Ok(ChatLanguage::PTBR)
        } else if crate::text::str_eq(language.as_str(), "ru") {
            Ok(ChatLanguage::RU)
        } else if crate::text::str_eq(language.as_str(), "sv") {
            Ok(ChatLanguage::SV)
        } else if crate::text::str_eq(language.as_str(), "tr") {
            Ok(ChatLanguage::TR)
        } else if crate::text::str_eq(language.as_str(), "zh_tw") {
            Ok(ChatLanguage::ZHTW)
        } else {
            Err(crate::error::Error::LangNotSupported)
        }
    }
}

} // verus!
