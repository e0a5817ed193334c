//! The switching decision core: classification types, trigger thresholds,
//! scene tables, and the per-tick decision pipeline.

use vstd::prelude::*;

use crate::chat::{AutomaticSwitchingScene, InternalChatUpdate, InternalUpdate};
use crate::error::Error;
use crate::state::{spec_switchable, BroadcastingSoftwareState, ClientStatus, State};
use crate::stream_servers::{spec_server_index, StreamServer, find_server_index};

verus! {

/// The per-tick verdict on the connection's health, and the scene class the
/// switcher should steer towards.
///
/// `Previous` means "hold the stored previous scene": it is produced for a
/// zero-bitrate reading (a startup or transient blip) and never resolves
/// through a scene table.
#[derive(Debug, PartialEq, Eq, Clone, Copy, Structural)]
pub enum SwitchType {
    Normal,
    Low,
    Previous,
    Offline,
}

/// Names one of the four trigger thresholds.
#[derive(Debug, PartialEq, Eq, Clone, Copy, Structural)]
pub enum TriggerType {
    Low,
    Rtt,
    Offline,
    RttOffline,
}

/// Optional thresholds against which a probe reading is classified.
/// Bitrates are in Kbps, round-trip times in milliseconds.
#[derive(Debug, Clone)]
pub struct Triggers {
    /// Switch to the low scene at or below this bitrate.
    pub low: Option<u32>,

    /// Switch to the low scene at or above this round-trip time.
    pub rtt: Option<u32>,

    /// Switch to the offline scene at or below this (positive) bitrate.
    pub offline: Option<u32>,

    /// Switch to the offline scene at or above this round-trip time.
    pub rtt_offline: Option<u32>,
}

impl Triggers {
    pub fn set_low(&mut self, value: Option<u32>)
        ensures
            final(self).low == value,
            final(self).rtt == old(self).rtt,
            final(self).offline == old(self).offline,
            final(self).rtt_offline == old(self).rtt_offline,
    {
        self.low = value;
    }
}

impl Default for Triggers {
    /// The stock thresholds: low at 800 Kbps, high round-trip time at 2500 ms.
    fn default() -> (r: Self)
        ensures
            r.low == Some(800u32),
            r.rtt == Some(2500u32),
            r.offline.is_none(),
            r.rtt_offline.is_none(),
    {
        Self { low: Some(800), rtt: Some(2500), offline: None, rtt_offline: None }
    }
}

/// The scene names a classification resolves to.
#[derive(Debug, Clone)]
pub struct SwitchingScenes {
    pub normal: String,
    pub low: String,
    pub offline: String,
}

impl SwitchingScenes {
    pub fn new(normal: &str, low: &str, offline: &str) -> (r: SwitchingScenes)
        ensures
            r.normal@ == normal@,
            r.low@ == low@,
            r.offline@ == offline@,
    {
        SwitchingScenes {
            normal: normal.to_owned(),
            low: low.to_owned(),
            offline: offline.to_owned(),
        }
    }

    /// Maps a classification to its scene name. `Previous` has no entry in
    /// the table (it resolves to the stored previous scene instead) and is
    /// reported as an error; the switcher's control flow never asks for it.
    pub fn type_to_scene(&self, s_type: &SwitchType) -> (r: Result<&String, Error>)
        ensures
            *s_type == SwitchType::Normal ==> (r matches Ok(s) && s == &self.normal),
            *s_type == SwitchType::Low ==> (r matches Ok(s) && s == &self.low),
            *s_type == SwitchType::Offline ==> (r matches Ok(s) && s == &self.offline),
            *s_type == SwitchType::Previous ==> r === Err(Error::SwitchTypeNotSupported),
    {
        match s_type {
            SwitchType::Normal => Ok(&self.normal),
            SwitchType::Low => Ok(&self.low),
            SwitchType::Offline => Ok(&self.offline),
            SwitchType::Previous => Err(Error::SwitchTypeNotSupported),
        }
    }
}

/// The scene name a classification resolves to in the table `scenes`;
/// `Previous` never resolves through a table and yields the empty name,
/// which every caller rules out beforehand.
pub open spec fn spec_scene_for_type(scenes: SwitchingScenes, ty: SwitchType) -> Seq<char> {
    match ty {
        SwitchType::Normal => scenes.normal@,
        SwitchType::Low => scenes.low@,
        SwitchType::Offline => scenes.offline@,
        SwitchType::Previous => Seq::<char>::empty(),
    }
}

/// A wake signal of the session: what a blocked switcher waits on, and
/// what a state change announces.
#[derive(Debug, Clone, Copy, PartialEq, Eq, Structural)]
pub enum Signal {
    /// The switcher was enabled.
    SwitcherEnabled,
    /// The broadcasting-software connection came up.
    Connected,
    /// The broadcasting software started streaming.
    StartStreaming,
    /// The current scene became (or may have become) switchable.
    SwitchScene,
}

/// The debounce bookkeeping the switcher carries from tick to tick.
#[derive(Debug, Clone, Copy)]
pub struct TickState {
    /// The classification the run of identical ticks carries.
    pub prev_switch_type: SwitchType,
    /// How many consecutive ticks classified as `prev_switch_type`,
    /// counting the tick that started the run; reset after the switcher
    /// acts.
    pub same_type: u8,
    /// Roughly how many polling seconds the current run has lasted while
    /// streaming; feeds the offline timeout.
    pub same_type_seconds: u32,
}

impl TickState {
    /// The state a session starts with: an offline run of length zero.
    pub fn new() -> (r: TickState)
        ensures
            r.prev_switch_type == SwitchType::Offline,
            r.same_type == 0u8,
            r.same_type_seconds == 0u32,
    {
        TickState { prev_switch_type: SwitchType::Offline, same_type: 0, same_type_seconds: 0 }
    }
}

/// Everything one tick of the switcher decides. The surrounding loop only
/// carries it out: it performs the offline-timeout actions when asked to,
/// resolves the scene for `switch_type` through `server`, and switches.
#[derive(Debug, Clone, Copy)]
pub struct TickPlan {
    /// Whether the switcher acts this tick at all; when false the other
    /// fields are irrelevant.
    pub act: bool,
    /// The tick's effective classification.
    pub switch_type: SwitchType,
    /// The server entry whose scene tables govern resolution, if any.
    pub server: Option<usize>,
    /// Whether the debounce counter was bypassed.
    pub force: bool,
    /// Stop streaming: the stream has sat on the offline classification
    /// past the configured timeout.
    pub offline_stop: bool,
    /// When stopping, also stop the recording if one is running.
    pub offline_check_recording: bool,
    /// Announce the offline timeout to the configured chat channel once.
    pub offline_notice: bool,
}

/// The first enabled server with a non-`Offline` classification, searching
/// from position `i`: its index and classification, or no server and
/// `Offline`.
pub open spec fn spec_winner_from(
    servers: Seq<StreamServer>,
    cls: Seq<SwitchType>,
    i: int,
) -> (Option<int>, SwitchType)
    decreases servers.len() - i,
{
    if i < 0 || i >= servers.len() {
        (None::<int>, SwitchType::Offline)
    } else if servers[i].enabled && cls[i] != SwitchType::Offline {
        (Some(i), cls[i])
    } else {
        spec_winner_from(servers, cls, i + 1)
    }
}

/// The winning server of a tick: the first enabled entry, in priority
/// order, whose classification is not `Offline`.
pub open spec fn spec_winner(servers: Seq<StreamServer>, cls: Seq<SwitchType>) -> (
    Option<int>,
    SwitchType,
) {
    spec_winner_from(servers, cls, 0)
}

/// A winning index is always a position of the server list.
pub proof fn lemma_winner_bounds(servers: Seq<StreamServer>, cls: Seq<SwitchType>, i: int)
    ensures
        spec_winner_from(servers, cls, i).0 matches Some(j) ==> 0 <= j < servers.len(),
    decreases servers.len() - i,
{
    if i < 0 || i >= servers.len() {
    } else if servers[i].enabled && cls[i] != SwitchType::Offline {
    } else {
        lemma_winner_bounds(servers, cls, i + 1);
    }
}

/// Picks the winning server: `classifications` holds, for each configured
/// server in priority order, the classification its probe produced this
/// tick (entries after the winner are never inspected, so a caller that
/// stopped probing early may fill them with `Offline`).
pub fn get_online_stream_server(
    servers: &Vec<StreamServer>,
    classifications: &Vec<SwitchType>,
) -> (r: (Option<usize>, SwitchType))
    requires
        classifications@.len() == servers@.len(),
    ensures
        r.0 == match spec_winner(servers@, classifications@).0 {
            Some(i) => Some(i as usize),
            None => None::<usize>,
        },
        r.1 == spec_winner(servers@, classifications@).1,
        r.0 matches Some(i) ==> i < servers@.len(),
{
    let n: usize = servers.len();
    let mut i: usize = 0;
    while i < n
        invariant
            0 <= i <= n,
            n == servers@.len(),
            classifications@.len() == servers@.len(),
            spec_winner(servers@, classifications@) == spec_winner_from(
                servers@,
                classifications@,
                i as int,
            ),
        decreases n - i,
    {
        if servers[i].enabled && !(classifications[i] == SwitchType::Offline) {
            return (Some(i), classifications[i]);
        }
        i += 1;
    }
    (None, SwitchType::Offline)
}

/// `x + 1`, stopping at the top of the counter's range.
pub open spec fn spec_sat_inc_u8(x: u8) -> u8 {
    if x < 255 {
        (x + 1) as u8
    } else {
        255u8
    }
}

/// `x + y`, stopping at the top of the counter's range.
pub open spec fn spec_sat_add_u32(x: u32, y: u32) -> u32 {
    if x + y <= u32::MAX {
        (x + y) as u32
    } else {
        u32::MAX
    }
}

/// One debounce step: a tick classified like the run extends it, any other
/// classification starts a new run of length one.
pub open spec fn spec_debounce(ts: TickState, wtype: SwitchType) -> TickState {
    if wtype == ts.prev_switch_type {
        TickState { same_type: spec_sat_inc_u8(ts.same_type), ..ts }
    } else {
        TickState { prev_switch_type: wtype, same_type: 1u8, same_type_seconds: 0u32 }
    }
}

/// The `Previous` upgrade: a `Previous` verdict from a server other than
/// the one last used must actively re-target a scene rather than silently
/// staying put, so it becomes `Normal` and bypasses the debounce counter.
/// The second component says whether the upgrade fired.
pub open spec fn spec_upgrade(state: State, winner: Option<int>, wtype: SwitchType) -> (
    SwitchType,
    bool,
) {
    match (winner, state.switcher_state.last_used_server) {
        (Some(i), Some(last)) => {
            if wtype == SwitchType::Previous && last@
                != state.config.switcher.stream_servers@[i].name@ {
                (SwitchType::Normal, true)
            } else {
                (wtype, false)
            }
        },
        _ => (wtype, false),
    }
}

/// Everything one tick decides, as a function of the session snapshot, the
/// per-server classifications, and the carried debounce state:
///
/// 1. the first enabled server with a non-`Offline` classification wins;
///    with no winner the tick is `Offline`;
/// 2. instant recovery: an `Offline` run ending in a non-`Offline` tick
///    bypasses the counter when so configured;
/// 3. the debounce counter extends or restarts its run;
/// 4. a `Previous` verdict from a changed server upgrades to `Normal` and
///    also bypasses the counter;
/// 5. the switcher acts when the run is at least `retry_attempts` ticks
///    long or a bypass fired; otherwise, while streaming, the run's length
///    is added to its streaming seconds (which reset while not streaming);
/// 6. an acting `Offline` tick past the configured offline timeout stops
///    the stream, optionally stops the recording, and notices chat once;
///    it also re-targets the last used server for scene resolution;
/// 7. after acting the counter resets to zero.
pub open spec fn spec_plan_tick(state: State, cls: Seq<SwitchType>, ts: TickState) -> (
    TickPlan,
    TickState,
) {
    let cfg = state.config.switcher;
    let winner = spec_winner(cfg.stream_servers@, cls);
    let force_recover = cfg.instantly_switch_on_recover && ts.prev_switch_type
        == SwitchType::Offline && winner.1 != SwitchType::Offline;
    let ts1 = spec_debounce(ts, winner.1);
    let up = spec_upgrade(state, winner.0, winner.1);
    let wtype = up.0;
    let force = force_recover || up.1;
    let act = ts1.same_type >= cfg.retry_attempts || force;
    if !act {
        let secs = if state.broadcasting_software.is_streaming {
            spec_sat_add_u32(ts1.same_type_seconds, ts1.same_type as u32)
        } else {
            0u32
        };
        (
            TickPlan {
                act: false,
                switch_type: wtype,
                server: match winner.0 {
                    Some(i) => Some(i as usize),
                    None => None::<usize>,
                },
                force,
                offline_stop: false,
                offline_check_recording: false,
                offline_notice: false,
            },
            TickState { same_type_seconds: secs, ..ts1 },
        )
    } else {
        let timeout_hit = wtype == SwitchType::Offline && (
        state.config.optional_options.offline_timeout matches Some(min) && ts1.same_type_seconds
            >= min * 60);
        let server = if wtype == SwitchType::Offline {
            match state.switcher_state.last_used_server {
                Some(last) => match spec_server_index(cfg.stream_servers@, last@) {
                    Some(i) => Some(i as usize),
                    None => None::<usize>,
                },
                None => None::<usize>,
            }
        } else {
            match winner.0 {
                Some(i) => Some(i as usize),
                None => None::<usize>,
            }
        };
        (
            TickPlan {
                act: true,
                switch_type: wtype,
                server,
                force,
                offline_stop: timeout_hit,
                offline_check_recording: timeout_hit
                    && state.config.optional_options.record_while_streaming,
                offline_notice: timeout_hit && state.broadcasting_software.is_streaming
                    && state.config.chat is Some,
            },
            TickState { same_type: 0u8, ..ts1 },
        )
    }
}

/// Decides one tick of the switcher, updating the carried debounce state,
/// exactly as `spec_plan_tick` says.
#[verifier::rlimit(60)]
pub fn plan_tick(state: &State, classifications: &Vec<SwitchType>, ts: &mut TickState) -> (r:
    TickPlan)
    requires
        classifications@.len() == state.config.switcher.stream_servers@.len(),
    ensures
        r == spec_plan_tick(*state, classifications@, *old(ts)).0,
        *final(ts) == spec_plan_tick(*state, classifications@, *old(ts)).1,
{
    let cfg = &state.config.switcher;
    let n_servers: usize = cfg.stream_servers.len();
    let (winner_idx, winner_type) = get_online_stream_server(&cfg.stream_servers, classifications);
    proof {
        lemma_winner_bounds(cfg.stream_servers@, classifications@, 0);
        assert(cfg.stream_servers@.len() == n_servers);
    }

    let force_recover = cfg.instantly_switch_on_recover && ts.prev_switch_type
        == SwitchType::Offline && !(winner_type == SwitchType::Offline);

    if winner_type == ts.prev_switch_type {
        ts.same_type = if ts.same_type < 255 {
            ts.same_type + 1
        } else {
            255
        };
    } else {
        ts.prev_switch_type = winner_type;
        ts.same_type = 1;
        ts.same_type_seconds = 0;
    }

    let mut upgrade_fired = false;
    if winner_type == SwitchType::Previous {
        if let Some(i) = winner_idx {
            if let Some(last) = &state.switcher_state.last_used_server {
                upgrade_fired = !crate::text::str_eq(
                    last.as_str(),
                    cfg.stream_servers[i].name.as_str(),
                );
            }
        }
    }
    let switch_type = if upgrade_fired {
        SwitchType::Normal
    } else {
        winner_type
    };
    let force = force_recover || upgrade_fired;

    let act = ts.same_type >= cfg.retry_attempts || force;

    if !act {
        if state.broadcasting_software.is_streaming {
            let add: u32 = ts.same_type as u32;
            ts.same_type_seconds = if ts.same_type_seconds <= u32::MAX - add {
                ts.same_type_seconds + add
            } else {
                u32::MAX
            };
        } else {
            ts.same_type_seconds = 0;
        }
        return TickPlan {
            act: false,
            switch_type,
            server: winner_idx,
            force,
            offline_stop: false,
            offline_check_recording: false,
            offline_notice: false,
        };
    }

    let timeout_hit = switch_type == SwitchType::Offline && (match state
        .config
        .optional_options
        .offline_timeout {
        Some(min) => ts.same_type_seconds as u64 >= min as u64 * 60,
        None => false,
    });

    let server: Option<usize> = if switch_type == SwitchType::Offline {
        match &state.switcher_state.last_used_server {
            Some(last) => find_server_index(&cfg.stream_servers, last),
            None => None,
        }
    } else {
        winner_idx
    };

    ts.same_type = 0;

    TickPlan {
        act: true,
        switch_type,
        server,
        force,
        offline_stop: timeout_hit,
        offline_check_recording: timeout_hit && state.config.optional_options.record_while_streaming,
        offline_notice: timeout_hit && state.broadcasting_software.is_streaming
            && state.config.chat.is_some(),
    }
}

/// The scene table an acting tick resolves through: a server whose
/// dependency has no signal falls back to the dependency's backup table;
/// otherwise the server's override table applies when it has one; the
/// global default table covers everything else.
pub open spec fn spec_scenes_for(state: State, server: Option<usize>, dep_has_signal: bool) -> SwitchingScenes {
    match server {
        None => state.config.switcher.switching_scenes,
        Some(i) => {
            let s = state.config.switcher.stream_servers@[i as int];
            if s.depends_on is Some && !dep_has_signal {
                s.depends_on.unwrap().backup_scenes
            } else if s.override_scenes is Some {
                s.override_scenes.unwrap()
            } else {
                state.config.switcher.switching_scenes
            }
        },
    }
}

/// The scene an acting tick targets: `Previous` returns the stored
/// previous scene directly; everything else resolves through the active
/// scene table.
pub open spec fn spec_resolve_scene(
    state: State,
    server: Option<usize>,
    dep_has_signal: bool,
    ty: SwitchType,
) -> Seq<char> {
    if ty == SwitchType::Previous {
        state.broadcasting_software.prev_scene@
    } else {
        spec_scene_for_type(spec_scenes_for(state, server, dep_has_signal), ty)
    }
}

/// The dependency whose signal decides the scene table: the name of the
/// server that `server` depends on, if any. The caller asks that server's
/// probe for a bitrate message and passes its presence to `resolve_scene`;
/// with no dependency the flag passed there is irrelevant.
pub fn dependency_to_check(state: &State, server: &Option<usize>) -> (r: Option<String>)
    requires
        server matches Some(i) ==> i < state.config.switcher.stream_servers@.len(),
    ensures
        r == match server {
            Some(i) => match state.config.switcher.stream_servers@[*i as int].depends_on {
                Some(d) => Some(d.name),
                None => None::<String>,
            },
            None => None::<String>,
        },
{
    match server {
        None => None,
        Some(i) => match &state.config.switcher.stream_servers[*i].depends_on {
            Some(d) => Some(d.name.clone()),
            None => None,
        },
    }
}

/// Resolves the scene an acting tick targets, exactly as
/// `spec_resolve_scene` says. `dep_has_signal` reports whether the
/// resolving server's dependency currently has a bitrate message; for a
/// server without a dependency it is ignored.
pub fn resolve_scene(
    state: &State,
    server: &Option<usize>,
    dep_has_signal: bool,
    switch_type: SwitchType,
) -> (r: String)
    requires
        server matches Some(i) ==> i < state.config.switcher.stream_servers@.len(),
    ensures
        r@ == spec_resolve_scene(*state, *server, dep_has_signal, switch_type),
{
    if switch_type == SwitchType::Previous {
        return state.broadcasting_software.prev_scene.clone();
    }

    let scenes: &SwitchingScenes = match server {
        None => &state.config.switcher.switching_scenes,
        Some(i) => {
            let s = &state.config.switcher.stream_servers[*i];
            if s.depends_on.is_some() && !dep_has_signal {
                match &s.depends_on {
                    Some(d) => &d.backup_scenes,
                    None => &state.config.switcher.switching_scenes,
                }
            } else {
                match &s.override_scenes {
                    Some(o) => o,
                    None => &state.config.switcher.switching_scenes,
                }
            }
        },
    };

    match switch_type {
        SwitchType::Normal => scenes.normal.clone(),
        SwitchType::Low => scenes.low.clone(),
        SwitchType::Offline => scenes.offline.clone(),
        SwitchType::Previous => state.broadcasting_software.prev_scene.clone(),
    }
}

/// A server with a dependency that reports no signal resolves through the
/// dependency's backup scene table, whatever the server's own
/// classification (`Previous` aside, which never consults a table).
pub proof fn lemma_backup_scenes_on_dependency_offline(state: State, i: usize, ty: SwitchType)
    requires
        i < state.config.switcher.stream_servers@.len(),
        state.config.switcher.stream_servers@[i as int].depends_on is Some,
        ty != SwitchType::Previous,
    ensures
        spec_resolve_scene(state, Some(i), false, ty) == spec_scene_for_type(
            state.config.switcher.stream_servers@[i as int].depends_on.unwrap().backup_scenes,
            ty,
        ),
{
}

/// Writes an acting tick's results back into the session state: a `Normal`
/// or `Low` resolution overwrites the stored previous scene with the
/// resolved target (an `Offline` or `Previous` one never does), and any
/// non-`Offline` tick records the winning server as last used.
pub fn apply_tick_bookkeeping(
    state: &mut State,
    switch_type: SwitchType,
    scene: &String,
    server: &Option<usize>,
)
    requires
        server matches Some(i) ==> i < old(state).config.switcher.stream_servers@.len(),
    ensures
        final(state).config == old(state).config,
        final(state).switcher_state.switchable_scenes == old(state).switcher_state.switchable_scenes,
        final(state).broadcasting_software == (BroadcastingSoftwareState {
            prev_scene: final(state).broadcasting_software.prev_scene,
            ..old(state).broadcasting_software
        }),
        (switch_type == SwitchType::Normal || switch_type == SwitchType::Low)
            ==> final(state).broadcasting_software.prev_scene@ == scene@,
        !(switch_type == SwitchType::Normal || switch_type == SwitchType::Low)
            ==> final(state).broadcasting_software.prev_scene
            == old(state).broadcasting_software.prev_scene,
        switch_type != SwitchType::Offline ==> (match server {
            Some(i) => final(state).switcher_state.last_used_server matches Some(s) && s@
                == old(state).config.switcher.stream_servers@[*i as int].name@,
            None => final(state).switcher_state.last_used_server is None,
        }),
        switch_type == SwitchType::Offline ==> final(state).switcher_state.last_used_server
            == old(state).switcher_state.last_used_server,
{
    if switch_type == SwitchType::Normal || switch_type == SwitchType::Low {
        state.broadcasting_software.prev_scene = scene.clone();
    }

    if !(switch_type == SwitchType::Offline) {
        let server_name: Option<String> = match server {
            Some(i) => Some(state.config.switcher.stream_servers[*i].name.clone()),
            None => None,
        };
        state.switcher_state.last_used_server = server_name;
    }
}

/// Whether the switcher should call the underlying scene switch: never
/// when the target is already the current scene; never when the current
/// scene is not switchable (a manual scene change wins), unless the
/// starting-scene promotion applies; and, while on the starting scene with
/// that promotion configured, never towards the offline scene.
pub open spec fn spec_should_switch(state: State, scene: Seq<char>, ty: SwitchType) -> bool {
    let current = state.broadcasting_software.current_scene@;
    if current == scene {
        false
    } else {
        let on_starting_promotion = (state.config.optional_scenes.starting matches Some(s) && s@
            == current) && state.config.optional_options.switch_from_starting_scene_to_live_scene;
        if on_starting_promotion {
            ty != SwitchType::Offline
        } else {
            spec_switchable(state, current)
        }
    }
}

/// Decides whether to call the underlying scene switch, exactly as
/// `spec_should_switch` says. Asking to switch to the scene already active
/// is never carried through: the decision is idempotent.
pub fn switch_if_necessary(state: &State, switch_scene: &String, switch_type: SwitchType) -> (r:
    bool)
    ensures
        r == spec_should_switch(*state, switch_scene@, switch_type),
        state.broadcasting_software.current_scene@ == switch_scene@ ==> !r,
{
    let current = &state.broadcasting_software.current_scene;

    if crate::text::str_eq(current.as_str(), switch_scene.as_str()) {
        return false;
    }

    let on_starting_promotion = (match &state.config.optional_scenes.starting {
        Some(s) => crate::text::str_eq(s.as_str(), current.as_str()),
        None => false,
    }) && state.config.optional_options.switch_from_starting_scene_to_live_scene;

    if on_starting_promotion {
        return !(switch_type == SwitchType::Offline);
    }

    crate::state::contains_scene(&state.switcher_state.switchable_scenes, current)
}

/// The chat announcement of an automatic switch: present exactly when the
/// stream is live, automatic notifications are enabled, and a chat is
/// configured; it names the chat's platform and channel, the scene
/// switched to, and the classification that drove the switch.
pub fn auto_switch_message(state: &State, scene: &String, switch_type: SwitchType) -> (r: Option<
    AutomaticSwitchingScene,
>)
    ensures
        match state.config.chat {
            Some(chat) => {
                if state.broadcasting_software.is_streaming
                    && state.config.switcher.auto_switch_notification {
                    r matches Some(m) && m.platform == chat.platform && m.channel@
                        == chat.username@ && m.scene@ == scene@ && m.switch_type == switch_type
                } else {
                    r is None
                }
            },
            None => r is None,
        },
{
    if !(state.broadcasting_software.is_streaming
        && state.config.switcher.auto_switch_notification) {
        return None;
    }

    match &state.config.chat {
        Some(chat) => Some(
            AutomaticSwitchingScene {
                platform: chat.platform,
                channel: chat.username.clone(),
                scene: scene.clone(),
                switch_type,
            },
        ),
        None => None,
    }
}

/// The chat notice of an offline timeout: present exactly when a chat is
/// configured, addressed to its platform and channel.
pub fn offline_timeout_message(state: &State) -> (r: Option<InternalChatUpdate>)
    ensures
        match state.config.chat {
            Some(chat) => r matches Some(m) && m.platform == chat.platform && m.channel@
                == chat.username@ && m.kind is OfflineTimeout,
            None => r is None,
        },
{
    match &state.config.chat {
        Some(chat) => Some(
            InternalChatUpdate {
                platform: chat.platform,
                channel: chat.username.clone(),
                kind: InternalUpdate::OfflineTimeout,
            },
        ),
        None => None,
    }
}

/// The wake signal a tick should block on instead of probing, if any, in
/// priority order: the switcher is disabled; the broadcasting software is
/// disconnected; only-while-streaming is configured and nothing streams;
/// or the current scene is not switchable. A caller that receives a signal
/// waits for it to fire and then re-checks from the start: a wake never
/// implies the condition now holds.
pub open spec fn spec_sleep_signal(state: State) -> Option<Signal> {
    if !state.config.switcher.bitrate_switcher_enabled {
        Some(Signal::SwitcherEnabled)
    } else if state.broadcasting_software.status == ClientStatus::Disconnected {
        Some(Signal::Connected)
    } else if state.config.switcher.only_switch_when_streaming
        && !state.broadcasting_software.is_streaming {
        Some(Signal::StartStreaming)
    } else if !spec_switchable(state, state.broadcasting_software.current_scene@) {
        Some(Signal::SwitchScene)
    } else {
        None
    }
}

/// Names the wake signal the switcher must block on before this tick may
/// probe, exactly as `spec_sleep_signal` says; `None` lets the tick
/// proceed.
pub fn get_sleep_notifier_if_necessary(state: &State) -> (r: Option<Signal>)
    ensures
        r == spec_sleep_signal(*state),
{
    if !state.config.switcher.bitrate_switcher_enabled {
        return Some(Signal::SwitcherEnabled);
    }

    if state.broadcasting_software.status == ClientStatus::Disconnected {
        return Some(Signal::Connected);
    }

    if state.config.switcher.only_switch_when_streaming
        && !state.broadcasting_software.is_streaming {
        return Some(Signal::StartStreaming);
    }

    if !crate::state::contains_scene(
        &state.switcher_state.switchable_scenes,
        &state.broadcasting_software.current_scene,
    ) {
        return Some(Signal::SwitchScene);
    }

    None
}

/// The switcher never acts before the debounce run reaches the configured
/// retry attempts, except on an `Offline` to non-`Offline` transition with
/// instant recovery enabled. (The one other bypass, a `Previous` verdict
/// from a changed server, is excluded by the premise.)
pub proof fn lemma_no_early_action(state: State, cls: Seq<SwitchType>, ts: TickState)
    requires
        !spec_upgrade(
            state,
            spec_winner(state.config.switcher.stream_servers@, cls).0,
            spec_winner(state.config.switcher.stream_servers@, cls).1,
        ).1,
    ensures
        spec_plan_tick(state, cls, ts).0.act ==> (spec_debounce(
            ts,
            spec_winner(state.config.switcher.stream_servers@, cls).1,
        ).same_type >= state.config.switcher.retry_attempts || (
        state.config.switcher.instantly_switch_on_recover && ts.prev_switch_type
            == SwitchType::Offline && spec_winner(state.config.switcher.stream_servers@, cls).1
            != SwitchType::Offline)),
{
}

/// The winning classification of one tick's per-server classifications.
pub open spec fn spec_winner_type(state: State, cls: Seq<SwitchType>) -> SwitchType {
    spec_winner(state.config.switcher.stream_servers@, cls).1
}

/// The debounce state after a whole run of ticks, each given by its
/// per-server classifications, against one state snapshot.
pub open spec fn spec_run(state: State, ticks: Seq<Seq<SwitchType>>, ts: TickState) -> TickState
    decreases ticks.len(),
{
    if ticks.len() == 0 {
        ts
    } else {
        spec_plan_tick(state, ticks.last(), spec_run(state, ticks.drop_last(), ts)).1
    }
}

/// The length of the run of ticks ending the sequence whose winning
/// classifications all agree.
pub open spec fn spec_suffix_same(state: State, ticks: Seq<Seq<SwitchType>>) -> int
    decreases ticks.len(),
{
    if ticks.len() == 0 {
        0
    } else if ticks.len() == 1 {
        1
    } else if spec_winner_type(state, ticks.last()) == spec_winner_type(
        state,
        ticks[ticks.len() - 2],
    ) {
        1 + spec_suffix_same(state, ticks.drop_last())
    } else {
        1
    }
}

/// Through a whole run the debounce counter never exceeds the length of
/// the closing run of identical classifications, and after a nonempty run
/// it carries the last tick's classification.
proof fn lemma_run_counts_identical_ticks(state: State, ticks: Seq<Seq<SwitchType>>, ts0: TickState)
    requires
        ts0.same_type == 0,
    ensures
        spec_run(state, ticks, ts0).same_type <= spec_suffix_same(state, ticks),
        ticks.len() > 0 ==> spec_run(state, ticks, ts0).prev_switch_type == spec_winner_type(
            state,
            ticks.last(),
        ),
    decreases ticks.len(),
{
    if ticks.len() > 0 {
        let rest = ticks.drop_last();
        lemma_run_counts_identical_ticks(state, rest, ts0);
        let before = spec_run(state, rest, ts0);
        let w = spec_winner_type(state, ticks.last());
        let ts1 = spec_debounce(before, w);
        if rest.len() > 0 {
            assert(rest.last() == ticks[ticks.len() - 2]);
            if w == before.prev_switch_type {
                assert(ts1.same_type <= before.same_type + 1);
                assert(spec_suffix_same(state, ticks) == 1 + spec_suffix_same(state, rest));
            }
        }
    }
}

/// For any state snapshot and any sequence of per-tick classifications:
/// when the switcher acts at the end of the sequence, the winning
/// classification held for at least `retry_attempts` consecutive ticks —
/// no switch ever comes earlier. The one exception spoken for here is
/// instant recovery, which is required off; the `Previous` verdict from a
/// changed server (the other bypass) is excluded by the premise.
pub proof fn lemma_no_early_switch_in_a_run(
    state: State,
    ticks: Seq<Seq<SwitchType>>,
    ts0: TickState,
)
    requires
        ticks.len() > 0,
        ts0.same_type == 0,
        !state.config.switcher.instantly_switch_on_recover,
        !spec_upgrade(
            state,
            spec_winner(state.config.switcher.stream_servers@, ticks.last()).0,
            spec_winner(state.config.switcher.stream_servers@, ticks.last()).1,
        ).1,
    ensures
        spec_plan_tick(state, ticks.last(), spec_run(state, ticks.drop_last(), ts0)).0.act
            ==> spec_suffix_same(state, ticks) >= state.config.switcher.retry_attempts,
{
    let rest = ticks.drop_last();
    lemma_run_counts_identical_ticks(state, rest, ts0);
    let before = spec_run(state, rest, ts0);
    let w = spec_winner_type(state, ticks.last());
    let ts1 = spec_debounce(before, w);
    if rest.len() > 0 {
        assert(rest.last() == ticks[ticks.len() - 2]);
        if w == before.prev_switch_type {
            assert(ts1.same_type <= before.same_type + 1);
            assert(spec_suffix_same(state, ticks) == 1 + spec_suffix_same(state, rest));
        }
    }
    assert(ts1.same_type <= spec_suffix_same(state, ticks));
}

} // verus!
