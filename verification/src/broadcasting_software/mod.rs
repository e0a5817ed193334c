//! The broadcasting-software side of the core: state synchronisation from
//! connection events, reconnect backoff, fuzzy scene-name resolution, and
//! recovery of stalled media sources.

use vstd::prelude::*;

use crate::state::{
    spec_status_dominates, spec_switchable, ClientStatus, State, StreamStatus,
};
use crate::switcher::Signal;
use crate::text::{lower_of, lowercase, edit_distance_of, edit_distance};

pub mod obs;
pub mod obs_v5;

verus! {

/// An event of the broadcasting software's stream that the connection's
/// event task forwards into the session state.
#[derive(Debug, Clone)]
pub enum ConnectionEvent {
    /// The active scene changed, by whatever hand.
    SceneChanged { scene_name: String },
    /// Streaming started, at `at` seconds since an arbitrary fixed origin.
    StreamStarted { at: u64 },
    /// Streaming stopped.
    StreamStopped,
    /// A telemetry sample arrived.
    StreamStatus(StreamStatus),
}

/// Feeds one connection event into the session state and names the wake
/// signal to fire, if any:
///
/// - a scene change records the new scene and, when it is switchable,
///   wakes a switcher blocked on the scene-switchable gate;
/// - a stream start records the time, marks the stream live and wakes a
///   switcher blocked on the streaming gate;
/// - a stream stop marks the stream down and discards the telemetry;
/// - a telemetry sample becomes the baseline if none is set, and otherwise
///   is stored as the delta against the baseline.
pub fn handle_event(state: &mut State, event: ConnectionEvent) -> (r: Option<Signal>)
    requires
        event matches ConnectionEvent::StreamStatus(ss) ==> (
        old(state).broadcasting_software.initial_stream_status matches Some(b)
            ==> spec_status_dominates(ss, b)),
    ensures
        final(state).config == old(state).config,
        final(state).switcher_state == old(state).switcher_state,
        match event {
            ConnectionEvent::SceneChanged { scene_name } => {
                &&& final(state).broadcasting_software == (crate::state::BroadcastingSoftwareState {
                    current_scene: scene_name,
                    ..old(state).broadcasting_software
                })
                &&& r == if spec_switchable(*old(state), scene_name@) {
                    Some(Signal::SwitchScene)
                } else {
                    None::<Signal>
                }
            },
            ConnectionEvent::StreamStarted { at } => {
                &&& final(state).broadcasting_software == (crate::state::BroadcastingSoftwareState {
                    is_streaming: true,
                    last_stream_started_at: at,
                    ..old(state).broadcasting_software
                })
                &&& r == Some(Signal::StartStreaming)
            },
            ConnectionEvent::StreamStopped => {
                &&& final(state).broadcasting_software == (crate::state::BroadcastingSoftwareState {
                    is_streaming: false,
                    stream_status: None,
                    initial_stream_status: None,
                    ..old(state).broadcasting_software
                })
                &&& r is None
            },
            ConnectionEvent::StreamStatus(ss) => {
                &&& (old(state).broadcasting_software.initial_stream_status is None
                    ==> final(state).broadcasting_software == (
                crate::state::BroadcastingSoftwareState {
                    initial_stream_status: Some(ss),
                    ..old(state).broadcasting_software
                }))
                &&& (old(state).broadcasting_software.initial_stream_status matches Some(b) ==> (
                final(state).broadcasting_software == (crate::state::BroadcastingSoftwareState {
                    stream_status: final(state).broadcasting_software.stream_status,
                    ..old(state).broadcasting_software
                }) && (final(state).broadcasting_software.stream_status matches Some(cur)
                    && cur.bitrate == ss.bitrate && cur.fps == ss.fps && cur.num_total_frames
                    == ss.num_total_frames - b.num_total_frames && cur.num_dropped_frames
                    == ss.num_dropped_frames - b.num_dropped_frames && cur.render_total_frames
                    == ss.render_total_frames - b.render_total_frames && cur.render_missed_frames
                    == ss.render_missed_frames - b.render_missed_frames && cur.output_total_frames
                    == ss.output_total_frames - b.output_total_frames && cur.output_skipped_frames
                    == ss.output_skipped_frames - b.output_skipped_frames)))
                &&& r is None
            },
        },
{
    match event {
        ConnectionEvent::SceneChanged { scene_name } => {
            let switchable = crate::state::contains_scene(
                &state.switcher_state.switchable_scenes,
                &scene_name,
            );
            state.broadcasting_software.current_scene = scene_name;
            if switchable {
                Some(Signal::SwitchScene)
            } else {
                None
            }
        },
        ConnectionEvent::StreamStarted { at } => {
            state.broadcasting_software.is_streaming = true;
            state.broadcasting_software.last_stream_started_at = at;
            Some(Signal::StartStreaming)
        },
        ConnectionEvent::StreamStopped => {
            state.broadcasting_software.is_streaming = false;
            state.broadcasting_software.stream_status = None;
            state.broadcasting_software.initial_stream_status = None;
            None
        },
        ConnectionEvent::StreamStatus(ss) => {
            match &state.broadcasting_software.initial_stream_status {
                None => {
                    state.broadcasting_software.initial_stream_status = Some(ss);
                },
                Some(baseline) => {
                    let current = ss.calculate_current(baseline);
                    state.broadcasting_software.stream_status = Some(current);
                },
            }
            None
        },
    }
}

/// Synchronizes the session state after a fresh connection: records the
/// scene and streaming status the software reports, marks the connection
/// up, and names the wake signals to fire, in order: the connected signal
/// always; the streaming signal when the software already streams; the
/// scene-switchable signal when the reported scene is switchable.
pub fn handle_connected(state: &mut State, current_scene: String, is_streaming: bool) -> (r: Vec<
    Signal,
>)
    ensures
        final(state).config == old(state).config,
        final(state).switcher_state == old(state).switcher_state,
        final(state).broadcasting_software == (crate::state::BroadcastingSoftwareState {
            current_scene: current_scene,
            is_streaming: is_streaming,
            status: ClientStatus::Connected,
            ..old(state).broadcasting_software
        }),
        r@ == seq![Signal::Connected] + (if is_streaming {
            seq![Signal::StartStreaming]
        } else {
            Seq::<Signal>::empty()
        }) + (if spec_switchable(*old(state), current_scene@) {
            seq![Signal::SwitchScene]
        } else {
            Seq::<Signal>::empty()
        }),
{
    let ghost cs = current_scene@;
    let switchable = crate::state::contains_scene(
        &state.switcher_state.switchable_scenes,
        &current_scene,
    );

    state.broadcasting_software.current_scene = current_scene;
    state.broadcasting_software.is_streaming = is_streaming;
    state.broadcasting_software.status = ClientStatus::Connected;

    let mut signals: Vec<Signal> = Vec::new();
    signals.push(Signal::Connected);
    if is_streaming {
        signals.push(Signal::StartStreaming);
    }
    if switchable {
        signals.push(Signal::SwitchScene);
    }
    proof {
        assert(signals@ =~= seq![Signal::Connected] + (if is_streaming {
            seq![Signal::StartStreaming]
        } else {
            Seq::<Signal>::empty()
        }) + (if spec_switchable(*old(state), cs) {
            seq![Signal::SwitchScene]
        } else {
            Seq::<Signal>::empty()
        }));
    }
    signals
}

/// Synchronizes the session state after the connection dropped: marks the
/// connection down and the stream not live, and discards the in-flight
/// telemetry.
pub fn handle_disconnected(state: &mut State)
    ensures
        final(state).config == old(state).config,
        final(state).switcher_state == old(state).switcher_state,
        final(state).broadcasting_software == (crate::state::BroadcastingSoftwareState {
            status: ClientStatus::Disconnected,
            is_streaming: false,
            stream_status: None,
            initial_stream_status: None,
            ..old(state).broadcasting_software
        }),
{
    state.broadcasting_software.status = ClientStatus::Disconnected;
    state.broadcasting_software.is_streaming = false;
    state.broadcasting_software.stream_status = None;
    state.broadcasting_software.initial_stream_status = None;
}

/// Capped exponential backoff between reconnect attempts: 2, 4, 8, 16 and
/// then 32 seconds after each further failure.
#[derive(Debug, Clone, Copy)]
pub struct RetryBackoff {
    /// The current growth step; starts at 1 and never exceeds `max_grow`.
    pub grow: u32,
    /// The step at which the delay stops growing.
    pub max_grow: u32,
}

impl RetryBackoff {
    /// A fresh backoff: first delay `2` seconds, capped at `1 << max_grow`
    /// seconds.
    pub fn new(max_grow: u32) -> (r: RetryBackoff)
        requires
            1 <= max_grow < 64,
        ensures
            r.grow == 1,
            r.max_grow == max_grow,
            r.wf(),
    {
        RetryBackoff { grow: 1, max_grow }
    }

    /// The backoff is within the range whose delays fit in a `u64`.
    pub open spec fn wf(&self) -> bool {
        1 <= self.grow <= self.max_grow < 64
    }

    /// The delay before the next attempt, in seconds, growing the step for
    /// the attempt after it.
    pub fn next_delay_secs(&mut self) -> (r: u64)
        requires
            old(self).wf(),
        ensures
            r == (1u64 << old(self).grow),
            final(self).max_grow == old(self).max_grow,
            final(self).grow == if old(self).grow < old(self).max_grow {
                old(self).grow + 1
            } else {
                old(self).grow as int
            },
            final(self).wf(),
    {
        let wait: u64 = 1u64 << self.grow;
        if self.grow < self.max_grow {
            self.grow += 1;
        }
        wait
    }
}

/// The edit distance between the lowercased query `q` and the lowercased
/// candidate: how far the two names are apart.
pub open spec fn spec_match_distance(q: Seq<char>, cand: Seq<char>) -> nat {
    edit_distance_of(q, lower_of(cand))
}

/// The length scale the distance is judged against: the longer of the two
/// lowercased names, and at least one so that two empty names score
/// perfect rather than dividing by zero.
pub open spec fn spec_match_scale(q: Seq<char>, cand: Seq<char>) -> nat {
    let m = if q.len() >= lower_of(cand).len() {
        q.len()
    } else {
        lower_of(cand).len()
    };
    if m == 0 {
        1
    } else {
        m
    }
}

/// Candidate `a` matches the query strictly better than candidate `b`:
/// its distance, relative to its length scale, is strictly smaller
/// (compared exactly, by cross-multiplication).
pub open spec fn spec_closer_match(q: Seq<char>, a: Seq<char>, b: Seq<char>) -> bool {
    spec_match_distance(q, a) * spec_match_scale(q, b) < spec_match_distance(q, b)
        * spec_match_scale(q, a)
}

/// `k` names the best match for the lowercased query `q` among `names`:
/// no candidate matches strictly better, and `k` is the first index doing
/// so well.
pub open spec fn spec_best_match(q: Seq<char>, names: Seq<String>, k: int) -> bool {
    &&& 0 <= k < names.len()
    &&& forall|j: int|
        0 <= j < names.len() ==> !spec_closer_match(q, #[trigger] names[j]@, names[k]@)
    &&& forall|j: int| 0 <= j < k ==> spec_closer_match(q, names[k]@, #[trigger] names[j]@)
}

/// Picks the candidate closest to `query` under the Damerau-Levenshtein
/// distance of the lowercased names, scaled by their lengths; among ties
/// the first wins. `None` exactly when there are no candidates.
pub fn fuzzy_best_index(query: &str, names: &Vec<String>) -> (r: Option<usize>)
    ensures
        r is None <==> names@.len() == 0,
        r matches Some(k) ==> spec_best_match(lower_of(query@), names@, k as int),
{
    let n: usize = names.len();
    if n == 0 {
        return None;
    }

    let lowered_query = lowercase(query);
    let ghost q = lower_of(query@);
    let query_len: usize = lowered_query.as_str().unicode_len();

    let first_lowered = lowercase(names[0].as_str());
    let mut best: usize = 0;
    let mut best_d: usize = edit_distance(lowered_query.as_str(), first_lowered.as_str());
    let mut best_m: usize = scale_of(query_len, first_lowered.as_str().unicode_len());
    proof {
        assert(best_d == spec_match_distance(q, names@[0]@));
        assert(best_m == spec_match_scale(q, names@[0]@));
    }

    let mut i: usize = 1;
    while i < n
        invariant
            1 <= i <= n,
            n == names@.len(),
            0 <= best < i,
            lowered_query@ == q,
            query_len == q.len(),
            best_d == spec_match_distance(q, names@[best as int]@),
            best_m == spec_match_scale(q, names@[best as int]@),
            forall|j: int|
                0 <= j < i ==> !spec_closer_match(q, #[trigger] names@[j]@, names@[best as int]@),
            forall|j: int|
                0 <= j < best ==> spec_closer_match(q, names@[best as int]@, #[trigger] names@[j]@),
        decreases n - i,
    {
        let cand_lowered = lowercase(names[i].as_str());
        let d: usize = edit_distance(lowered_query.as_str(), cand_lowered.as_str());
        let m: usize = scale_of(query_len, cand_lowered.as_str().unicode_len());
        proof {
            assert(d == spec_match_distance(q, names@[i as int]@));
            assert(m == spec_match_scale(q, names@[i as int]@));
        }
        proof {
            assert((d as int) * (best_m as int) < u128::MAX as int) by (nonlinear_arith)
                requires
                    0 <= d <= u64::MAX,
                    0 <= best_m <= u64::MAX,
            ;
            assert((best_d as int) * (m as int) < u128::MAX as int) by (nonlinear_arith)
                requires
                    0 <= best_d <= u64::MAX,
                    0 <= m <= u64::MAX,
            ;
        }
        let ghost old_best = best as int;
        if (d as u128) * (best_m as u128) < (best_d as u128) * (m as u128) {
            proof {
                assert(spec_closer_match(q, names@[i as int]@, names@[old_best]@));
            }
            best = i;
            best_d = d;
            best_m = m;
            proof {
                assert forall|j: int|
                    0 <= j < i + 1 implies !spec_closer_match(
                    q,
                    #[trigger] names@[j]@,
                    names@[i as int]@,
                ) by {
                    if j < i {
                        lemma_closer_shift(q, names@[j]@, names@[old_best]@, names@[i as int]@);
                    } else {
                        lemma_closer_irreflexive(q, names@[i as int]@);
                    }
                }
                assert forall|j: int|
                    0 <= j < i implies spec_closer_match(
                    q,
                    names@[i as int]@,
                    #[trigger] names@[j]@,
                ) by {
                    lemma_closer_shift(q, names@[j]@, names@[old_best]@, names@[i as int]@);
                }
            }
        } else {
            proof {
                assert(!spec_closer_match(q, names@[i as int]@, names@[best as int]@));
            }
        }
        i += 1;
    }

    Some(best)
}

/// Nothing matches strictly better than itself.
proof fn lemma_closer_irreflexive(q: Seq<char>, a: Seq<char>)
    ensures
        !spec_closer_match(q, a, a),
{
}

/// When `a` matches no better than `b` and `c` matches strictly better
/// than `b`, then `c` also matches strictly better than `a` (and not the
/// other way round).
proof fn lemma_closer_shift(q: Seq<char>, a: Seq<char>, b: Seq<char>, c: Seq<char>)
    requires
        !spec_closer_match(q, a, b),
        spec_closer_match(q, c, b),
    ensures
        spec_closer_match(q, c, a),
        !spec_closer_match(q, a, c),
{
    let da = spec_match_distance(q, a) as int;
    let ma = spec_match_scale(q, a) as int;
    let db = spec_match_distance(q, b) as int;
    let mb = spec_match_scale(q, b) as int;
    let dc = spec_match_distance(q, c) as int;
    let mc = spec_match_scale(q, c) as int;
    assert(ma >= 1 && mb >= 1 && mc >= 1);
    assert(dc * ma < da * mc) by (nonlinear_arith)
        requires
            da * mb >= db * ma,
            dc * mb < db * mc,
            ma >= 1,
            mb >= 1,
            mc >= 1,
            da >= 0,
            db >= 0,
            dc >= 0,
    ;
}

/// The length scale of a candidate against a query of `query_len`
/// characters: the longer of the two lowered lengths, and at least one.
fn scale_of(query_len: usize, cand_len: usize) -> (r: usize)
    ensures
        r == (if query_len >= cand_len {
            if query_len == 0 {
                1int
            } else {
                query_len as int
            }
        } else {
            cand_len as int
        }),
{
    let m = if query_len >= cand_len {
        query_len
    } else {
        cand_len
    };
    if m == 0 {
        1
    } else {
        m
    }
}

/// Resolves a requested scene name against the live scene list: the
/// closest match wins, tolerating case and typo drift; with no scene list
/// available the lowercased request stands as is.
pub fn resolve_scene_name(scene: &str, scenes: &Vec<String>) -> (r: String)
    ensures
        scenes@.len() == 0 ==> r@ == lower_of(scene@),
        scenes@.len() > 0 ==> exists|k: int|
            #[trigger] spec_best_match(lower_of(scene@), scenes@, k) && r@ == scenes@[k]@,
{
    match fuzzy_best_index(scene, scenes) {
        Some(k) => {
            let ghost kk = k as int;
            let r = scenes[k].clone();
            proof {
                assert(spec_best_match(lower_of(scene@), scenes@, kk) && r@ == scenes@[kk]@);
            }
            r
        },
        None => lowercase(scene),
    }
}

} // verus!
