//! Media-source discovery and recovery planning: walking the nested scene
//! tree for active network-fed media sources, and deciding which of them a
//! "fix" should nudge back to life.

use vstd::prelude::*;
use vstd::string::StrSliceExecFns;

use crate::text::{lower_of, lowercase};

verus! {

/// The playback state of a media source, as the broadcasting software
/// reports it.
#[derive(Debug, Clone, Copy, PartialEq, Eq, Structural)]
pub enum MediaState {
    Playing,
    Opening,
    Buffering,
    Paused,
    Stopped,
    Ended,
    Errored,
    Unknown,
}

/// A media state in which a source is considered active.
pub open spec fn spec_media_active(s: MediaState) -> bool {
    s == MediaState::Playing || s == MediaState::Buffering || s == MediaState::Opening
}

/// A media source found in a scene.
#[derive(Debug, Clone)]
pub struct SourceItem {
    pub id: i64,
    pub scene_name: String,
    pub source_name: String,
    pub source_kind: String,
}

/// Settings of an FFmpeg media source: the remote URL, when it does not
/// play a local file.
#[derive(Debug, Clone)]
pub struct FfmpegSource {
    pub input: Option<String>,
}

/// Settings of a VLC media source: the playlist it cycles through.
#[derive(Debug, Clone)]
pub struct VlcSource {
    pub playlist: Vec<SlideshowFile>,
}

/// A single playlist entry of a VLC source.
#[derive(Debug, Clone)]
pub struct SlideshowFile {
    pub value: String,
}

/// One item of a scene, as listed by the broadcasting software.
#[derive(Debug, Clone)]
pub struct SceneItem {
    pub id: i64,
    pub source_name: String,
    pub source_kind: String,
    /// The playback state, for media sources whose state could be queried.
    pub media_state: Option<MediaState>,
    /// Whether a nested scene is a group (they are listed differently).
    pub is_group: bool,
}

/// An input URL is network-delivered when it uses one of these schemes.
pub open spec fn spec_net_input(lowered: Seq<char>) -> bool {
    spec_seq_prefix(lowered, "rtmp"@) || spec_seq_prefix(lowered, "srt"@) || spec_seq_prefix(
        lowered,
        "udp"@,
    )
}

/// `p` is a prefix of `s`.
pub open spec fn spec_seq_prefix(s: Seq<char>, p: Seq<char>) -> bool {
    s.len() >= p.len() && s.subrange(0, p.len() as int) == p
}

/// Whether any of the source's input URLs is network-delivered (rtmp, srt
/// or udp), compared case-insensitively. Only such sources are worth
/// nudging: everything else plays local data that cannot stall.
pub fn needs_restart(media_inputs: &Vec<String>) -> (r: bool)
    ensures
        r == exists|i: int|
            0 <= i < media_inputs@.len() && spec_net_input(lower_of(media_inputs@[i]@)),
{
    let n: usize = media_inputs.len();
    let mut i: usize = 0;
    while i < n
        invariant
            0 <= i <= n,
            n == media_inputs@.len(),
            forall|j: int| 0 <= j < i ==> !spec_net_input(lower_of(media_inputs@[j]@)),
        decreases n - i,
    {
        let lowered = lowercase(media_inputs[i].as_str());
        if starts_with(lowered.as_str(), "rtmp") || starts_with(lowered.as_str(), "srt")
            || starts_with(lowered.as_str(), "udp") {
            return true;
        }
        i += 1;
    }
    false
}

/// Whether `p` is a prefix of `s`, by characters.
pub fn starts_with(s: &str, p: &str) -> (r: bool)
    ensures
        r == spec_seq_prefix(s@, p@),
{
    let n: usize = p.unicode_len();
    if s.unicode_len() < n {
        return false;
    }
    let prefix = s.substring_char(0, n);
    crate::text::str_eq(prefix, p)
}

/// A nested scene queued for listing: group scenes are listed through a
/// different call than plain ones.
#[derive(Debug, Clone)]
pub struct PendingScene {
    pub name: String,
    pub group: bool,
}

/// The walk over the nested scene tree that discovers active media
/// sources. The caller drives it: `next_scene` names the scene to list,
/// the caller fetches that scene's items and feeds them back, and at the
/// end `sources` holds every active media source found. Scenes are
/// entered at most once (the starting scene aside), exactly as the
/// visited list says.
#[derive(Debug, Clone)]
pub struct MediaSourceScan {
    /// Nested scenes already queued, which the walk will not queue again.
    pub visited: Vec<String>,
    /// Scenes queued and not yet listed.
    pub pending: Vec<PendingScene>,
    /// The active media sources found so far.
    pub sources: Vec<SourceItem>,
}

/// A source kind whose playback can stall: an FFmpeg or VLC media source.
pub open spec fn spec_is_media_kind(kind: Seq<char>) -> bool {
    kind == "ffmpeg_source"@ || kind == "vlc_source"@
}

/// What feeding one listed item does to the scan: an active media source
/// is collected; an unvisited nested scene is queued and marked visited;
/// everything else is passed over.
pub open spec fn spec_feed_item(
    m: (Seq<SourceItem>, Seq<String>, Seq<PendingScene>),
    scene: String,
    item: SceneItem,
) -> (Seq<SourceItem>, Seq<String>, Seq<PendingScene>) {
    if spec_is_media_kind(item.source_kind@) {
        if item.media_state matches Some(st) && spec_media_active(st) {
            (
                m.0.push(
                    SourceItem {
                        id: item.id,
                        scene_name: scene,
                        source_name: item.source_name,
                        source_kind: item.source_kind,
                    },
                ),
                m.1,
                m.2,
            )
        } else {
            m
        }
    } else if item.source_kind@ == "scene"@ && !crate::state::spec_contains_scene(
        m.1,
        item.source_name@,
    ) {
        (
            m.0,
            m.1.push(item.source_name),
            m.2.push(PendingScene { name: item.source_name, group: item.is_group }),
        )
    } else {
        m
    }
}

/// `spec_feed_item` folded over a scene's item list.
pub open spec fn spec_feed(
    m: (Seq<SourceItem>, Seq<String>, Seq<PendingScene>),
    scene: String,
    items: Seq<SceneItem>,
) -> (Seq<SourceItem>, Seq<String>, Seq<PendingScene>)
    decreases items.len(),
{
    if items.len() == 0 {
        m
    } else {
        spec_feed_item(spec_feed(m, scene, items.drop_last()), scene, items.last())
    }
}

impl MediaSourceScan {
    /// The scan's three lists as one value.
    pub open spec fn model(&self) -> (Seq<SourceItem>, Seq<String>, Seq<PendingScene>) {
        (self.sources@, self.visited@, self.pending@)
    }

    /// A fresh walk, about to enter `start` (the current scene).
    pub fn new(start: String) -> (r: MediaSourceScan)
        ensures
            r.sources@.len() == 0,
            r.visited@.len() == 0,
            r.pending@ == seq![PendingScene { name: start, group: false }],
    {
        let mut pending: Vec<PendingScene> = Vec::new();
        pending.push(PendingScene { name: start, group: false });
        MediaSourceScan { visited: Vec::new(), pending, sources: Vec::new() }
    }

    /// The next scene to list, if any is still queued.
    pub fn next_scene(&mut self) -> (r: Option<PendingScene>)
        ensures
            old(self).pending@.len() == 0 ==> r is None && *final(self) == *old(self),
            old(self).pending@.len() > 0 ==> r == Some(old(self).pending@.last())
                && final(self).pending@ == old(self).pending@.drop_last() && final(self).visited
                == old(self).visited && final(self).sources == old(self).sources,
    {
        if self.pending.len() == 0 {
            None
        } else {
            self.pending.pop()
        }
    }

    /// Feeds the listed items of `scene` into the walk, exactly as
    /// `spec_feed` says.
    pub fn feed(&mut self, scene: &String, items: &Vec<SceneItem>)
        ensures
            final(self).model() == spec_feed(old(self).model(), *scene, items@),
    {
        let ghost m0 = self.model();
        let n: usize = items.len();
        let mut i: usize = 0;
        proof {
            assert(items@.take(0int).len() == 0);
        }
        while i < n
            invariant
                0 <= i <= n,
                n == items@.len(),
                self.model() == spec_feed(m0, *scene, items@.take(i as int)),
            decreases n - i,
        {
            proof {
                assert(items@.take(i as int + 1).drop_last() =~= items@.take(i as int));
                assert(items@.take(i as int + 1).last() == items@[i as int]);
            }
            let item = &items[i];
            let is_media = crate::text::str_eq(item.source_kind.as_str(), "ffmpeg_source")
                || crate::text::str_eq(item.source_kind.as_str(), "vlc_source");
            if is_media {
                let active = match item.media_state {
                    Some(st) => st == MediaState::Playing || st == MediaState::Buffering || st
                        == MediaState::Opening,
                    None => false,
                };
                if active {
                    self.sources.push(
                        SourceItem {
                            id: item.id,
                            scene_name: scene.clone(),
                            source_name: item.source_name.clone(),
                            source_kind: item.source_kind.clone(),
                        },
                    );
                }
            } else if crate::text::str_eq(item.source_kind.as_str(), "scene") {
                if !crate::state::contains_scene(&self.visited, &item.source_name) {
                    self.visited.push(item.source_name.clone());
                    self.pending.push(
                        PendingScene { name: item.source_name.clone(), group: item.is_group },
                    );
                }
            }
            i += 1;
        }
        proof {
            assert(items@.take(n as int) =~= items@);
        }
    }
}

/// The sources a fix must nudge: those of the discovered media sources
/// whose input URLs are network-delivered, in discovery order.
pub open spec fn spec_plan_fix(items: Seq<(SourceItem, Vec<String>)>) -> Seq<SourceItem>
    decreases items.len(),
{
    if items.len() == 0 {
        Seq::<SourceItem>::empty()
    } else {
        let rest = spec_plan_fix(items.drop_last());
        if spec_any_net_input(items.last().1@) {
            rest.push(items.last().0)
        } else {
            rest
        }
    }
}

/// Whether any of the given input URLs is network-delivered, compared
/// case-insensitively.
pub open spec fn spec_any_net_input(inputs: Seq<String>) -> bool {
    exists|i: int| 0 <= i < inputs.len() && spec_net_input(lower_of(#[trigger] inputs[i]@))
}

/// Plans a fix over the discovered media sources and their input URLs:
/// exactly the network-fed ones are nudged (visibility off and on, or a
/// settings reset), in discovery order.
pub fn plan_fix(items: &Vec<(SourceItem, Vec<String>)>) -> (r: Vec<SourceItem>)
    ensures
        r@ == spec_plan_fix(items@),
{
    let mut out: Vec<SourceItem> = Vec::new();
    let n: usize = items.len();
    let mut i: usize = 0;
    proof {
        assert(items@.take(0int).len() == 0);
    }
    while i < n
        invariant
            0 <= i <= n,
            n == items@.len(),
            out@ == spec_plan_fix(items@.take(i as int)),
        decreases n - i,
    {
        proof {
            assert(items@.take(i as int + 1).drop_last() =~= items@.take(i as int));
            assert(items@.take(i as int + 1).last() == items@[i as int]);
        }
        if needs_restart(&items[i].1) {
            let item = &items[i].0;
            out.push(
                SourceItem {
                    id: item.id,
                    scene_name: item.scene_name.clone(),
                    source_name: item.source_name.clone(),
                    source_kind: item.source_kind.clone(),
                },
            );
            proof {
                assert(out@.last() == items@[i as int].0);
            }
        }
        i += 1;
    }
    proof {
        assert(items@.take(n as int) =~= items@);
    }
    out
}

} // verus!
