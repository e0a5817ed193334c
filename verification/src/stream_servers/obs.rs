//! The broadcasting software itself as a probe: a media source's playback
//! state stands in for connection health.

use vstd::prelude::*;
use vstd::string::StringExecFns;

use crate::broadcasting_software::obs::MediaState;
use crate::switcher::{SwitchType, SwitchingScenes, Triggers};

verus! {

/// Watches one media source of the broadcasting software.
#[derive(Debug, Clone)]
pub struct Obs {
    /// The name of the media source.
    pub source: String,

    /// The scene table of the owning server entry, used to find the
    /// offline scene.
    pub scenes: Option<SwitchingScenes>,
}

/// The source name whose status is queried: on the offline scene the
/// stand-in source (the configured name with "_noalbs" appended) is
/// queried instead of the configured one.
pub fn stats_source_name(source: &String, current_scene: &String, offline_scene: &String) -> (r: (
    String,
    bool,
))
    ensures
        r.1 == (current_scene@ == offline_scene@),
        r.1 ==> r.0@ == source@ + "_noalbs"@,
        !r.1 ==> r.0@ == source@,
{
    if crate::text::str_eq(current_scene.as_str(), offline_scene.as_str()) {
        let mut name = source.clone();
        name.append("_noalbs");
        (name, true)
    } else {
        (source.clone(), false)
    }
}

/// Classifies the watched source's playback state: only a source that has
/// been playing for at least three seconds counts as `Normal`; everything
/// else, including an unanswerable query (`None`), is `Offline`. The
/// configured triggers play no part.
pub fn switch(stats: &Option<(MediaState, i64)>, _triggers: &Triggers) -> (r: SwitchType)
    ensures
        r == match stats {
            Some(s) => if s.0 == MediaState::Playing && s.1 >= 3 {
                SwitchType::Normal
            } else {
                SwitchType::Offline
            },
            None => SwitchType::Offline,
        },
{
    let (state, sec) = match stats {
        Some(s) => (s.0, s.1),
        None => {
            return SwitchType::Offline;
        },
    };

    if state == MediaState::Playing && sec >= 3 {
        return SwitchType::Normal;
    }

    SwitchType::Offline
}

/// The playback state a bitrate query reports, present exactly when the
/// query was answered.
pub fn bitrate(stats: &Option<(MediaState, i64)>) -> (r: Option<MediaState>)
    ensures
        match stats {
            None => r is None,
            Some(s) => r == Some(s.0),
        },
{
    match stats {
        None => None,
        Some(s) => Some(s.0),
    }
}

} // verus!
