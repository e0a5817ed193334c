//! Stream-server entries: the ordered, prioritised list of telemetry
//! sources the switcher consults, and the per-backend reading types.

use vstd::prelude::*;

use crate::switcher::{SwitchType, SwitchingScenes, Triggers};

pub mod belabox;
pub mod mediamtx;
pub mod nginx;
pub mod nimble;
pub mod nms;
pub mod obs;
pub mod rist;
pub mod sls;
pub mod xiu;

verus! {

/// What a probe answers to a bitrate query: a human-readable reading, or
/// `None` for "no signal / offline".
#[derive(Debug)]
pub struct Bitrate {
    pub message: Option<String>,
}

/// One configured stream server. The order of the surrounding list is the
/// priority order in which servers are consulted each tick.
#[derive(Debug, Clone)]
pub struct StreamServer {
    /// A name to differentiate in case of multiple stream servers.
    pub name: String,

    /// Priority; entries are kept sorted ascending, smaller first.
    pub priority: Option<i32>,

    /// Scene table that overrides the global default for this server.
    pub override_scenes: Option<SwitchingScenes>,

    /// Another server this one depends on, with the scenes to use while
    /// that dependency is offline.
    pub depends_on: Option<DependsOn>,

    /// A disabled server is skipped entirely when probing.
    pub enabled: bool,
}

/// A dependency of a stream server on another server's signal.
#[derive(Debug, Clone)]
pub struct DependsOn {
    pub name: String,
    pub backup_scenes: SwitchingScenes,
}

/// The default for a server entry whose configuration does not say whether
/// it is enabled.
pub fn default_server_enabled() -> (r: bool)
    ensures
        r,
{
    true
}

/// The classification policy every probe backend applies to a reading it
/// managed to take, in order: the offline bitrate trigger, the offline
/// round-trip-time trigger, a zero bitrate (a startup or transient blip,
/// held as `Previous`), the low bitrate trigger, the low round-trip-time
/// trigger, and `Normal` when none fires. A backend without round-trip-time
/// telemetry passes `None` for `rtt` and the two round-trip-time triggers
/// never fire. Bitrates are in Kbps, round-trip times in milliseconds.
pub open spec fn spec_classify(bitrate: int, rtt: Option<int>, t: Triggers) -> SwitchType {
    if (t.offline matches Some(o) && bitrate > 0 && bitrate <= o) {
        SwitchType::Offline
    } else if (t.rtt_offline matches Some(ro) && rtt matches Some(r) && r >= ro) {
        SwitchType::Offline
    } else if bitrate == 0 {
        SwitchType::Previous
    } else if (t.low matches Some(l) && bitrate <= l) {
        SwitchType::Low
    } else if (t.rtt matches Some(rt) && rtt matches Some(r) && r >= rt) {
        SwitchType::Low
    } else {
        SwitchType::Normal
    }
}

/// Classifies a reading of `bitrate` Kbps and optional `rtt` milliseconds
/// against the configured triggers, exactly as `spec_classify` says.
pub fn classify_reading(bitrate: i128, rtt: Option<u64>, triggers: &Triggers) -> (r: SwitchType)
    ensures
        r == spec_classify(
            bitrate as int,
            match rtt {
                Some(v) => Some(v as int),
                None => None,
            },
            *triggers,
        ),
{
    if let Some(offline) = triggers.offline {
        if bitrate > 0 && bitrate <= offline as i128 {
            return SwitchType::Offline;
        }
    }

    if let Some(rtt_offline) = triggers.rtt_offline {
        if let Some(rtt_value) = rtt {
            if rtt_value >= rtt_offline as u64 {
                return SwitchType::Offline;
            }
        }
    }

    if bitrate == 0 {
        return SwitchType::Previous;
    }

    if let Some(low) = triggers.low {
        if bitrate <= low as i128 {
            return SwitchType::Low;
        }
    }

    if let Some(rtt_trigger) = triggers.rtt {
        if let Some(rtt_value) = rtt {
            if rtt_value >= rtt_trigger as u64 {
                return SwitchType::Low;
            }
        }
    }

    SwitchType::Normal
}

/// The first index of `servers` whose entry is named `name`, if any.
pub open spec fn spec_server_index(servers: Seq<StreamServer>, name: Seq<char>) -> Option<int>
    decreases servers.len(),
{
    if servers.len() == 0 {
        None
    } else if servers[0].name@ == name {
        Some(0int)
    } else {
        match spec_server_index(servers.skip(1), name) {
            None => None,
            Some(i) => Some(i + 1),
        }
    }
}

/// `spec_server_index` restarted at position `i`.
pub open spec fn spec_server_index_from(
    servers: Seq<StreamServer>,
    name: Seq<char>,
    i: int,
) -> Option<int> {
    match spec_server_index(servers.skip(i), name) {
        None => None,
        Some(k) => Some(i + k),
    }
}

proof fn lemma_server_index_step(servers: Seq<StreamServer>, name: Seq<char>, i: int)
    requires
        0 <= i < servers.len(),
    ensures
        servers[i].name@ == name ==> spec_server_index_from(servers, name, i) == Some(i),
        servers[i].name@ != name ==> spec_server_index_from(servers, name, i)
            == spec_server_index_from(servers, name, i + 1),
{
    assert(servers.skip(i)[0] == servers[i]);
    assert(servers.skip(i).skip(1) =~= servers.skip(i + 1));
}

/// Finds the first server entry with the given name.
pub fn find_server_index(servers: &Vec<StreamServer>, name: &String) -> (r: Option<usize>)
    ensures
        match spec_server_index(servers@, name@) {
            Some(i) => r == Some(i as usize),
            None => r is None,
        },
{
    proof {
        assert(servers@.skip(0) =~= servers@);
    }
    let n: usize = servers.len();
    let mut i: usize = 0;
    while i < n
        invariant
            0 <= i <= n,
            n == servers@.len(),
            spec_server_index(servers@, name@) == spec_server_index_from(servers@, name@, i as int),
        decreases n - i,
    {
        proof {
            lemma_server_index_step(servers@, name@, i as int);
        }
        if crate::text::str_eq(servers[i].name.as_str(), name.as_str()) {
            return Some(i);
        }
        i += 1;
    }
    proof {
        assert(servers@.skip(n as int).len() == 0);
    }
    None
}

} // verus!
