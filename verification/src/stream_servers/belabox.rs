//! BELABOX cloud: classification of one publisher's statistics.

use vstd::prelude::*;

use crate::stream_servers::{spec_classify, classify_reading};
use crate::switcher::{SwitchType, Triggers};

verus! {

/// The reading the core takes from one BELABOX publisher entry.
#[derive(Debug, Clone)]
pub struct Stat {
    pub bitrate: i64,
    /// Round-trip time rounded to milliseconds.
    pub rtt: u64,
    pub dropped_pkts: i32,
}

/// Connection parameters of a BELABOX stats page.
#[derive(Debug, Clone)]
pub struct Belabox {
    /// URL to the BELABOX stats page.
    pub stats_url: String,

    /// Stream ID under which the feed is published.
    pub publisher: String,
}

/// Classifies a reading; an unreachable or unparsable stats page (`None`)
/// is `Offline`.
pub fn switch(stats: &Option<Stat>, triggers: &Triggers) -> (r: SwitchType)
    ensures
        r == match stats {
            None => SwitchType::Offline,
            Some(s) => spec_classify(s.bitrate as int, Some(s.rtt as int), *triggers),
        },
{
    let s = match stats {
        Some(s) => s,
        None => {
            return SwitchType::Offline;
        },
    };

    classify_reading(s.bitrate as i128, Some(s.rtt), triggers)
}

/// The numbers a bitrate query reports, present exactly when the stats page
/// answered with a non-zero bitrate.
pub fn bitrate(stats: &Option<Stat>) -> (r: Option<(i64, u64)>)
    ensures
        match stats {
            None => r is None,
            Some(s) => if s.bitrate == 0 {
                r is None
            } else {
                r == Some((s.bitrate, s.rtt))
            },
        },
{
    match stats {
        None => None,
        Some(s) => {
            if s.bitrate == 0 {
                None
            } else {
                Some((s.bitrate, s.rtt))
            }
        },
    }
}

} // verus!
