//! SRT Live Server: classification of one publisher's statistics.

use vstd::prelude::*;

use crate::stream_servers::{spec_classify, classify_reading};
use crate::switcher::{SwitchType, Triggers};

verus! {

/// The reading the core takes from one SRT Live Server publisher entry:
/// the bitrate in Kbps and the round-trip time rounded to milliseconds,
/// next to a few integer diagnostics.
#[derive(Debug, Clone)]
pub struct Stat {
    pub bitrate: i64,
    pub rtt: u64,
    pub bytes_rcv_drop: u64,
    pub bytes_rcv_loss: u64,
    pub ms_rcv_buf: i32,
    pub pkt_rcv_drop: i32,
    pub pkt_rcv_loss: i32,
    pub uptime: i64,
}

/// Connection parameters of an SRT Live Server stats page.
#[derive(Debug, Clone)]
pub struct SrtLiveServer {
    /// URL to the SLS stats page.
    pub stats_url: String,

    /// Stream ID under which the feed is published.
    pub publisher: String,
}

/// Classifies a reading; an unreachable or unparsable stats page (`None`)
/// is `Offline`.
pub fn switch(stats: &Option<Stat>, triggers: &Triggers) -> (r: SwitchType)
    ensures
        r == match stats {
            None => SwitchType::Offline,
            Some(s) => spec_classify(s.bitrate as int, Some(s.rtt as int), *triggers),
        },
{
    let s = match stats {
        Some(s) => s,
        None => {
            return SwitchType::Offline;
        },
    };

    classify_reading(s.bitrate as i128, Some(s.rtt), triggers)
}

/// The numbers a bitrate query reports: bitrate and round-trip time, present
/// exactly when the stats page answered.
pub fn bitrate(stats: &Option<Stat>) -> (r: Option<(i64, u64)>)
    ensures
        match stats {
            None => r is None,
            Some(s) => r == Some((s.bitrate, s.rtt)),
        },
{
    match stats {
        None => None,
        Some(s) => Some((s.bitrate, s.rtt)),
    }
}

} // verus!
