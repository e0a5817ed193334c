//! Node Media Server: classification of one stream's statistics.

use vstd::prelude::*;

use crate::stream_servers::{spec_classify, classify_reading};
use crate::switcher::{SwitchType, Triggers};

verus! {

/// The reading the core takes from one Node Media Server stream.
#[derive(Debug, Clone)]
pub struct Stat {
    pub is_live: bool,
    pub viewers: u64,
    pub duration: u64,
    pub bitrate: u64,
}

/// Credentials for a protected stats endpoint.
#[derive(Debug, Clone)]
pub struct Auth {
    pub username: String,
    pub password: String,
}

/// Connection parameters of a Node Media Server API.
#[derive(Debug, Clone)]
pub struct NodeMediaServer {
    /// URL to the stats API.
    pub stats_url: String,

    /// Stream application.
    pub application: String,

    /// Stream key.
    pub key: String,

    pub auth: Option<Auth>,
}

/// Classifies a reading; an unreachable stats page (`None`) and a stream
/// that is not live are both `Offline`. The server reports no round-trip
/// time, so the round-trip-time triggers never fire.
pub fn switch(stats: &Option<Stat>, triggers: &Triggers) -> (r: SwitchType)
    ensures
        r == match stats {
            None => SwitchType::Offline,
            Some(s) => if !s.is_live {
                SwitchType::Offline
            } else {
                spec_classify(s.bitrate as int, None, *triggers)
            },
        },
{
    let s = match stats {
        Some(s) => s,
        None => {
            return SwitchType::Offline;
        },
    };

    if !s.is_live {
        return SwitchType::Offline;
    }

    classify_reading(s.bitrate as i128, None, triggers)
}

/// The bitrate a bitrate query reports, present exactly when the stats page
/// answered for a live stream.
pub fn bitrate(stats: &Option<Stat>) -> (r: Option<u64>)
    ensures
        match stats {
            None => r is None,
            Some(s) => if !s.is_live {
                r is None
            } else {
                r == Some(s.bitrate)
            },
        },
{
    match stats {
        None => None,
        Some(s) => {
            if !s.is_live {
                None
            } else {
                Some(s.bitrate)
            }
        },
    }
}

} // verus!
