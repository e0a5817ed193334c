//! MediaMTX: a bitrate derived from the byte counter between polls, and
//! its classification.

use vstd::prelude::*;

use crate::stream_servers::{spec_classify, classify_reading};
use crate::switcher::{SwitchType, Triggers};

verus! {

/// The path statistics answer: the source and its cumulative byte counter.
#[derive(Debug, Clone)]
pub struct StreamStats {
    pub name: String,
    pub source: Source,
    pub bytes_received: u64,
}

/// What feeds the path.
#[derive(Debug, Clone)]
pub struct Source {
    pub kind: String,
    pub id: String,
}

/// The SRT connection statistics the core reads, when the source is an SRT
/// connection; the round-trip time is rounded to milliseconds.
#[derive(Debug, Clone)]
pub struct SrtStats {
    pub ms_rtt: u64,
    pub packets_received_drop: u64,
    pub packets_received_loss: u64,
    pub packets_received_retrans: u64,
    pub ms_send_tsb_pd_delay: u64,
    pub ms_receive_tsb_pd_delay: u64,
}

/// The assembled reading of one poll.
#[derive(Debug, Clone)]
pub struct Stats {
    /// Kbps derived from the byte counter between polls.
    pub bitrate: u32,
    pub srt: Option<SrtStats>,
}

/// Connection parameters of a MediaMTX API.
#[derive(Debug, Clone)]
pub struct Mediamtx {
    /// URL to the MediaMTX path stats endpoint.
    pub stats_url: String,
}

/// What the bitrate derivation remembers between polls.
#[derive(Debug, Clone)]
pub struct Cache {
    /// The byte counter of the previous poll.
    pub prev_bytes_received: u64,

    /// Milliseconds since an arbitrary fixed origin at the previous update.
    pub timestamp: u64,

    /// The bitrate derived at the previous update, in Kbps.
    pub bitrate: u32,
}

impl Default for Cache {
    fn default() -> (r: Self)
        ensures
            r.prev_bytes_received == 0u64,
            r.timestamp == 0u64,
            r.bitrate == 0u32,
    {
        Self { prev_bytes_received: 0, timestamp: 0, bitrate: 0 }
    }
}

/// The bitrate in Kbps that a byte delta over a time delta spells:
/// `bits / milliseconds`, saturated into a `u32`.
pub open spec fn spec_delta_kbps(diff_bytes: int, elapsed_ms: int) -> int {
    let kbps = diff_bytes * 8 / elapsed_ms;
    if kbps > u32::MAX {
        u32::MAX as int
    } else {
        kbps
    }
}

impl Cache {
    /// Feeds one poll of the byte counter into the cache. `None` means the
    /// counter has not moved, which the caller treats as "no signal". At
    /// most once a second the derived bitrate is refreshed from the bits
    /// received per millisecond; between refreshes the previous derivation
    /// is reported. A counter that moved backwards (the stream restarted)
    /// refreshes the anchor without deriving a bitrate.
    pub fn update(&mut self, bytes_received: u64, now_ms: u64) -> (r: Option<u32>)
        requires
            now_ms >= old(self).timestamp,
        ensures
            bytes_received == old(self).prev_bytes_received ==> r is None && *final(self)
                == *old(self),
            bytes_received != old(self).prev_bytes_received ==> {
                let refresh = now_ms - old(self).timestamp >= 1000;
                &&& r == Some(final(self).bitrate)
                &&& (!refresh ==> *final(self) == *old(self))
                &&& (refresh ==> final(self).prev_bytes_received == bytes_received
                    && final(self).timestamp == now_ms)
                &&& (refresh && bytes_received > old(self).prev_bytes_received
                    ==> final(self).bitrate == spec_delta_kbps(
                    bytes_received - old(self).prev_bytes_received,
                    now_ms - old(self).timestamp,
                ))
                &&& (refresh && bytes_received < old(self).prev_bytes_received
                    ==> final(self).bitrate == old(self).bitrate)
            },
    {
        if bytes_received == self.prev_bytes_received {
            return None;
        }

        let elapsed: u64 = now_ms - self.timestamp;
        if elapsed >= 1000 {
            if bytes_received > self.prev_bytes_received {
                let diff_bits: u128 = (bytes_received - self.prev_bytes_received) as u128 * 8;
                let kbps: u128 = diff_bits / elapsed as u128;
                self.bitrate = if kbps > u32::MAX as u128 {
                    u32::MAX
                } else {
                    kbps as u32
                };
            }

            self.prev_bytes_received = bytes_received;
            self.timestamp = now_ms;
        }

        Some(self.bitrate)
    }
}

/// Classifies the assembled reading; an unreachable path or a stalled byte
/// counter (`None`) is `Offline`. The round-trip time is present only for
/// SRT-fed paths.
pub fn switch(stats: &Option<Stats>, triggers: &Triggers) -> (r: SwitchType)
    ensures
        r == match stats {
            None => SwitchType::Offline,
            Some(s) => spec_classify(
                s.bitrate as int,
                match s.srt {
                    None => None,
                    Some(srt) => Some(srt.ms_rtt as int),
                },
                *triggers,
            ),
        },
{
    let s = match stats {
        Some(s) => s,
        None => {
            return SwitchType::Offline;
        },
    };

    let rtt: Option<u64> = match &s.srt {
        None => None,
        Some(srt) => Some(srt.ms_rtt),
    };

    classify_reading(s.bitrate as i128, rtt, triggers)
}

/// The numbers a bitrate query reports: the derived bitrate and, for
/// SRT-fed paths, the round-trip time; present exactly when the path
/// answered with a moving byte counter.
pub fn bitrate(stats: &Option<Stats>) -> (r: Option<(u32, Option<u64>)>)
    ensures
        match stats {
            None => r is None,
            Some(s) => r matches Some(v) && v.0 == s.bitrate && v.1 == (match s.srt {
                None => None::<u64>,
                Some(srt) => Some(srt.ms_rtt),
            }),
        },
{
    match stats {
        None => None,
        Some(s) => {
            let rtt: Option<u64> = match &s.srt {
                None => None,
                Some(srt) => Some(srt.ms_rtt),
            };
            Some((s.bitrate, rtt))
        },
    }
}

} // verus!
