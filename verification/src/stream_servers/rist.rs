//! RIST: aggregation of the per-peer statistics into one reading, and its
//! classification.

use vstd::prelude::*;

use crate::stream_servers::{spec_classify, classify_reading};
use crate::switcher::{SwitchType, Triggers};

verus! {

/// The statistics of one peer. Round-trip times are rounded to
/// milliseconds, bitrates are in bits per second.
#[derive(Debug, Clone)]
pub struct PeerStats {
    pub rtt: u64,
    pub avg_rtt: u64,
    pub bitrate: u64,
    pub avg_bitrate: u64,
}

/// One receiving peer.
#[derive(Debug, Clone)]
pub struct Peer {
    pub stats: PeerStats,
}

/// The instantaneous flow block of the receiver statistics.
#[derive(Debug, Clone)]
pub struct Flowinstant {
    pub peers: Vec<Peer>,
}

/// The receiver statistics of a RIST stats answer.
#[derive(Debug, Clone)]
pub struct ReceiverStats {
    pub flowinstant: Flowinstant,
}

/// A RIST stats answer; `receiver_stats` is absent while nothing is
/// received.
#[derive(Debug, Clone)]
pub struct RistStats {
    pub receiver_stats: Option<ReceiverStats>,
}

/// Connection parameters of a RIST stats endpoint.
#[derive(Debug, Clone)]
pub struct Rist {
    /// URL to the RIST stats page.
    pub stats_url: String,
}

/// The sum of the peers' bitrates, in bits per second.
pub open spec fn spec_bitrate_sum(peers: Seq<Peer>) -> int
    decreases peers.len(),
{
    if peers.len() == 0 {
        0
    } else {
        spec_bitrate_sum(peers.drop_last()) + peers.last().stats.bitrate
    }
}

/// The sum of the peers' round-trip times, in milliseconds.
pub open spec fn spec_rtt_sum(peers: Seq<Peer>) -> int
    decreases peers.len(),
{
    if peers.len() == 0 {
        0
    } else {
        spec_rtt_sum(peers.drop_last()) + peers.last().stats.rtt
    }
}

/// The aggregated reading: the peers' bitrates summed and scaled to Kbps,
/// and their mean round-trip time.
pub open spec fn spec_aggregate(peers: Seq<Peer>) -> (int, Option<int>) {
    (
        spec_bitrate_sum(peers) / 1024,
        if peers.len() == 0 {
            None
        } else {
            Some(spec_rtt_sum(peers) / peers.len() as int)
        },
    )
}

/// Aggregates the peers into one reading: total bitrate in Kbps and mean
/// round-trip time. With no peers there is no round-trip time and the
/// bitrate is zero.
pub fn aggregate(peers: &Vec<Peer>) -> (r: (u64, Option<u64>))
    ensures
        r.0 as int == spec_aggregate(peers@).0 || (spec_aggregate(peers@).0 > u64::MAX && r.0
            == u64::MAX),
        match r.1 {
            None => peers@.len() == 0,
            Some(v) => peers@.len() > 0 && v as int == spec_aggregate(peers@).1.unwrap(),
        },
{
    let n: usize = peers.len();
    let mut bitrate_sum: u128 = 0;
    let mut rtt_sum: u128 = 0;
    let mut i: usize = 0;
    proof {
        assert(peers@.take(0int).len() == 0);
    }
    while i < n
        invariant
            0 <= i <= n,
            n == peers@.len(),
            bitrate_sum == spec_bitrate_sum(peers@.take(i as int)),
            rtt_sum == spec_rtt_sum(peers@.take(i as int)),
            bitrate_sum <= i * (u64::MAX as int),
            rtt_sum <= i * (u64::MAX as int),
        decreases n - i,
    {
        proof {
            assert(peers@.take(i as int + 1).drop_last() =~= peers@.take(i as int));
            assert(peers@.take(i as int + 1).last() == peers@[i as int]);
        }
        bitrate_sum = bitrate_sum + peers[i].stats.bitrate as u128;
        rtt_sum = rtt_sum + peers[i].stats.rtt as u128;
        i += 1;
    }
    proof {
        assert(peers@.take(n as int) =~= peers@);
    }

    let scaled: u128 = bitrate_sum / 1024;
    let bitrate: u64 = if scaled > u64::MAX as u128 {
        u64::MAX
    } else {
        scaled as u64
    };

    let rtt: Option<u64> = if n == 0 {
        None
    } else {
        let mean: u128 = rtt_sum / n as u128;
        proof {
            assert(rtt_sum <= n * (u64::MAX as int));
            assert(mean <= u64::MAX) by (nonlinear_arith)
                requires
                    mean == rtt_sum / (n as u128),
                    rtt_sum <= n * (u64::MAX as int),
                    n > 0,
            ;
        }
        Some(mean as u64)
    };

    (bitrate, rtt)
}

/// Classifies the aggregated reading; unreachable statistics or an absent
/// receiver block (`None`) is `Offline`.
pub fn switch(stats: &Option<RistStats>, triggers: &Triggers) -> (r: SwitchType)
    ensures
        r == match stats {
            None => SwitchType::Offline,
            Some(s) => match s.receiver_stats {
                None => SwitchType::Offline,
                Some(rs) => {
                    let agg = spec_aggregate(rs.flowinstant.peers@);
                    spec_classify(
                        if agg.0 > u64::MAX {
                            u64::MAX as int
                        } else {
                            agg.0
                        },
                        agg.1,
                        *triggers,
                    )
                },
            },
        },
{
    let rs = match stats {
        Some(s) => match &s.receiver_stats {
            Some(rs) => rs,
            None => {
                return SwitchType::Offline;
            },
        },
        None => {
            return SwitchType::Offline;
        },
    };

    let (bitrate, rtt) = aggregate(&rs.flowinstant.peers);
    classify_reading(bitrate as i128, rtt, triggers)
}

/// The numbers a bitrate query reports: the aggregated bitrate in Kbps and
/// mean round-trip time, present exactly when a receiver block is present.
pub fn bitrate(stats: &Option<RistStats>) -> (r: Option<(u64, Option<u64>)>)
    ensures
        match stats {
            None => r is None,
            Some(s) => match s.receiver_stats {
                None => r is None,
                Some(rs) => {
                    let agg = spec_aggregate(rs.flowinstant.peers@);
                    r matches Some(v) && (v.0 as int == agg.0 || (agg.0 > u64::MAX && v.0
                        == u64::MAX)) && (match v.1 {
                        None => rs.flowinstant.peers@.len() == 0,
                        Some(m) => rs.flowinstant.peers@.len() > 0 && m as int == agg.1.unwrap(),
                    })
                },
            },
        },
{
    let rs = match stats {
        Some(s) => match &s.receiver_stats {
            Some(rs) => rs,
            None => {
                return None;
            },
        },
        None => {
            return None;
        },
    };

    Some(aggregate(&rs.flowinstant.peers))
}

} // verus!
