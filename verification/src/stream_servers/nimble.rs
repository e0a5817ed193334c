//! Nimble Streamer: selection of the SRT receiver and RTMP mirror out of
//! the two stats answers, and classification of the mirrored bitrate.

use vstd::prelude::*;

use crate::stream_servers::{spec_classify, classify_reading};
use crate::switcher::{SwitchType, Triggers};
use crate::text::{spec_str_contains, spec_parse_u32, str_contains, parse_u32};

verus! {

/// The SRT receiver statistics answer.
#[derive(Debug, Clone)]
pub struct NimbleSrtStats {
    pub srt_receivers: Vec<SrtReceiver>,
}

/// One SRT receiver.
#[derive(Debug, Clone)]
pub struct SrtReceiver {
    pub id: String,
    pub state: String,
    pub stats: Stats,
}

/// The statistics block of a receiver.
#[derive(Debug, Clone)]
pub struct Stats {
    pub time: u64,
    pub window: Window,
    pub link: Link,
}

/// Window counters of a receiver.
#[derive(Debug, Clone)]
pub struct Window {
    pub flow: u64,
    pub congestion: u64,
    pub flight: u64,
}

/// Link telemetry of a receiver; the round-trip time is rounded to
/// milliseconds.
#[derive(Debug, Clone)]
pub struct Link {
    pub rtt: u64,
    pub mbps_max_bandwidth: u64,
}

/// The RTMP status of one application.
#[derive(Debug, Clone)]
pub struct NimbleRtmpStats {
    pub app: String,
    pub streams: Vec<Streams>,
}

/// One RTMP stream of an application.
#[derive(Debug, Clone)]
pub struct Streams {
    pub acodec: Option<String>,
    pub vcodec: String,
    pub publish_time: String,
    /// Bandwidth in bits per second, as the API spells it: a decimal string.
    pub bandwidth: String,
    pub protocol: String,
    pub resolution: String,
    pub strm: String,
}

/// Connection parameters of a Nimble Streamer API.
#[derive(Debug, Clone)]
pub struct Nimble {
    /// UDP listener ID (usually IP:port).
    pub id: String,

    /// URL to the Nimble API.
    pub stats_url: String,

    /// Outgoing stream application name.
    pub application: String,

    /// Outgoing stream name.
    pub key: String,
}

/// The reading the classification runs on: the matched SRT receiver and
/// the RTMP mirror of the stream.
#[derive(Debug, Clone)]
pub struct Stat {
    pub srt: SrtReceiver,
    pub rtmp: Streams,
}

/// The first index of a receiver whose ID contains `id`, if any.
pub open spec fn spec_find_receiver(receivers: Seq<SrtReceiver>, id: Seq<char>) -> Option<int>
    decreases receivers.len(),
{
    if receivers.len() == 0 {
        None
    } else if spec_str_contains(receivers[0].id@, id) {
        Some(0int)
    } else {
        match spec_find_receiver(receivers.skip(1), id) {
            None => None,
            Some(i) => Some(i + 1),
        }
    }
}

/// `spec_find_receiver` restarted at position `i`.
pub open spec fn spec_find_receiver_from(
    receivers: Seq<SrtReceiver>,
    id: Seq<char>,
    i: int,
) -> Option<int> {
    match spec_find_receiver(receivers.skip(i), id) {
        None => None,
        Some(k) => Some(i + k),
    }
}

proof fn lemma_find_receiver_step(receivers: Seq<SrtReceiver>, id: Seq<char>, i: int)
    requires
        0 <= i < receivers.len(),
    ensures
        spec_str_contains(receivers[i].id@, id) ==> spec_find_receiver_from(receivers, id, i)
            == Some(i),
        !spec_str_contains(receivers[i].id@, id) ==> spec_find_receiver_from(receivers, id, i)
            == spec_find_receiver_from(receivers, id, i + 1),
{
    assert(receivers.skip(i)[0] == receivers[i]);
    assert(receivers.skip(i).skip(1) =~= receivers.skip(i + 1));
}

/// Finds the first receiver whose ID contains `id` (the configured UDP
/// listener ID) as a substring.
pub fn find_receiver(receivers: &Vec<SrtReceiver>, id: &String) -> (r: Option<usize>)
    ensures
        match spec_find_receiver(receivers@, id@) {
            Some(i) => r == Some(i as usize),
            None => r is None,
        },
{
    proof {
        assert(receivers@.skip(0) =~= receivers@);
    }
    let n: usize = receivers.len();
    let mut i: usize = 0;
    while i < n
        invariant
            0 <= i <= n,
            n == receivers@.len(),
            spec_find_receiver(receivers@, id@) == spec_find_receiver_from(receivers@, id@, i as int),
        decreases n - i,
    {
        proof {
            lemma_find_receiver_step(receivers@, id@, i as int);
        }
        if str_contains(receivers[i].id.as_str(), id.as_str()) {
            return Some(i);
        }
        i += 1;
    }
    proof {
        assert(receivers@.skip(n as int).len() == 0);
    }
    None
}

/// The first index of an application block named `app`, if any.
pub open spec fn spec_find_app(apps: Seq<NimbleRtmpStats>, app: Seq<char>) -> Option<int>
    decreases apps.len(),
{
    if apps.len() == 0 {
        None
    } else if apps[0].app@ == app {
        Some(0int)
    } else {
        match spec_find_app(apps.skip(1), app) {
            None => None,
            Some(i) => Some(i + 1),
        }
    }
}

/// `spec_find_app` restarted at position `i`.
pub open spec fn spec_find_app_from(
    apps: Seq<NimbleRtmpStats>,
    app: Seq<char>,
    i: int,
) -> Option<int> {
    match spec_find_app(apps.skip(i), app) {
        None => None,
        Some(k) => Some(i + k),
    }
}

proof fn lemma_find_app_step(apps: Seq<NimbleRtmpStats>, app: Seq<char>, i: int)
    requires
        0 <= i < apps.len(),
    ensures
        apps[i].app@ == app ==> spec_find_app_from(apps, app, i) == Some(i),
        apps[i].app@ != app ==> spec_find_app_from(apps, app, i) == spec_find_app_from(
            apps,
            app,
            i + 1,
        ),
{
    assert(apps.skip(i)[0] == apps[i]);
    assert(apps.skip(i).skip(1) =~= apps.skip(i + 1));
}

/// Finds the first application block named `app`.
pub fn find_app(apps: &Vec<NimbleRtmpStats>, app: &String) -> (r: Option<usize>)
    ensures
        match spec_find_app(apps@, app@) {
            Some(i) => r == Some(i as usize),
            None => r is None,
        },
{
    proof {
        assert(apps@.skip(0) =~= apps@);
    }
    let n: usize = apps.len();
    let mut i: usize = 0;
    while i < n
        invariant
            0 <= i <= n,
            n == apps@.len(),
            spec_find_app(apps@, app@) == spec_find_app_from(apps@, app@, i as int),
        decreases n - i,
    {
        proof {
            lemma_find_app_step(apps@, app@, i as int);
        }
        if crate::text::str_eq(apps[i].app.as_str(), app.as_str()) {
            return Some(i);
        }
        i += 1;
    }
    proof {
        assert(apps@.skip(n as int).len() == 0);
    }
    None
}

/// The first index of a stream named `key`, if any.
pub open spec fn spec_find_stream(streams: Seq<Streams>, key: Seq<char>) -> Option<int>
    decreases streams.len(),
{
    if streams.len() == 0 {
        None
    } else if streams[0].strm@ == key {
        Some(0int)
    } else {
        match spec_find_stream(streams.skip(1), key) {
            None => None,
            Some(i) => Some(i + 1),
        }
    }
}

/// `spec_find_stream` restarted at position `i`.
pub open spec fn spec_find_stream_from(
    streams: Seq<Streams>,
    key: Seq<char>,
    i: int,
) -> Option<int> {
    match spec_find_stream(streams.skip(i), key) {
        None => None,
        Some(k) => Some(i + k),
    }
}

proof fn lemma_find_stream_step(streams: Seq<Streams>, key: Seq<char>, i: int)
    requires
        0 <= i < streams.len(),
    ensures
        streams[i].strm@ == key ==> spec_find_stream_from(streams, key, i) == Some(i),
        streams[i].strm@ != key ==> spec_find_stream_from(streams, key, i) == spec_find_stream_from(
            streams,
            key,
            i + 1,
        ),
{
    assert(streams.skip(i)[0] == streams[i]);
    assert(streams.skip(i).skip(1) =~= streams.skip(i + 1));
}

/// Finds the first stream named `key` in an application block.
pub fn find_stream(streams: &Vec<Streams>, key: &String) -> (r: Option<usize>)
    ensures
        match spec_find_stream(streams@, key@) {
            Some(i) => r == Some(i as usize),
            None => r is None,
        },
{
    proof {
        assert(streams@.skip(0) =~= streams@);
    }
    let n: usize = streams.len();
    let mut i: usize = 0;
    while i < n
        invariant
            0 <= i <= n,
            n == streams@.len(),
            spec_find_stream(streams@, key@) == spec_find_stream_from(streams@, key@, i as int),
        decreases n - i,
    {
        proof {
            lemma_find_stream_step(streams@, key@, i as int);
        }
        if crate::text::str_eq(streams[i].strm.as_str(), key.as_str()) {
            return Some(i);
        }
        i += 1;
    }
    proof {
        assert(streams@.skip(n as int).len() == 0);
    }
    None
}

/// The bitrate in Kbps the RTMP mirror reports: its bandwidth string read
/// as a decimal number, divided by 1024. An unreadable bandwidth string is
/// `None`.
pub open spec fn spec_rtmp_bitrate(rtmp: Streams) -> Option<int> {
    match spec_parse_u32(rtmp.bandwidth@) {
        None => None,
        Some(v) => Some(v as int / 1024),
    }
}

/// Classifies the matched reading; no reading (`None`) and an unreadable
/// bandwidth string are both `Offline` (fail-safe on an unparsable
/// response). The round-trip time comes from the SRT receiver's link.
pub fn switch(stats: &Option<Stat>, triggers: &Triggers) -> (r: SwitchType)
    ensures
        r == match stats {
            None => SwitchType::Offline,
            Some(s) => match spec_rtmp_bitrate(s.rtmp) {
                None => SwitchType::Offline,
                Some(b) => spec_classify(b, Some(s.srt.stats.link.rtt as int), *triggers),
            },
        },
{
    let s = match stats {
        Some(s) => s,
        None => {
            return SwitchType::Offline;
        },
    };

    let bitrate: u32 = match parse_u32(s.rtmp.bandwidth.as_str()) {
        Some(v) => v / 1024,
        None => {
            return SwitchType::Offline;
        },
    };

    classify_reading(bitrate as i128, Some(s.srt.stats.link.rtt), triggers)
}

/// The numbers a bitrate query reports: the mirrored bitrate in Kbps and
/// the link round-trip time, present exactly when a reading was matched
/// and its bandwidth string is readable.
pub fn bitrate(stats: &Option<Stat>) -> (r: Option<(u32, u64)>)
    ensures
        match stats {
            None => r is None,
            Some(s) => match spec_rtmp_bitrate(s.rtmp) {
                None => r is None,
                Some(b) => r matches Some(v) && v.0 == b && v.1 == s.srt.stats.link.rtt,
            },
        },
{
    let s = match stats {
        Some(s) => s,
        None => {
            return None;
        },
    };

    match parse_u32(s.rtmp.bandwidth.as_str()) {
        Some(v) => Some((v / 1024, s.srt.stats.link.rtt)),
        None => None,
    }
}

} // verus!
