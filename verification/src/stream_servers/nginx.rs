//! nginx-rtmp: selection of the watched stream out of the stats document,
//! and classification of its bitrate.

use vstd::prelude::*;

use crate::stream_servers::{spec_classify, classify_reading};
use crate::switcher::{SwitchType, Triggers};

verus! {

/// One live stream of an nginx-rtmp application.
#[derive(Debug, Clone)]
pub struct NginxRtmpStream {
    pub name: String,
    /// Video bandwidth in bits per second.
    pub bw_video: u32,
    pub audio: Option<Audio>,
}

/// Audio metadata of a stream, as far as the stats page reports it.
#[derive(Debug, Clone)]
pub struct Audio {
    pub codec: Option<String>,
    pub profile: Option<String>,
    pub channels: Option<u32>,
    pub sample_rate: Option<u32>,
}

/// One application block of the stats document.
#[derive(Debug, Clone)]
pub struct NginxRtmpApp {
    pub name: String,
    pub streams: Vec<NginxRtmpStream>,
}

/// Connection parameters of an nginx-rtmp stats page.
#[derive(Debug, Clone)]
pub struct Nginx {
    /// URL to the stats page.
    pub stats_url: String,

    /// Stream application.
    pub application: String,

    /// Stream key.
    pub key: String,
}

/// The last stream named `key` among the streams of every application named
/// `application`, if any.
pub open spec fn spec_find_stream(
    apps: Seq<NginxRtmpApp>,
    application: Seq<char>,
    key: Seq<char>,
) -> Option<NginxRtmpStream>
    decreases apps.len(),
{
    if apps.len() == 0 {
        None
    } else {
        match spec_find_stream(apps.drop_last(), application, key) {
            Some(s) => {
                match spec_find_in_app(apps.last(), application, key) {
                    Some(t) => Some(t),
                    None => Some(s),
                }
            },
            None => spec_find_in_app(apps.last(), application, key),
        }
    }
}

/// The last stream named `key` of `app`, when `app` is named `application`.
pub open spec fn spec_find_in_app(
    app: NginxRtmpApp,
    application: Seq<char>,
    key: Seq<char>,
) -> Option<NginxRtmpStream> {
    if app.name@ == application {
        spec_find_last(app.streams@, key)
    } else {
        None
    }
}

/// The last stream of `streams` named `key`, if any.
pub open spec fn spec_find_last(streams: Seq<NginxRtmpStream>, key: Seq<char>) -> Option<
    NginxRtmpStream,
>
    decreases streams.len(),
{
    if streams.len() == 0 {
        None
    } else if streams.last().name@ == key {
        Some(streams.last())
    } else {
        spec_find_last(streams.drop_last(), key)
    }
}

/// Selects the watched stream: among applications named `application`, the
/// last of their streams named `key`.
pub fn find_stream(
    apps: &Vec<NginxRtmpApp>,
    application: &String,
    key: &String,
) -> (r: Option<NginxRtmpStream>)
    ensures
        r == spec_find_stream(apps@, application@, key@),
{
    let mut found: Option<NginxRtmpStream> = None;
    let n: usize = apps.len();
    let mut i: usize = 0;
    proof {
        assert(apps@.take(0int).len() == 0);
    }
    while i < n
        invariant
            0 <= i <= n,
            n == apps@.len(),
            found == spec_find_stream(apps@.take(i as int), application@, key@),
        decreases n - i,
    {
        let app = &apps[i];
        if crate::text::str_eq(app.name.as_str(), application.as_str()) {
            let m: usize = app.streams.len();
            let mut j: usize = 0;
            let mut last: Option<NginxRtmpStream> = None;
            proof {
                assert(app.streams@.take(0int).len() == 0);
            }
            while j < m
                invariant
                    0 <= j <= m,
                    m == app.streams@.len(),
                    last == spec_find_last_prefix(app.streams@, j as int, key@),
                decreases m - j,
            {
                proof {
                    assert(app.streams@.take(j as int + 1).drop_last() =~= app.streams@.take(
                        j as int,
                    ));
                    assert(app.streams@.take(j as int + 1).last() == app.streams@[j as int]);
                }
                if crate::text::str_eq(app.streams[j].name.as_str(), key.as_str()) {
                    last = Some(app.streams[j].clone_stream());
                }
                j += 1;
            }
            proof {
                assert(app.streams@.take(m as int) =~= app.streams@);
            }
            if last.is_some() {
                found = last;
            }
        }
        proof {
            assert(apps@.take(i as int + 1).drop_last() =~= apps@.take(i as int));
            assert(apps@.take(i as int + 1).last() == apps@[i as int]);
        }
        i += 1;
    }
    proof {
        assert(apps@.take(n as int) =~= apps@);
    }
    found
}

/// `spec_find_last` over the first `j` streams.
pub open spec fn spec_find_last_prefix(
    streams: Seq<NginxRtmpStream>,
    j: int,
    key: Seq<char>,
) -> Option<NginxRtmpStream> {
    spec_find_last(streams.take(j), key)
}

impl NginxRtmpStream {
    /// A field-for-field copy.
    pub fn clone_stream(&self) -> (r: Self)
        ensures
            r == *self,
    {
        NginxRtmpStream {
            name: self.name.clone(),
            bw_video: self.bw_video,
            audio: match &self.audio {
                None => None,
                Some(a) => Some(
                    Audio {
                        codec: clone_opt_string(&a.codec),
                        profile: clone_opt_string(&a.profile),
                        channels: a.channels,
                        sample_rate: a.sample_rate,
                    },
                ),
            },
        }
    }
}

/// A field-for-field copy of an optional string.
fn clone_opt_string(s: &Option<String>) -> (r: Option<String>)
    ensures
        r == *s,
{
    match s {
        None => None,
        Some(x) => Some(x.clone()),
    }
}

/// Classifies the selected stream; no reachable stream (`None`) is
/// `Offline`. The bitrate in Kbps is the video bandwidth divided by 1024;
/// the page reports no round-trip time.
pub fn switch(stats: &Option<NginxRtmpStream>, triggers: &Triggers) -> (r: SwitchType)
    ensures
        r == match stats {
            None => SwitchType::Offline,
            Some(s) => spec_classify((s.bw_video / 1024u32) as int, None, *triggers),
        },
{
    let s = match stats {
        Some(s) => s,
        None => {
            return SwitchType::Offline;
        },
    };

    let bitrate: u32 = s.bw_video / 1024;
    classify_reading(bitrate as i128, None, triggers)
}

/// The bitrate in Kbps a bitrate query reports, present exactly when a
/// stream was selected.
pub fn bitrate(stats: &Option<NginxRtmpStream>) -> (r: Option<u32>)
    ensures
        match stats {
            None => r is None,
            Some(s) => r == Some(s.bw_video / 1024u32),
        },
{
    match stats {
        None => None,
        Some(s) => Some(s.bw_video / 1024),
    }
}

} // verus!
