//! Xiu: selection of the publisher out of the API response, and
//! classification of its received bitrate.

use vstd::prelude::*;

use crate::stream_servers::{spec_classify, classify_reading};
use crate::switcher::{SwitchType, Triggers};

verus! {

/// One stream block of the API response.
#[derive(Debug, Clone)]
pub struct XiuStreamInfo {
    pub publisher: XiuPublisher,
    pub subscriber_count: u64,
}

/// The publisher of a stream.
#[derive(Debug, Clone)]
pub struct XiuPublisher {
    pub id: String,
    pub identifier: XiuIdentifier,
    pub start_time: String,
    /// Received bitrate in Kbps.
    pub recv_bitrate: u64,
    pub video: Option<XiuVideoInfo>,
    pub audio: Option<XiuAudioInfo>,
}

/// Identifies the stream a publisher feeds.
#[derive(Debug, Clone)]
pub struct XiuIdentifier {
    pub rtmp: XiuRtmp,
}

/// The RTMP application and stream name of a publisher.
#[derive(Debug, Clone)]
pub struct XiuRtmp {
    pub app_name: String,
    pub stream_name: String,
}

/// Video metadata of a publisher. The frame rate is rounded to whole
/// frames per second.
#[derive(Debug, Clone)]
pub struct XiuVideoInfo {
    /// Video bitrate in Kbps.
    pub bitrate: u64,
    pub codec: String,
    pub width: u64,
    pub height: u64,
    pub frame_rate: u64,
    pub gop: u64,
    pub level: String,
    pub profile: String,
}

/// Audio metadata of a publisher.
#[derive(Debug, Clone)]
pub struct XiuAudioInfo {
    /// Audio bitrate in Kbps.
    pub bitrate: u64,
    pub channels: u64,
    pub samplerate: u64,
    pub sound_format: String,
    pub profile: String,
}

/// Connection parameters of a Xiu API, as stored in a configuration file.
#[derive(Debug, Clone)]
pub struct XiuConfig {
    /// URL to the stats API.
    pub stats_url: String,
    pub application: String,
    pub key: String,
}

/// Connection parameters of a Xiu API.
#[derive(Debug, Clone)]
pub struct Xiu {
    /// URL to the stats API.
    pub stats_url: String,

    /// Stream application.
    pub application: String,

    /// Stream key.
    pub key: String,
}

/// The envelope of an API answer.
#[derive(Debug, Clone)]
pub struct XiuResponse {
    pub error_code: i32,
    pub desp: String,
    pub data: Vec<XiuStreamInfo>,
}

/// Selects the publisher out of an API answer: the first stream's, provided
/// the call succeeded and reported at least one stream.
pub fn select_publisher(mut resp: XiuResponse) -> (r: Option<XiuPublisher>)
    ensures
        r == (if resp.error_code != 0 || resp.data@.len() == 0 {
            None::<XiuPublisher>
        } else {
            Some(resp.data@[0].publisher)
        }),
{
    if resp.error_code != 0 {
        return None;
    }
    if resp.data.len() == 0 {
        return None;
    }
    let first = resp.data.remove(0);
    Some(first.publisher)
}

/// Classifies the publisher's received bitrate; no reachable publisher
/// (`None`) is `Offline`. The API reports no round-trip time.
pub fn switch(stats: &Option<XiuPublisher>, triggers: &Triggers) -> (r: SwitchType)
    ensures
        r == match stats {
            None => SwitchType::Offline,
            Some(s) => spec_classify(s.recv_bitrate as int, None, *triggers),
        },
{
    let s = match stats {
        Some(s) => s,
        None => {
            return SwitchType::Offline;
        },
    };

    classify_reading(s.recv_bitrate as i128, None, triggers)
}

/// The video bitrate a bitrate query reports, present exactly when the
/// publisher is reachable and carries video metadata.
pub fn bitrate(stats: &Option<XiuPublisher>) -> (r: Option<u64>)
    ensures
        match stats {
            None => r is None,
            Some(s) => match s.video {
                None => r is None,
                Some(v) => r == Some(v.bitrate),
            },
        },
{
    match stats {
        None => None,
        Some(s) => match &s.video {
            None => None,
            Some(v) => Some(v.bitrate),
        },
    }
}

} // verus!
