//! Telemetry read-back: assembling a stream-status sample out of two
//! output readings taken a moment apart.

use vstd::prelude::*;

use crate::state::StreamStatus;

verus! {

/// One reading of the streaming output's cumulative counters.
#[derive(Debug, Clone, Copy)]
pub struct OutputSample {
    /// Bytes sent since the stream started.
    pub bytes: u64,
    /// Stream duration in milliseconds.
    pub duration_ms: u64,
    /// Frames sent since the stream started.
    pub total_frames: u64,
    /// Frames skipped since the stream started.
    pub skipped_frames: u64,
}

/// The renderer and output counters reported next to a reading. The frame
/// rate is rounded to whole frames per second.
#[derive(Debug, Clone, Copy)]
pub struct GeneralStats {
    pub active_fps: u64,
    pub render_total_frames: u64,
    pub render_skipped_frames: u64,
    pub output_total_frames: u64,
    pub output_skipped_frames: u64,
}

/// The bitrate in Kbps that two readings spell: bits sent between them per
/// millisecond elapsed between them, saturated into a `u64`.
pub open spec fn spec_sample_kbps(prev: OutputSample, cur: OutputSample) -> int {
    let kbps = (cur.bytes - prev.bytes) * 8 / (cur.duration_ms - prev.duration_ms);
    if kbps > u64::MAX {
        u64::MAX as int
    } else {
        kbps
    }
}

/// Assembles a stream-status sample out of two output readings taken a
/// moment apart and the counters reported next to the second one.
pub fn stream_status_from_samples(
    prev: &OutputSample,
    cur: &OutputSample,
    stats: &GeneralStats,
) -> (r: StreamStatus)
    requires
        prev.bytes <= cur.bytes,
        prev.duration_ms < cur.duration_ms,
    ensures
        r.bitrate == spec_sample_kbps(*prev, *cur),
        r.fps == stats.active_fps,
        r.num_total_frames == cur.total_frames,
        r.num_dropped_frames == cur.skipped_frames,
        r.render_total_frames == stats.render_total_frames,
        r.render_missed_frames == stats.render_skipped_frames,
        r.output_total_frames == stats.output_total_frames,
        r.output_skipped_frames == stats.output_skipped_frames,
{
    let diff_bits: u128 = (cur.bytes - prev.bytes) as u128 * 8;
    let elapsed: u128 = (cur.duration_ms - prev.duration_ms) as u128;
    let kbps: u128 = diff_bits / elapsed;
    let bitrate: u64 = if kbps > u64::MAX as u128 {
        u64::MAX
    } else {
        kbps as u64
    };

    StreamStatus {
        bitrate,
        fps: stats.active_fps,
        num_total_frames: cur.total_frames,
        num_dropped_frames: cur.skipped_frames,
        render_total_frames: stats.render_total_frames,
        render_missed_frames: stats.render_skipped_frames,
        output_total_frames: stats.output_total_frames,
        output_skipped_frames: stats.output_skipped_frames,
    }
}

} // verus!
