//! Classification of probe readings, per backend.

use noalbs::stream_servers::{belabox, mediamtx, nginx, nimble, nms, obs, rist, sls, xiu};
use noalbs::broadcasting_software::obs::MediaState;
use noalbs::switcher::{SwitchType, Triggers};

fn triggers(low: Option<u32>, rtt: Option<u32>, offline: Option<u32>, rtt_offline: Option<u32>) -> Triggers {
    Triggers { low, rtt, offline, rtt_offline }
}

fn sls_stat(bitrate: i64, rtt: u64) -> sls::Stat {
    sls::Stat {
        bitrate,
        rtt,
        bytes_rcv_drop: 0,
        bytes_rcv_loss: 0,
        ms_rcv_buf: 0,
        pkt_rcv_drop: 0,
        pkt_rcv_loss: 0,
        uptime: 0,
    }
}

#[test]
fn unreachable_stats_classify_offline() {
    let t = triggers(Some(800), None, None, None);
    assert_eq!(sls::switch(&None, &t), SwitchType::Offline);
    assert_eq!(belabox::switch(&None, &t), SwitchType::Offline);
    assert_eq!(nms::switch(&None, &t), SwitchType::Offline);
    assert_eq!(nginx::switch(&None, &t), SwitchType::Offline);
    assert_eq!(xiu::switch(&None, &t), SwitchType::Offline);
    assert_eq!(rist::switch(&None, &t), SwitchType::Offline);
    assert_eq!(nimble::switch(&None, &t), SwitchType::Offline);
    assert_eq!(mediamtx::switch(&None, &t), SwitchType::Offline);
    assert_eq!(obs::switch(&None, &t), SwitchType::Offline);
}

#[test]
fn classification_follows_the_trigger_order() {
    let t = triggers(Some(800), Some(2500), Some(100), Some(4000));

    // Offline bitrate trigger: positive and at or below the threshold.
    assert_eq!(sls::switch(&Some(sls_stat(80, 10)), &t), SwitchType::Offline);
    // Offline round-trip-time trigger.
    assert_eq!(sls::switch(&Some(sls_stat(5000, 4500)), &t), SwitchType::Offline);
    // Zero bitrate holds the previous scene.
    assert_eq!(sls::switch(&Some(sls_stat(0, 10)), &t), SwitchType::Previous);
    // Low bitrate trigger.
    assert_eq!(sls::switch(&Some(sls_stat(450, 10)), &t), SwitchType::Low);
    // Low round-trip-time trigger.
    assert_eq!(sls::switch(&Some(sls_stat(5000, 3000)), &t), SwitchType::Low);
    // Nothing fires.
    assert_eq!(sls::switch(&Some(sls_stat(5000, 10)), &t), SwitchType::Normal);
}

#[test]
fn disabled_triggers_never_fire() {
    let t = triggers(None, None, None, None);
    assert_eq!(sls::switch(&Some(sls_stat(1, 99999)), &t), SwitchType::Normal);
}

#[test]
fn belabox_classifies_like_the_shared_policy() {
    let t = triggers(Some(800), Some(2500), None, None);
    let stat = belabox::Stat { bitrate: 450, rtt: 30, dropped_pkts: 0 };
    assert_eq!(belabox::switch(&Some(stat), &t), SwitchType::Low);

    let zero = belabox::Stat { bitrate: 0, rtt: 30, dropped_pkts: 0 };
    assert_eq!(belabox::switch(&Some(zero), &t), SwitchType::Previous);

    // A zero-bitrate reading carries no bitrate message.
    let zero = belabox::Stat { bitrate: 0, rtt: 30, dropped_pkts: 0 };
    assert_eq!(belabox::bitrate(&Some(zero)), None);
}

#[test]
fn nms_offline_when_not_live() {
    let t = triggers(Some(800), None, None, None);
    let stat = nms::Stat { is_live: false, viewers: 10, duration: 5, bitrate: 3000 };
    assert_eq!(nms::switch(&Some(stat), &t), SwitchType::Offline);

    let live = nms::Stat { is_live: true, viewers: 10, duration: 5, bitrate: 3000 };
    assert_eq!(nms::switch(&Some(live), &t), SwitchType::Normal);

    let not_live = nms::Stat { is_live: false, viewers: 0, duration: 0, bitrate: 3000 };
    assert_eq!(nms::bitrate(&Some(not_live)), None);
}

#[test]
fn nginx_scales_video_bandwidth_into_kbps() {
    let t = triggers(Some(800), None, None, None);
    // 1948 Kbps: above the low trigger.
    let stream = nginx::NginxRtmpStream { name: "k".to_string(), bw_video: 1948 * 1024, audio: None };
    assert_eq!(nginx::switch(&Some(stream), &t), SwitchType::Normal);

    let slow = nginx::NginxRtmpStream { name: "k".to_string(), bw_video: 500 * 1024, audio: None };
    assert_eq!(nginx::switch(&Some(slow), &t), SwitchType::Low);

    let stream = nginx::NginxRtmpStream { name: "k".to_string(), bw_video: 1948 * 1024, audio: None };
    assert_eq!(nginx::bitrate(&Some(stream)), Some(1948));
}

#[test]
fn nginx_selects_the_last_matching_stream() {
    let mk = |name: &str, bw: u32| nginx::NginxRtmpStream {
        name: name.to_string(),
        bw_video: bw,
        audio: None,
    };
    let apps = vec![
        nginx::NginxRtmpApp {
            name: "publish".to_string(),
            streams: vec![mk("other", 1), mk("key", 2), mk("key", 3)],
        },
        nginx::NginxRtmpApp { name: "ignored".to_string(), streams: vec![mk("key", 4)] },
    ];
    let hit = nginx::find_stream(&apps, &"publish".to_string(), &"key".to_string());
    assert_eq!(hit.map(|s| s.bw_video), Some(3));

    let miss = nginx::find_stream(&apps, &"publish".to_string(), &"nope".to_string());
    assert!(miss.is_none());
}

#[test]
fn xiu_selects_the_first_publisher() {
    let publisher = xiu::XiuPublisher {
        id: "1".to_string(),
        identifier: xiu::XiuIdentifier {
            rtmp: xiu::XiuRtmp { app_name: "live".to_string(), stream_name: "source".to_string() },
        },
        start_time: "t".to_string(),
        recv_bitrate: 1948,
        video: None,
        audio: None,
    };
    let resp = xiu::XiuResponse {
        error_code: 0,
        desp: "succ".to_string(),
        data: vec![xiu::XiuStreamInfo { publisher, subscriber_count: 2 }],
    };
    let selected = xiu::select_publisher(resp).expect("publisher expected");
    assert_eq!(selected.recv_bitrate, 1948);

    let empty = xiu::XiuResponse { error_code: 0, desp: "ok".to_string(), data: vec![] };
    assert!(xiu::select_publisher(empty).is_none());

    let failed = xiu::XiuResponse { error_code: 1, desp: "err".to_string(), data: vec![] };
    assert!(xiu::select_publisher(failed).is_none());
}

#[test]
fn rist_aggregates_peers() {
    let peer = |bitrate: u64, rtt: u64| rist::Peer {
        stats: rist::PeerStats { rtt, avg_rtt: rtt, bitrate, avg_bitrate: bitrate },
    };

    // One peer, as one real receiver reports it.
    let (kbps, rtt) = rist::aggregate(&vec![peer(6651751, 283)]);
    assert_eq!(kbps, 6651751 / 1024);
    assert_eq!(rtt, Some(283));

    // Two peers: bitrates add up, round-trip times average.
    let (kbps, rtt) = rist::aggregate(&vec![peer(1024, 100), peer(3072, 200)]);
    assert_eq!(kbps, 4);
    assert_eq!(rtt, Some(150));

    // No peers: no signal at all.
    let (kbps, rtt) = rist::aggregate(&vec![]);
    assert_eq!(kbps, 0);
    assert_eq!(rtt, None);

    let none = rist::RistStats { receiver_stats: None };
    assert_eq!(rist::bitrate(&Some(none)), None);
}

#[test]
fn nimble_reads_the_mirrored_bandwidth_string() {
    let t = triggers(Some(800), None, None, None);
    let stat = |bandwidth: &str| nimble::Stat {
        srt: nimble::SrtReceiver {
            id: "0.0.0.0:1234".to_string(),
            state: "connected".to_string(),
            stats: nimble::Stats {
                time: 0,
                window: nimble::Window { flow: 0, congestion: 0, flight: 0 },
                link: nimble::Link { rtt: 40, mbps_max_bandwidth: 0 },
            },
        },
        rtmp: nimble::Streams {
            acodec: None,
            vcodec: "h264".to_string(),
            publish_time: "t".to_string(),
            bandwidth: bandwidth.to_string(),
            protocol: "rtmp".to_string(),
            resolution: "1080p".to_string(),
            strm: "key".to_string(),
        },
    };

    // 2048000 bits per second spell 2000 Kbps.
    assert_eq!(nimble::switch(&Some(stat("2048000")), &t), SwitchType::Normal);
    assert_eq!(nimble::bitrate(&Some(stat("2048000"))), Some((2000, 40)));

    // An unreadable bandwidth string fails safe.
    assert_eq!(nimble::switch(&Some(stat("fast")), &t), SwitchType::Offline);
    assert_eq!(nimble::bitrate(&Some(stat("fast"))), None);
}

#[test]
fn nimble_finds_receivers_by_substring() {
    let receiver = |id: &str| nimble::SrtReceiver {
        id: id.to_string(),
        state: "connected".to_string(),
        stats: nimble::Stats {
            time: 0,
            window: nimble::Window { flow: 0, congestion: 0, flight: 0 },
            link: nimble::Link { rtt: 0, mbps_max_bandwidth: 0 },
        },
    };
    let receivers = vec![receiver("udp://0.0.0.0:2020"), receiver("udp://0.0.0.0:3030")];
    assert_eq!(nimble::find_receiver(&receivers, &"0.0.0.0:3030".to_string()), Some(1));
    assert_eq!(nimble::find_receiver(&receivers, &"9999".to_string()), None);
}

#[test]
fn mediamtx_derives_bitrate_from_the_byte_counter() {
    let mut cache = mediamtx::Cache::default();

    // The first moving reading derives against the fresh cache's anchor:
    // 125000 bytes in two seconds are 500 Kbps.
    let r = cache.update(125000, 2000);
    assert_eq!(r, Some(500));
    assert_eq!(cache.prev_bytes_received, 125000);

    // One second later: 125000 more bytes in 1000 ms are 1000 Kbps.
    let r = cache.update(250000, 3000);
    assert_eq!(r, Some(1000));
    assert_eq!(cache.bitrate, 1000);

    // A stalled counter means no signal.
    let r = cache.update(250000, 4000);
    assert_eq!(r, None);

    // Within the same second the previous derivation is reported.
    let r = cache.update(260000, 3500);
    assert_eq!(r, Some(1000));
}

#[test]
fn mediamtx_classifies_with_optional_rtt() {
    let t = triggers(Some(800), Some(2500), None, None);
    let stats = mediamtx::Stats { bitrate: 3000, srt: None };
    assert_eq!(mediamtx::switch(&Some(stats), &t), SwitchType::Normal);

    let srt = mediamtx::SrtStats {
        ms_rtt: 3000,
        packets_received_drop: 0,
        packets_received_loss: 0,
        packets_received_retrans: 0,
        ms_send_tsb_pd_delay: 0,
        ms_receive_tsb_pd_delay: 0,
    };
    let stats = mediamtx::Stats { bitrate: 3000, srt: Some(srt) };
    assert_eq!(mediamtx::switch(&Some(stats), &t), SwitchType::Low);
}

#[test]
fn obs_media_source_counts_as_normal_only_while_playing() {
    let t = triggers(None, None, None, None);
    assert_eq!(obs::switch(&Some((MediaState::Playing, 5)), &t), SwitchType::Normal);
    // Too early after starting.
    assert_eq!(obs::switch(&Some((MediaState::Playing, 2)), &t), SwitchType::Offline);
    assert_eq!(obs::switch(&Some((MediaState::Paused, 10)), &t), SwitchType::Offline);
}

#[test]
fn obs_queries_the_stand_in_source_on_the_offline_scene() {
    let (name, special) = obs::stats_source_name(
        &"feed".to_string(),
        &"offline".to_string(),
        &"offline".to_string(),
    );
    assert!(special);
    assert_eq!(name, "feed_noalbs");

    let (name, special) = obs::stats_source_name(
        &"feed".to_string(),
        &"live".to_string(),
        &"offline".to_string(),
    );
    assert!(!special);
    assert_eq!(name, "feed");
}
