use noalbs::api_v3::Progress;
use noalbs::restreamer::{progress_info_string, Restreamer};
use noalbs::stream_servers::{Backend, BackendStats, StreamServersCommands, SwitchLogic};
use noalbs::switcher::{SwitchType, Triggers};
use noalbs::text::decimal_string;

fn progress(bitrate_bps: u64, drop: u64) -> Progress {
    Progress {
        bitrate_bps,
        drop,
        dup: 0,
        fps_milli: 30_000,
        frame: 100,
        inputs: Vec::new(),
        outputs: Vec::new(),
        packet: 100,
        q_milli: -1000,
        size_kb: 10,
        speed: 1,
        time_ms: 3_000,
    }
}

fn restreamer() -> Restreamer {
    Restreamer {
        base_url: "http://localhost:8080".to_string(),
        username: "admin".to_string(),
        password: "pa55word".to_string(),
        channel: "main".to_string(),
    }
}

#[test]
fn decimal_strings() {
    assert_eq!(decimal_string(0), "0");
    assert_eq!(decimal_string(7), "7");
    assert_eq!(decimal_string(10), "10");
    assert_eq!(decimal_string(2499), "2499");
    assert_eq!(decimal_string(u64::MAX), "18446744073709551615");
}

#[test]
fn restreamer_switch_reads_progress_bitrate() {
    let r = restreamer();
    let t = Triggers { low: Some(500), offline: Some(200) };
    assert_eq!(r.switch(&Some(progress(150_000, 0)), &t), SwitchType::Offline);
    assert_eq!(r.switch(&Some(progress(500_000, 0)), &t), SwitchType::Low);
    assert_eq!(r.switch(&Some(progress(3_000_000, 0)), &t), SwitchType::Normal);
    assert_eq!(r.switch(&None, &t), SwitchType::Offline);
    let only_offline = Triggers { low: None, offline: Some(200) };
    assert_eq!(r.switch(&Some(progress(0, 0)), &only_offline), SwitchType::Previous);
}

#[test]
fn restreamer_bitrate_command() {
    let r = restreamer();
    assert_eq!(r.bitrate(&Some(progress(2_499_700, 0))).message, Some("2499".to_string()));
    assert_eq!(r.bitrate(&Some(progress(0, 5))).message, None);
    assert_eq!(r.bitrate(&None).message, None);
}

#[test]
fn restreamer_source_info_command() {
    let r = restreamer();
    assert_eq!(
        r.source_info(&Some(progress(2_499_700, 3))),
        Some("2499.7 Kbps | dropped 3 packets".to_string())
    );
    assert_eq!(
        r.source_info(&Some(progress(0, 0))),
        Some("0.0 Kbps | dropped 0 packets".to_string())
    );
    assert_eq!(r.source_info(&None), None);
}

#[test]
fn source_info_rounds_to_one_decimal() {
    assert_eq!(progress_info_string(&progress(3_000_000, 12)), "3000.0 Kbps | dropped 12 packets");
    assert_eq!(progress_info_string(&progress(2_499_750, 0)), "2499.8 Kbps | dropped 0 packets");
    assert_eq!(progress_info_string(&progress(2_499_749, 0)), "2499.7 Kbps | dropped 0 packets");
    assert_eq!(progress_info_string(&progress(999_960, 1)), "1000.0 Kbps | dropped 1 packets");
    assert_eq!(
        progress_info_string(&progress(u64::MAX, u64::MAX)),
        "18446744073709551.6 Kbps | dropped 18446744073709551615 packets"
    );
}

#[test]
fn backend_dispatches_to_its_kind() {
    let b = Backend::Restreamer(restreamer());
    let t = Triggers { low: Some(500), offline: Some(200) };
    let stats = Some(BackendStats::Restreamer(progress(450_500, 2)));
    assert_eq!(b.switch(&stats, &t), SwitchType::Low);
    assert_eq!(b.switch(&None, &t), SwitchType::Offline);
    assert_eq!(b.bitrate(&stats).message, Some("450".to_string()));
    assert_eq!(b.source_info(&stats), Some("450.5 Kbps | dropped 2 packets".to_string()));
    assert_eq!(b.source_info(&None), None);
}
