use verge_ssh::status::{TunnelMetrics, TunnelStats, TunnelStatus};
use verge_ssh::text::{decimal_string, is_blank, starts_with, str_eq, strip_prefix, trim, trim_start};

#[test]
fn decimal_formatting() {
    assert_eq!(decimal_string(0), "0");
    assert_eq!(decimal_string(7), "7");
    assert_eq!(decimal_string(10880), "10880");
    assert_eq!(decimal_string(u64::MAX), "18446744073709551615");
}

#[test]
fn trimming_follows_unicode_whitespace() {
    assert_eq!(trim("  abc \t\n"), "abc");
    assert_eq!(trim("\u{3000}口令\u{a0}"), "口令");
    assert_eq!(trim(""), "");
    assert_eq!(trim("   "), "");
    assert_eq!(trim_start("  a b  "), "a b  ");
    assert!(is_blank(" \t "));
    assert!(is_blank(""));
    assert!(!is_blank(" x "));
}

#[test]
fn prefixes_and_equality() {
    assert!(starts_with("CVSSH1.abc", "CVSSH1."));
    assert!(!starts_with("CVSSH", "CVSSH1."));
    assert_eq!(strip_prefix("CVSSH1.abc", "CVSSH1."), Some("abc"));
    assert_eq!(strip_prefix("xCVSSH1.", "CVSSH1."), None);
    assert!(str_eq("隧道", "隧道"));
    assert!(!str_eq("a", "ab"));
}

#[test]
fn metrics_latency_reading() {
    let mut m = TunnelMetrics::new();
    assert_eq!(m.latency_ms(), None);
    assert_eq!((m.up, m.down), (0, 0));
    m.set_latency(Some(42));
    assert_eq!(m.latency_ms(), Some(42));
    m.set_latency(None);
    assert_eq!(m.latency_ms(), None);
    // u64::MAX is the slot for "unknown", so a reading of that value reads back as unknown
    m.set_latency(Some(u64::MAX));
    assert_eq!(m.latency_ms(), None);
}

#[test]
fn metrics_counters_wrap() {
    let mut m = TunnelMetrics::new();
    m.add_up(1500);
    m.add_down(20);
    m.add_down(22);
    assert_eq!((m.up, m.down), (1500, 42));
    m.add_up(u64::MAX);
    assert_eq!(m.up, 1499);
}

#[test]
fn stats_snapshots() {
    let mut m = TunnelMetrics::new();
    m.add_up(5);
    m.set_latency(Some(30));
    let s = TunnelStats::from_metrics(TunnelStatus::Running, &m);
    assert_eq!(s, TunnelStats { status: TunnelStatus::Running, latency_ms: Some(30), up: 5, down: 0 });
    assert_eq!(
        TunnelStats::stopped(),
        TunnelStats { status: TunnelStatus::Stopped, latency_ms: None, up: 0, down: 0 }
    );
    assert_eq!(TunnelStatus::default(), TunnelStatus::Stopped);
}
