use traffic_monitor::address::Address;
use traffic_monitor::catalogue::MetricId;
use traffic_monitor::catalogue::MetricKind;
use traffic_monitor::catalogue::MetricLabel;
use traffic_monitor::endpoint::route;
use traffic_monitor::endpoint::Reply;
use traffic_monitor::entry::Counters;
use traffic_monitor::exporter::ExportedTotals;
use traffic_monitor::exporter::MetricsExporter;
use traffic_monitor::exporter::Tally;
use traffic_monitor::store::EntrySnapshot;
use traffic_monitor::store::StatisticsStore;
use traffic_monitor::subnet::ipv4_list;
use traffic_monitor::subnet::MonitoredSet;
use traffic_monitor::uplink::UplinkAssignmentSnapshot;
use traffic_monitor::uplink::UplinkLabel;
use traffic_monitor::uplink::UplinkMapping;

const SECOND: u64 = 1_000_000_000;

fn v4(a: u8, b: u8, c: u8, d: u8) -> Address {
    Address::V4(u32::from_be_bytes([a, b, c, d]))
}

fn subnet() -> MonitoredSet {
    ipv4_list(u32::from_be_bytes([10, 40, 0, 1]), 24)
}

fn uplinks(wan1: &[Address]) -> UplinkAssignmentSnapshot {
    let pairs: Vec<UplinkMapping> = wan1
        .iter()
        .map(|a| UplinkMapping { address: Some(*a), label: "wan1".to_string() })
        .collect();
    UplinkAssignmentSnapshot::from_mappings(&pairs)
}

fn row(address: Address, tx_bytes: u64, rx_bytes: u64, tx_rate: u64, rx_rate: u64) -> EntrySnapshot {
    EntrySnapshot {
        address,
        counters: Counters {
            tx_bytes,
            rx_bytes,
            tx_bytes_per_sec: tx_rate,
            rx_bytes_per_sec: rx_rate,
            window_nanos: SECOND,
            retransmissions_per_sec: 1,
            duplicate_acks_per_sec: 2,
            window_changes_per_sec: 3,
            ..Counters::fresh(0)
        },
    }
}

fn zero_tally() -> Tally {
    Tally {
        addresses: 0,
        tx_bytes: 0,
        rx_bytes: 0,
        tx_bytes_per_sec: 0,
        rx_bytes_per_sec: 0,
        retransmissions_per_sec: 0,
        duplicate_acks_per_sec: 0,
        window_changes_per_sec: 0,
    }
}

#[test]
fn an_empty_snapshot_gives_an_empty_report() {
    let mut exporter = MetricsExporter::new();
    let report = exporter.update_metrics(&vec![], &subnet(), &uplinks(&[]));
    assert!(report.addresses.is_empty());
    assert_eq!(report.totals, ExportedTotals { tx_bytes: 0, rx_bytes: 0 });
    assert_eq!(report.monitored, zero_tally());
    assert_eq!(report.wan0, zero_tally());
    assert_eq!(report.wan1, zero_tally());
}

#[test]
fn totals_count_monitored_addresses_and_series_count_all() {
    let mut exporter = MetricsExporter::new();
    let rows = vec![
        row(v4(10, 40, 0, 5), 1000, 2000, 10, 20),
        row(v4(8, 8, 8, 8), 5000, 6000, 50, 60),
        row(v4(10, 40, 0, 6), 300, 400, 3, 4),
        row(Address::V6(9), 70, 0, 7, 0),
    ];
    let report = exporter.update_metrics(&rows, &subnet(), &uplinks(&[v4(10, 40, 0, 6), v4(8, 8, 8, 8)]));
    assert_eq!(report.addresses.len(), 4);
    assert_eq!(report.totals, ExportedTotals { tx_bytes: 1300, rx_bytes: 2400 });
    assert_eq!(
        report.monitored,
        Tally {
            addresses: 2,
            tx_bytes: 1300,
            rx_bytes: 2400,
            tx_bytes_per_sec: 13,
            rx_bytes_per_sec: 24,
            retransmissions_per_sec: 2,
            duplicate_acks_per_sec: 4,
            window_changes_per_sec: 6,
        }
    );
    assert_eq!(report.wan0.addresses, 2);
    assert_eq!((report.wan0.tx_bytes_per_sec, report.wan0.rx_bytes_per_sec), (17, 20));
    assert_eq!(report.wan1.addresses, 2);
    assert_eq!((report.wan1.tx_bytes_per_sec, report.wan1.rx_bytes_per_sec), (53, 64));
    assert_eq!((report.wan1.tx_bytes, report.wan1.rx_bytes), (5300, 6400));

    let outside = report.addresses[1];
    assert_eq!(outside.address, v4(8, 8, 8, 8));
    assert!(!outside.monitored);
    assert_eq!(outside.uplink, UplinkLabel::Wan1);
    assert_eq!((outside.tx_bytes_total, outside.rx_bytes_total), (5000, 6000));
    assert_eq!((outside.tx_bytes_per_sec, outside.rx_bytes_per_sec), (50, 60));
    assert_eq!(outside.window_nanos, SECOND);
    assert_eq!(
        (outside.retransmissions_per_sec, outside.duplicate_acks_per_sec, outside.window_changes_per_sec),
        (1, 2, 3)
    );
    let inside = report.addresses[0];
    assert!(inside.monitored);
    assert_eq!(inside.uplink, UplinkLabel::Wan0);
    let six = report.addresses[3];
    assert!(!six.monitored);
    assert_eq!(six.uplink, UplinkLabel::Wan0);
}

#[test]
fn exported_counters_rise_or_hold_but_never_fall() {
    let mut exporter = MetricsExporter::new();
    let set = subnet();
    let none = uplinks(&[]);
    let host = v4(10, 40, 0, 5);
    let first = exporter.update_metrics(&vec![row(host, 1000, 2000, 0, 0)], &set, &none);
    assert_eq!((first.addresses[0].tx_bytes_total, first.addresses[0].rx_bytes_total), (1000, 2000));
    // a lower recomputed count is not exported
    let second = exporter.update_metrics(&vec![row(host, 400, 2500, 0, 0)], &set, &none);
    assert_eq!((second.addresses[0].tx_bytes_total, second.addresses[0].rx_bytes_total), (1000, 2500));
    assert_eq!(second.totals, ExportedTotals { tx_bytes: 1000, rx_bytes: 2500 });
    assert_eq!(second.monitored.tx_bytes, 400);
    // an address that is missing from a snapshot keeps what was exported
    let third = exporter.update_metrics(&vec![], &set, &none);
    assert_eq!(third.totals, ExportedTotals { tx_bytes: 1000, rx_bytes: 2500 });
    let fourth = exporter.update_metrics(&vec![row(host, 1001, 1, 0, 0)], &set, &none);
    assert_eq!((fourth.addresses[0].tx_bytes_total, fourth.addresses[0].rx_bytes_total), (1001, 2500));
    assert_eq!(fourth.totals, ExportedTotals { tx_bytes: 1001, rx_bytes: 2500 });
}

#[test]
fn a_repeated_address_is_raised_row_by_row() {
    let mut exporter = MetricsExporter::new();
    let host = v4(10, 40, 0, 5);
    let rows = vec![row(host, 10, 100, 1, 1), row(host, 30, 50, 1, 1), row(host, 20, 60, 1, 1)];
    let report = exporter.update_metrics(&rows, &subnet(), &uplinks(&[]));
    assert_eq!((report.addresses[0].tx_bytes_total, report.addresses[0].rx_bytes_total), (10, 100));
    assert_eq!((report.addresses[1].tx_bytes_total, report.addresses[1].rx_bytes_total), (30, 100));
    assert_eq!((report.addresses[2].tx_bytes_total, report.addresses[2].rx_bytes_total), (30, 100));
    assert_eq!(report.monitored.addresses, 3);
    assert_eq!(report.monitored.tx_bytes, 60);
}

#[test]
fn sums_stop_at_the_top_of_their_range() {
    let mut exporter = MetricsExporter::new();
    let rows = vec![
        row(v4(10, 40, 0, 5), u64::MAX - 1, 5, u64::MAX, 0),
        row(v4(10, 40, 0, 6), 7, 5, 1, 0),
    ];
    let report = exporter.update_metrics(&rows, &subnet(), &uplinks(&[]));
    assert_eq!(report.monitored.tx_bytes, u64::MAX);
    assert_eq!(report.monitored.rx_bytes, 10);
    assert_eq!(report.monitored.tx_bytes_per_sec, u64::MAX);
    assert_eq!(report.totals.tx_bytes, u64::MAX);
    assert_eq!(report.wan0.tx_bytes_per_sec, u64::MAX);
}

#[test]
fn exported_totals_never_fall_across_sampling_cycles() {
    let mut store = StatisticsStore::new();
    let mut exporter = MetricsExporter::new();
    let set = subnet();
    let none = uplinks(&[]);
    let mut last_total = ExportedTotals { tx_bytes: 0, rx_bytes: 0 };
    let mut last_host = (0u64, 0u64);
    for cycle in 0..50u64 {
        let now = cycle * SECOND / 3;
        store.record_transmit(v4(10, 40, 0, 5), 100 + cycle, now);
        store.record_receive(v4(10, 40, 0, 5), 7 * cycle, now);
        store.record_receive(v4(10, 40, 0, 9), 40, now);
        store.record_transmit(v4(1, 1, 1, 1), 9, now);
        store.sample(now);
        let report = exporter.update_metrics(&store.snapshot(), &set, &none);
        assert!(report.totals.tx_bytes >= last_total.tx_bytes);
        assert!(report.totals.rx_bytes >= last_total.rx_bytes);
        let host = report.addresses[0];
        assert!(host.tx_bytes_total >= last_host.0 && host.rx_bytes_total >= last_host.1);
        last_total = report.totals;
        last_host = (host.tx_bytes_total, host.rx_bytes_total);
    }
    assert_eq!(last_total.tx_bytes, (0..50u64).map(|c| 100 + c).sum::<u64>());
    assert_eq!(last_total.rx_bytes, (0..50u64).map(|c| 7 * c).sum::<u64>() + 50 * 40);
}

#[test]
fn raising_holds_the_higher_value() {
    let mut totals = ExportedTotals { tx_bytes: 10, rx_bytes: 20 };
    totals.raise(5, 25);
    assert_eq!(totals, ExportedTotals { tx_bytes: 10, rx_bytes: 25 });
    totals.raise(11, 25);
    assert_eq!(totals, ExportedTotals { tx_bytes: 11, rx_bytes: 25 });
}

#[test]
fn the_catalogue_names_every_metric_once() {
    let all = [
        MetricId::TxBytesTotal,
        MetricId::RxBytesTotal,
        MetricId::TxBytesPerSec,
        MetricId::RxBytesPerSec,
        MetricId::TxBps,
        MetricId::RxBps,
        MetricId::RetransmissionsPerSec,
        MetricId::DuplicateAcksPerSec,
        MetricId::WindowSizeChangesPerSec,
        MetricId::IpTxBytesTotal,
        MetricId::IpRxBytesTotal,
        MetricId::IpTxBytesPerSec,
        MetricId::IpRxBytesPerSec,
        MetricId::IpTxBps,
        MetricId::IpRxBps,
        MetricId::IpRetransmissionsPerSec,
        MetricId::IpDuplicateAcksPerSec,
        MetricId::IpWindowSizeChangesPerSec,
        MetricId::IpRetransmissionsTotal,
        MetricId::IpDuplicateAcksTotal,
        MetricId::IpWindowSizeChangesTotal,
        MetricId::NicTxBpsTotal,
        MetricId::NicRxBpsTotal,
        MetricId::NicTxBytesPerSecTotal,
        MetricId::NicRxBytesPerSecTotal,
    ];
    for (i, a) in all.iter().enumerate() {
        for b in all.iter().skip(i + 1) {
            assert_ne!(a.name(), b.name());
        }
        assert!(a.name().starts_with("network_"));
        assert!(!a.help().is_empty());
        assert_eq!(a.kind() == MetricKind::Counter, a.name().ends_with("_total") && !a.name().contains("_bps_") && !a.name().contains("_per_sec_"));
    }
    assert_eq!(MetricId::TxBytesTotal.name(), "network_tx_bytes_total");
    assert_eq!(MetricId::TxBytesTotal.help(), "Total transmitted bytes");
    assert_eq!(MetricId::TxBytesTotal.kind(), MetricKind::Counter);
    assert_eq!(MetricId::TxBytesTotal.label(), MetricLabel::Overall);
    assert_eq!(MetricId::IpRxBps.name(), "network_ip_rx_bps");
    assert_eq!(MetricId::IpRxBps.help(), "Received bits per second per IP");
    assert_eq!(MetricId::IpRxBps.kind(), MetricKind::Gauge);
    assert_eq!(MetricId::IpRxBps.label(), MetricLabel::IpAddress);
    assert_eq!(MetricId::NicTxBpsTotal.name(), "network_ip_tx_bps_total");
    assert_eq!(MetricId::NicTxBpsTotal.kind(), MetricKind::Gauge);
    assert_eq!(MetricId::NicTxBpsTotal.label(), MetricLabel::Nic);
    assert_eq!(MetricId::NicRxBytesPerSecTotal.help(), "Total received bytes per second by NIC");
    assert_eq!(MetricId::IpWindowSizeChangesTotal.kind(), MetricKind::Counter);
    assert_eq!(MetricLabel::Overall.key(), None);
    assert_eq!(MetricLabel::IpAddress.key(), Some("ip_address"));
    assert_eq!(MetricLabel::Nic.key(), Some("nic"));
}

#[test]
fn only_the_metrics_path_is_served() {
    assert_eq!(route("/metrics"), Reply::Metrics);
    assert_eq!(route("/metrics").status(), 200);
    assert_eq!(route("/"), Reply::NotFound);
    assert_eq!(route("/metrics/"), Reply::NotFound);
    assert_eq!(route("/Metrics"), Reply::NotFound);
    assert_eq!(route(""), Reply::NotFound);
    assert_eq!(route("/status").status(), 404);
}
