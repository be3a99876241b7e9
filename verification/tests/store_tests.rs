use traffic_monitor::address::Address;
use traffic_monitor::address::AddressMap;
use traffic_monitor::address::AddressSet;
use traffic_monitor::entry::Counters;
use traffic_monitor::entry::StatEntry;
use traffic_monitor::entry::SAMPLE_WINDOW_NANOS;
use traffic_monitor::frame::TcpView;
use traffic_monitor::frame::TCP_ACK;
use traffic_monitor::frame::TCP_FIN;
use traffic_monitor::frame::TCP_PSH;
use traffic_monitor::frame::TCP_SYN;
use traffic_monitor::store::EntrySnapshot;
use traffic_monitor::store::StatisticsStore;

const SECOND: u64 = 1_000_000_000;

fn host(last: u8) -> Address {
    Address::V4(u32::from_be_bytes([10, 40, 0, last]))
}

fn segment(port: u16, seq: u32, payload: u32, flags: u8, window: u16) -> TcpView {
    TcpView {
        source_port: port,
        destination_port: port,
        sequence_number: seq,
        acknowledgment_number: 0,
        flags,
        window_size: window,
        payload_length: payload,
    }
}

fn counters(store: &StatisticsStore, address: Address) -> Counters {
    store.counters(&address).expect("the address was observed")
}

/// The bit rate of a window, as the exporter's readers compute it.
fn bits_per_second(bytes: u64, window_nanos: u64) -> f64 {
    if window_nanos == 0 {
        0.0
    } else {
        (bytes as f64 * 8.0) / (window_nanos as f64 / 1e9)
    }
}

#[test]
fn a_new_store_is_empty() {
    let store = StatisticsStore::new();
    assert_eq!(store.len(), 0);
    assert!(store.snapshot().is_empty());
    assert_eq!(store.counters(&host(1)), None);
    assert_eq!(store.expected_sequence(&host(1), 80), None);
    assert_eq!(store.last_window(&host(1), 80), None);
}

#[test]
fn entries_are_created_on_first_sight_with_zeroed_counters() {
    let mut store = StatisticsStore::new();
    store.record_transmit(host(1), 100, 42);
    assert_eq!(store.len(), 1);
    let c = counters(&store, host(1));
    assert_eq!(
        c,
        Counters { tx_packets: 1, tx_bytes: 100, ..Counters::fresh(42) }
    );
    assert_eq!(c.last_sample, 42);
    assert_eq!(c.window_nanos, 0);
    assert_eq!(Counters::fresh(42).tx_packets, 0);
}

#[test]
fn transmit_and_receive_are_counted_apart() {
    let mut store = StatisticsStore::new();
    store.record_transmit(host(1), 100, 0);
    store.record_transmit(host(1), 60, 1);
    store.record_receive(host(1), 1500, 2);
    store.record_receive(host(2), 40, 3);
    let one = counters(&store, host(1));
    assert_eq!((one.tx_packets, one.tx_bytes, one.rx_packets, one.rx_bytes), (2, 160, 1, 1500));
    let two = counters(&store, host(2));
    assert_eq!((two.tx_packets, two.tx_bytes, two.rx_packets, two.rx_bytes), (0, 0, 1, 40));
    assert_eq!(one.last_sample, 0);
    assert_eq!(two.last_sample, 3);
    assert_eq!(store.len(), 2);
}

#[test]
fn destination_only_addresses_have_sent_nothing() {
    let mut store = StatisticsStore::new();
    store.record_transmit(host(1), 100, 0);
    store.record_receive(host(9), 60, 1);
    store.record_receive_tcp(host(9), 54, &segment(443, 1, 0, TCP_ACK, 1000), 2);
    store.record_transmit_tcp(host(1), 54, &segment(443, 1, 0, TCP_ACK, 1000), 3);
    store.sample(2 * SECOND);
    store.record_receive(host(9), 1, 2 * SECOND + 1);
    let c = counters(&store, host(9));
    assert_eq!(c.tx_packets, 0);
    assert_eq!(c.tx_bytes, 0);
    assert_eq!(c.retransmissions, 0);
    assert_eq!(c.rx_packets, 3);
    assert_eq!(c.rx_bytes, 115);
}

#[test]
fn a_sequence_number_below_the_expected_one_is_a_retransmission() {
    let mut store = StatisticsStore::new();
    let a = segment(50000, 1000, 100, TCP_PSH | TCP_ACK, 64240);
    let b = segment(50000, 1050, 100, TCP_PSH | TCP_ACK, 64240);
    store.record_transmit_tcp(host(1), 154, &a, 0);
    assert_eq!(store.expected_sequence(&host(1), 50000), Some(1100));
    assert_eq!(counters(&store, host(1)).retransmissions, 0);
    store.record_transmit_tcp(host(1), 154, &b, 1);
    assert_eq!(counters(&store, host(1)).retransmissions, 1);
    assert_eq!(store.expected_sequence(&host(1), 50000), Some(1150));
    assert_eq!(counters(&store, host(1)).tx_packets, 2);
    assert_eq!(counters(&store, host(1)).tx_bytes, 308);
}

#[test]
fn a_segment_in_order_is_no_retransmission() {
    let mut store = StatisticsStore::new();
    store.record_transmit_tcp(host(1), 154, &segment(50000, 1000, 100, TCP_ACK, 1), 0);
    store.record_transmit_tcp(host(1), 154, &segment(50000, 1100, 100, TCP_ACK, 1), 1);
    store.record_transmit_tcp(host(1), 154, &segment(50000, 1200, 100, TCP_ACK, 1), 2);
    assert_eq!(counters(&store, host(1)).retransmissions, 0);
    assert_eq!(store.expected_sequence(&host(1), 50000), Some(1300));
}

#[test]
fn expected_sequence_is_kept_by_port() {
    let mut store = StatisticsStore::new();
    store.record_transmit_tcp(host(1), 154, &segment(1, 5000, 10, TCP_ACK, 1), 0);
    store.record_transmit_tcp(host(1), 154, &segment(2, 100, 10, TCP_ACK, 1), 1);
    assert_eq!(counters(&store, host(1)).retransmissions, 0);
    assert_eq!(store.expected_sequence(&host(1), 1), Some(5010));
    assert_eq!(store.expected_sequence(&host(1), 2), Some(110));
    assert_eq!(store.expected_sequence(&host(1), 3), None);
    assert_eq!(store.expected_sequence(&host(2), 1), None);
}

#[test]
fn syn_and_fin_take_one_sequence_number() {
    let mut store = StatisticsStore::new();
    store.record_transmit_tcp(host(1), 54, &segment(7, 1000, 0, TCP_SYN, 1), 0);
    assert_eq!(store.expected_sequence(&host(1), 7), Some(1001));
    store.record_transmit_tcp(host(1), 54, &segment(8, 2000, 0, TCP_FIN | TCP_ACK, 1), 0);
    assert_eq!(store.expected_sequence(&host(1), 8), Some(2001));
    // a payload counts for itself, whatever the flags
    store.record_transmit_tcp(host(1), 54, &segment(9, 3000, 20, TCP_SYN, 1), 0);
    assert_eq!(store.expected_sequence(&host(1), 9), Some(3020));
}

#[test]
fn a_bare_acknowledgment_leaves_the_expected_sequence_alone() {
    let mut store = StatisticsStore::new();
    store.record_transmit_tcp(host(1), 54, &segment(7, 1000, 0, TCP_ACK, 1), 0);
    assert_eq!(store.expected_sequence(&host(1), 7), None);
    store.record_transmit_tcp(host(1), 154, &segment(7, 1000, 100, TCP_ACK, 1), 1);
    store.record_transmit_tcp(host(1), 54, &segment(7, 1100, 0, TCP_ACK, 1), 2);
    assert_eq!(store.expected_sequence(&host(1), 7), Some(1100));
    assert_eq!(counters(&store, host(1)).retransmissions, 0);
}

#[test]
fn sequence_numbers_wrap_and_a_wrapped_one_counts_as_retransmission() {
    let mut store = StatisticsStore::new();
    store.record_transmit_tcp(host(1), 154, &segment(7, u32::MAX - 9, 100, TCP_ACK, 1), 0);
    assert_eq!(store.expected_sequence(&host(1), 7), Some(90));
    store.record_transmit_tcp(host(1), 54, &segment(8, u32::MAX, 0, TCP_SYN, 1), 0);
    assert_eq!(store.expected_sequence(&host(1), 8), Some(0));
    store.record_transmit_tcp(host(1), 154, &segment(9, u32::MAX - 200, 100, TCP_ACK, 1), 0);
    store.record_transmit_tcp(host(1), 154, &segment(9, u32::MAX - 100, 200, TCP_ACK, 1), 0);
    assert_eq!(counters(&store, host(1)).retransmissions, 0);
    store.record_transmit_tcp(host(1), 154, &segment(9, 99, 100, TCP_ACK, 1), 0);
    store.record_transmit_tcp(host(1), 154, &segment(9, 150, 100, TCP_ACK, 1), 0);
    assert_eq!(counters(&store, host(1)).retransmissions, 1);
}

#[test]
fn window_changes_are_counted_from_the_second_value_on() {
    let mut store = StatisticsStore::new();
    store.record_transmit_tcp(host(1), 54, &segment(7, 1, 0, TCP_ACK, 64240), 0);
    assert_eq!(counters(&store, host(1)).window_changes, 0);
    assert_eq!(store.last_window(&host(1), 7), Some(64240));
    store.record_transmit_tcp(host(1), 54, &segment(7, 1, 0, TCP_ACK, 64240), 1);
    assert_eq!(counters(&store, host(1)).window_changes, 0);
    store.record_transmit_tcp(host(1), 54, &segment(7, 1, 0, TCP_ACK, 29200), 2);
    assert_eq!(counters(&store, host(1)).window_changes, 1);
    assert_eq!(store.last_window(&host(1), 7), Some(29200));
}

#[test]
fn the_window_table_is_shared_by_both_directions() {
    let mut store = StatisticsStore::new();
    let mut out = segment(7, 1, 0, TCP_ACK, 1000);
    out.destination_port = 80;
    let mut back = segment(80, 1, 0, TCP_ACK, 2000);
    back.destination_port = 7;
    store.record_transmit_tcp(host(1), 54, &out, 0);
    store.record_receive_tcp(host(1), 54, &back, 1);
    // the received segment is held against port 7, which the sent one set
    assert_eq!(counters(&store, host(1)).window_changes, 1);
    assert_eq!(store.last_window(&host(1), 7), Some(2000));
    assert_eq!(store.last_window(&host(1), 80), None);
}

#[test]
fn every_bare_inbound_acknowledgment_counts_as_duplicate() {
    let mut store = StatisticsStore::new();
    store.record_receive_tcp(host(1), 54, &segment(7, 1, 0, TCP_ACK, 1), 0);
    store.record_receive_tcp(host(1), 54, &segment(7, 1, 0, TCP_ACK | TCP_FIN, 1), 1);
    assert_eq!(counters(&store, host(1)).duplicate_acks, 2);
    store.record_receive_tcp(host(1), 154, &segment(7, 1, 100, TCP_ACK, 1), 2);
    store.record_receive_tcp(host(1), 54, &segment(7, 1, 0, TCP_SYN, 1), 3);
    assert_eq!(counters(&store, host(1)).duplicate_acks, 2);
    assert_eq!(counters(&store, host(1)).rx_packets, 4);
    assert_eq!(counters(&store, host(1)).rx_bytes, 316);
    assert_eq!(store.expected_sequence(&host(1), 7), None);
    assert_eq!(counters(&store, host(1)).retransmissions, 0);
}

#[test]
fn a_sent_acknowledgment_is_no_duplicate() {
    let mut store = StatisticsStore::new();
    store.record_transmit_tcp(host(1), 54, &segment(7, 1, 0, TCP_ACK, 1), 0);
    assert_eq!(counters(&store, host(1)).duplicate_acks, 0);
}

#[test]
fn counters_stop_at_the_top_of_their_range() {
    let mut store = StatisticsStore::new();
    store.record_transmit(host(1), u64::MAX - 5, 0);
    store.record_transmit(host(1), 3, 0);
    assert_eq!(counters(&store, host(1)).tx_bytes, u64::MAX - 2);
    store.record_transmit(host(1), 10, 0);
    assert_eq!(counters(&store, host(1)).tx_bytes, u64::MAX);
    store.record_transmit(host(1), u64::MAX, 0);
    assert_eq!(counters(&store, host(1)).tx_bytes, u64::MAX);
    assert_eq!(counters(&store, host(1)).tx_packets, 4);
    store.record_receive(host(1), u64::MAX, 0);
    store.record_receive(host(1), u64::MAX, 0);
    assert_eq!(counters(&store, host(1)).rx_bytes, u64::MAX);
}

#[test]
fn ten_thousand_bytes_in_one_second_are_eighty_thousand_bits_per_second() {
    let mut store = StatisticsStore::new();
    store.record_transmit(host(1), 4000, 0);
    store.record_transmit(host(1), 6000, 500);
    store.sample(SECOND);
    let c = counters(&store, host(1));
    assert_eq!(c.tx_bytes_per_sec, 10000);
    assert_eq!(c.window_nanos, SECOND);
    assert_eq!(bits_per_second(c.tx_bytes_per_sec, c.window_nanos), 80000.0);
    assert_eq!(c.rx_bytes_per_sec, 0);
    assert_eq!(bits_per_second(c.rx_bytes_per_sec, c.window_nanos), 0.0);
    assert_eq!(c.sampled_tx_bytes, 10000);
    assert_eq!(c.last_sample, SECOND);
    // a second sample with no time gone by changes nothing
    store.sample(SECOND);
    assert_eq!(counters(&store, host(1)), c);
    store.sample(SECOND + SECOND - 1);
    assert_eq!(counters(&store, host(1)), c);
}

#[test]
fn a_sample_before_a_second_has_passed_changes_nothing() {
    let mut store = StatisticsStore::new();
    store.record_transmit(host(1), 10000, 100);
    let before = counters(&store, host(1));
    store.sample(100 + SECOND - 1);
    assert_eq!(counters(&store, host(1)), before);
    store.sample(50);
    assert_eq!(counters(&store, host(1)), before);
    store.sample(100 + SECOND);
    assert_eq!(counters(&store, host(1)).tx_bytes_per_sec, 10000);
}

#[test]
fn a_late_sample_dilutes_the_bit_rate_but_not_the_byte_figure() {
    let mut store = StatisticsStore::new();
    store.record_receive(host(1), 10000, 0);
    store.sample(2 * SECOND);
    let c = counters(&store, host(1));
    assert_eq!(c.rx_bytes_per_sec, 10000);
    assert_eq!(c.window_nanos, 2 * SECOND);
    assert_eq!(bits_per_second(c.rx_bytes_per_sec, c.window_nanos), 40000.0);
}

#[test]
fn each_sample_reports_the_growth_since_the_last() {
    let mut store = StatisticsStore::new();
    let ack = segment(7, 1, 0, TCP_ACK, 100);
    store.record_transmit(host(1), 1000, 0);
    store.record_receive_tcp(host(1), 54, &ack, 1);
    store.sample(SECOND);
    store.record_transmit(host(1), 250, SECOND + 1);
    store.record_receive_tcp(host(1), 54, &segment(7, 1, 0, TCP_ACK, 200), SECOND + 2);
    store.record_receive_tcp(host(1), 54, &segment(7, 1, 0, TCP_ACK, 300), SECOND + 3);
    store.record_transmit_tcp(host(1), 154, &segment(9, 100, 100, TCP_ACK, 5), SECOND + 4);
    store.record_transmit_tcp(host(1), 154, &segment(9, 100, 100, TCP_ACK, 5), SECOND + 5);
    let first = counters(&store, host(1));
    assert_eq!(first.tx_bytes_per_sec, 1000);
    assert_eq!(first.rx_bytes_per_sec, 54);
    assert_eq!(first.duplicate_acks_per_sec, 1);
    assert_eq!(first.window_changes_per_sec, 0);
    store.sample(2 * SECOND + 7);
    let second = counters(&store, host(1));
    assert_eq!(second.tx_bytes_per_sec, 558);
    assert_eq!(second.rx_bytes_per_sec, 108);
    assert_eq!(second.duplicate_acks_per_sec, 2);
    assert_eq!(second.window_changes_per_sec, 2);
    assert_eq!(second.retransmissions_per_sec, 1);
    assert_eq!(second.window_nanos, SECOND + 7);
    // cumulative counters are what they were before the sample
    assert_eq!(second.tx_bytes, 1558);
    assert_eq!(second.rx_bytes, 162);
    assert_eq!(second.duplicate_acks, 3);
    assert_eq!(second.window_changes, 2);
    assert_eq!(second.retransmissions, 1);
    store.sample(3 * SECOND + 7);
    let third = counters(&store, host(1));
    assert_eq!(third.tx_bytes_per_sec, 0);
    assert_eq!(third.duplicate_acks_per_sec, 0);
    assert_eq!(third.tx_bytes, 1558);
}

#[test]
fn entries_are_sampled_each_by_its_own_clock() {
    let mut store = StatisticsStore::new();
    store.record_transmit(host(1), 100, 0);
    store.record_transmit(host(2), 200, SECOND / 2);
    store.sample(SECOND);
    assert_eq!(counters(&store, host(1)).tx_bytes_per_sec, 100);
    assert_eq!(counters(&store, host(2)).tx_bytes_per_sec, 0);
    assert_eq!(counters(&store, host(2)).last_sample, SECOND / 2);
    store.sample(SECOND + SECOND / 2);
    assert_eq!(counters(&store, host(1)).tx_bytes_per_sec, 100);
    assert_eq!(counters(&store, host(2)).tx_bytes_per_sec, 200);
    assert_eq!(SAMPLE_WINDOW_NANOS, SECOND);
}

#[test]
fn cumulative_counters_never_fall_over_a_mixed_run() {
    let mut store = StatisticsStore::new();
    let mut last = Counters::fresh(0);
    let mut seed: u64 = 99;
    for step in 0..500u64 {
        seed = seed.wrapping_mul(6364136223846793005).wrapping_add(1442695040888963407);
        let now = step * (SECOND / 7);
        let tcp = segment((seed >> 40) as u16 % 4, (seed >> 8) as u32 % 5000, (seed >> 3) as u32 % 3 * 100, (seed >> 20) as u8, (seed >> 50) as u16 % 3);
        match seed % 5 {
            0 => store.record_transmit(host(1), seed % 1500, now),
            1 => store.record_receive(host(1), seed % 1500, now),
            2 => store.record_transmit_tcp(host(1), seed % 1500, &tcp, now),
            3 => store.record_receive_tcp(host(1), seed % 1500, &tcp, now),
            _ => store.sample(now),
        }
        if let Some(c) = store.counters(&host(1)) {
            assert!(c.tx_packets >= last.tx_packets);
            assert!(c.rx_packets >= last.rx_packets);
            assert!(c.tx_bytes >= last.tx_bytes);
            assert!(c.rx_bytes >= last.rx_bytes);
            assert!(c.retransmissions >= last.retransmissions);
            assert!(c.duplicate_acks >= last.duplicate_acks);
            assert!(c.window_changes >= last.window_changes);
            assert!(c.sampled_tx_bytes <= c.tx_bytes);
            assert!(c.sampled_rx_bytes <= c.rx_bytes);
            last = c;
        }
    }
    assert!(last.tx_packets > 0 && last.retransmissions > 0 && last.window_changes > 0);
}

#[test]
fn snapshot_lists_entries_in_order_of_first_sight() {
    let mut store = StatisticsStore::new();
    store.record_receive(host(3), 1, 10);
    store.record_transmit(Address::V6(77), 2, 20);
    store.record_transmit(host(1), 3, 30);
    store.record_transmit(host(3), 4, 40);
    let rows = store.snapshot();
    assert_eq!(rows.len(), 3);
    assert_eq!(rows[0].address, host(3));
    assert_eq!(rows[1].address, Address::V6(77));
    assert_eq!(rows[2].address, host(1));
    assert_eq!(rows[0], EntrySnapshot { address: host(3), counters: counters(&store, host(3)) });
    assert_eq!(rows[0].counters.tx_bytes, 4);
    assert_eq!(rows[1].counters.tx_bytes, 2);
    // the copy does not follow the store
    store.record_transmit(host(3), 100, 50);
    assert_eq!(rows[0].counters.tx_bytes, 4);
    assert_eq!(store.snapshot()[0].counters.tx_bytes, 104);
}

#[test]
fn ipv4_and_ipv6_addresses_of_equal_value_are_kept_apart() {
    let mut store = StatisticsStore::new();
    store.record_transmit(Address::V4(5), 10, 0);
    store.record_transmit(Address::V6(5), 20, 0);
    assert_eq!(store.len(), 2);
    assert_eq!(counters(&store, Address::V4(5)).tx_bytes, 10);
    assert_eq!(counters(&store, Address::V6(5)).tx_bytes, 20);
}

#[test]
fn a_single_entry_follows_its_events() {
    let mut entry = StatEntry::new(host(4), 9);
    assert_eq!(entry.address(), host(4));
    assert_eq!(entry.counters(), Counters::fresh(9));
    entry.record_transmit(10);
    entry.record_receive(20);
    entry.record_transmit_tcp(30, &segment(1, 100, 10, TCP_ACK, 50));
    entry.record_transmit_tcp(30, &segment(1, 105, 10, TCP_ACK, 60));
    entry.record_receive_tcp(40, &segment(1, 0, 0, TCP_ACK, 60));
    let c = entry.counters();
    assert_eq!((c.tx_packets, c.tx_bytes, c.rx_packets, c.rx_bytes), (3, 70, 2, 60));
    assert_eq!((c.retransmissions, c.duplicate_acks, c.window_changes), (1, 1, 1));
    assert_eq!(entry.expected_sequence(1), Some(115));
    assert_eq!(entry.last_window(1), Some(60));
    entry.sample(9 + SECOND);
    assert_eq!(entry.counters().tx_bytes_per_sec, 70);
    let mut bare = Counters::fresh(0);
    bare.record_transmit(5);
    bare.record_receive(6);
    bare.sample(SECOND);
    assert_eq!((bare.tx_bytes_per_sec, bare.rx_bytes_per_sec), (5, 6));
}

#[test]
fn address_collections_keep_the_two_families_apart() {
    let mut set = AddressSet::new();
    assert!(!set.contains(&Address::V4(1)));
    assert!(set.insert(Address::V4(1)));
    assert!(!set.insert(Address::V4(1)));
    assert!(set.insert(Address::V6(1)));
    assert!(set.contains(&Address::V4(1)));
    assert!(set.contains(&Address::V6(1)));
    assert!(!set.contains(&Address::V6(2)));
    let mut map: AddressMap<u64> = AddressMap::new();
    assert_eq!(map.get(&Address::V4(1)), None);
    map.insert(Address::V4(1), 10);
    map.insert(Address::V6(1), 20);
    map.insert(Address::V4(1), 11);
    assert_eq!(map.get(&Address::V4(1)), Some(11));
    assert_eq!(map.get(&Address::V6(1)), Some(20));
    assert_eq!(map.get(&Address::V6(2)), None);
}
