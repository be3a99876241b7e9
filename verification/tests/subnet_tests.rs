use traffic_monitor::address::Address;
use traffic_monitor::subnet::ipv4_list;
use traffic_monitor::subnet::netmask;

fn v4(a: u8, b: u8, c: u8, d: u8) -> u32 {
    u32::from_be_bytes([a, b, c, d])
}

#[test]
fn slash_twenty_has_4094_hosts() {
    let set = ipv4_list(v4(10, 40, 0, 1), 20);
    assert_eq!(set.len(), 4094);
    assert!(!set.contains_v4(v4(10, 40, 0, 0)));
    assert!(!set.contains_v4(v4(10, 40, 15, 255)));
    assert!(set.contains_v4(v4(10, 40, 0, 1)));
    assert!(set.contains_v4(v4(10, 40, 15, 254)));
    assert!(!set.contains_v4(v4(10, 40, 16, 0)));
    assert!(!set.contains_v4(v4(10, 39, 255, 255)));
    assert!(set.contains(&Address::V4(v4(10, 40, 7, 7))));
    assert!(!set.contains(&Address::V6(1)));
}

#[test]
fn base_address_need_not_be_the_network_address() {
    let set = ipv4_list(v4(192, 168, 1, 77), 24);
    assert_eq!(set.len(), 254);
    assert!(set.contains_v4(v4(192, 168, 1, 1)));
    assert!(set.contains_v4(v4(192, 168, 1, 77)));
    assert!(set.contains_v4(v4(192, 168, 1, 254)));
    assert!(!set.contains_v4(v4(192, 168, 1, 0)));
    assert!(!set.contains_v4(v4(192, 168, 1, 255)));
    assert!(!set.contains_v4(v4(192, 168, 2, 1)));
}

#[test]
fn long_prefixes_leave_few_or_no_hosts() {
    assert_eq!(ipv4_list(v4(10, 0, 0, 5), 32).len(), 0);
    assert_eq!(ipv4_list(v4(255, 255, 255, 255), 32).len(), 0);
    assert_eq!(ipv4_list(v4(0, 0, 0, 0), 32).len(), 0);
    assert_eq!(ipv4_list(v4(10, 0, 0, 5), 31).len(), 0);
    let quad = ipv4_list(v4(10, 0, 0, 5), 30);
    assert_eq!(quad.len(), 2);
    assert!(quad.contains_v4(v4(10, 0, 0, 5)));
    assert!(quad.contains_v4(v4(10, 0, 0, 6)));
    assert!(!quad.contains_v4(v4(10, 0, 0, 4)));
    assert!(!quad.contains_v4(v4(10, 0, 0, 7)));
    assert_eq!(ipv4_list(v4(10, 0, 0, 5), 29).len(), 6);
}

#[test]
fn host_count_follows_the_prefix() {
    for prefix in 16..=30u8 {
        let set = ipv4_list(v4(172, 16, 200, 9), prefix);
        assert_eq!(set.len() as u64, (1u64 << (32 - prefix)) - 2, "prefix {}", prefix);
    }
}

#[test]
fn netmask_sets_the_leading_bits() {
    assert_eq!(netmask(0), 0);
    assert_eq!(netmask(1), 0x8000_0000);
    assert_eq!(netmask(20), 0xFFFF_F000);
    assert_eq!(netmask(24), 0xFFFF_FF00);
    assert_eq!(netmask(31), 0xFFFF_FFFE);
    assert_eq!(netmask(32), 0xFFFF_FFFF);
}
