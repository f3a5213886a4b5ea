use nispor::cache_info::{left_time_to_string, parse_cache_info};
use nispor::error::ErrorKind;
use nispor::iface::{Iface, IfaceState, IfaceType};
use nispor::ip::{fill_ip_addr, get_ip_addr, get_ip_prefix_len, parse_ipv4_nlas, FillOutcome};
use nispor::ip_str::{ipv4_bytes_to_string, ipv6_bytes_to_string};
use nispor::msg::{family_of, AddressFamily, AddressMessage, AddressNla};
use nispor::reader::read_u32;
use nispor::store::{get_iface_name_by_index, IfaceStore};

fn cache_bytes(prefered: u32, valid: u32) -> Vec<u8> {
    let mut b = Vec::new();
    b.extend_from_slice(&prefered.to_le_bytes());
    b.extend_from_slice(&valid.to_le_bytes());
    b.extend_from_slice(&[0u8; 8]);
    b
}

fn iface(name: &str, index: u32) -> Iface {
    Iface {
        name: name.to_string(),
        index,
        state: IfaceState::Up,
        iface_type: IfaceType::Ethernet,
        ipv4: None,
        ipv6: None,
    }
}

#[test]
fn lifetime_forever_sentinel() {
    assert_eq!(left_time_to_string(u32::MAX), "forever");
}

#[test]
fn lifetime_seconds() {
    assert_eq!(left_time_to_string(3600), "3600sec");
    assert_eq!(left_time_to_string(0), "0sec");
    assert_eq!(left_time_to_string(u32::MAX - 1), "4294967294sec");
}

#[test]
fn cache_info_decodes_both_lifetimes() {
    let b = cache_bytes(3600, 7200);
    let c = parse_cache_info(&b).unwrap();
    assert_eq!(c.ifa_prefered, 3600);
    assert_eq!(c.ifa_valid, 7200);
}

#[test]
fn cache_info_wrong_length_is_bug_error() {
    let b = vec![0u8; 15];
    let e = parse_cache_info(&b).unwrap_err();
    assert_eq!(e.kind, ErrorKind::Bug);
    let b = vec![0u8; 17];
    assert!(parse_cache_info(&b).is_err());
    let b: Vec<u8> = Vec::new();
    assert!(parse_cache_info(&b).is_err());
}

#[test]
fn bounded_reader_stays_in_bounds() {
    let b = vec![0x10, 0x0e, 0, 0, 0x20, 0x1c, 0, 0];
    assert_eq!(read_u32(&b, 0).unwrap(), 3600);
    assert_eq!(read_u32(&b, 4).unwrap(), 7200);
    let e = read_u32(&b, 5).unwrap_err();
    assert_eq!(e.kind, ErrorKind::Bug);
    assert!(read_u32(&b, usize::MAX).is_err());
}

#[test]
fn ipv4_rendering() {
    assert_eq!(ipv4_bytes_to_string(&[192, 0, 2, 5]).unwrap(), "192.0.2.5");
    assert_eq!(ipv4_bytes_to_string(&[0, 0, 0, 0]).unwrap(), "0.0.0.0");
    assert_eq!(
        ipv4_bytes_to_string(&[255, 255, 255, 255]).unwrap(),
        "255.255.255.255"
    );
    assert_eq!(ipv4_bytes_to_string(&[10, 0, 0, 1]).unwrap(), "10.0.0.1");
    let e = ipv4_bytes_to_string(&[1, 2, 3]).unwrap_err();
    assert_eq!(e.kind, ErrorKind::Bug);
}

#[test]
fn ipv6_rendering_compresses_longest_zero_run() {
    let mut b = [0u8; 16];
    assert_eq!(ipv6_bytes_to_string(&b).unwrap(), "::");
    b[15] = 1;
    assert_eq!(ipv6_bytes_to_string(&b).unwrap(), "::1");
    let fe80 = [0xfe, 0x80, 0, 0, 0, 0, 0, 0, 0, 0, 0, 0, 0, 0, 0, 1];
    assert_eq!(ipv6_bytes_to_string(&fe80).unwrap(), "fe80::1");
    let doc = [0x20, 0x01, 0x0d, 0xb8, 0, 0, 0, 0, 0, 0, 0, 0, 0, 0, 0, 1];
    assert_eq!(ipv6_bytes_to_string(&doc).unwrap(), "2001:db8::1");
    let trailing = [0xfe, 0x80, 0, 0, 0, 0, 0, 0, 0, 0, 0, 0, 0, 0, 0, 0];
    assert_eq!(ipv6_bytes_to_string(&trailing).unwrap(), "fe80::");
}

#[test]
fn ipv6_rendering_single_zero_group_not_compressed() {
    let b = [
        0x20, 0x01, 0x0d, 0xb8, 0, 0, 0, 1, 0, 1, 0, 1, 0, 1, 0, 1,
    ];
    assert_eq!(ipv6_bytes_to_string(&b).unwrap(), "2001:db8:0:1:1:1:1:1");
}

#[test]
fn ipv6_rendering_picks_leftmost_of_equal_runs() {
    let b = [
        0x20, 0x01, 0, 0, 0, 0, 0x0d, 0xb8, 0, 0, 0, 0, 0x0d, 0xb9, 0, 1,
    ];
    assert_eq!(ipv6_bytes_to_string(&b).unwrap(), "2001::db8:0:0:db9:1");
}

#[test]
fn ipv6_rendering_ipv4_mapped_uses_mixed_notation() {
    let mapped = [0, 0, 0, 0, 0, 0, 0, 0, 0, 0, 0xff, 0xff, 192, 0, 2, 5];
    assert_eq!(ipv6_bytes_to_string(&mapped).unwrap(), "::ffff:192.0.2.5");
    let zero_tail = [0, 0, 0, 0, 0, 0, 0, 0, 0, 0, 0xff, 0xff, 0, 0, 0, 0];
    assert_eq!(ipv6_bytes_to_string(&zero_tail).unwrap(), "::ffff:0.0.0.0");
    let near_mapped = [0, 0, 0, 0, 0, 0, 0, 0, 0, 0, 0xff, 0xfe, 192, 0, 2, 5];
    assert_eq!(ipv6_bytes_to_string(&near_mapped).unwrap(), "::fffe:c000:205");
}

#[test]
fn ipv6_rendering_no_zero_groups() {
    let b = [
        0x20, 0x01, 0x0d, 0xb8, 0, 1, 0, 2, 0, 3, 0, 4, 0xab, 0xcd, 0xef, 0x01,
    ];
    assert_eq!(ipv6_bytes_to_string(&b).unwrap(), "2001:db8:1:2:3:4:abcd:ef01");
    let e = ipv6_bytes_to_string(&[0u8; 15]).unwrap_err();
    assert_eq!(e.kind, ErrorKind::Bug);
}

#[test]
fn family_classification() {
    assert_eq!(family_of(2), AddressFamily::Ipv4);
    assert_eq!(family_of(10), AddressFamily::Ipv6);
    assert_eq!(family_of(7), AddressFamily::Other(7));
}

#[test]
fn store_insert_and_lookup() {
    let mut store = IfaceStore::new();
    assert_eq!(store.len(), 0);
    assert!(store.insert(iface("eth0", 3)));
    assert!(store.insert(iface("lo", 1)));
    assert_eq!(store.len(), 2);
    let e = store.get(&"eth0".to_string()).unwrap();
    assert_eq!(e.index, 3);
    assert!(store.get(&"wlan0".to_string()).is_none());
}

#[test]
fn store_refuses_duplicate_name_or_index() {
    let mut store = IfaceStore::new();
    assert!(store.insert(iface("eth0", 3)));
    assert!(!store.insert(iface("eth0", 4)));
    assert!(!store.insert(iface("eth1", 3)));
    assert_eq!(store.len(), 1);
}

#[test]
fn resolver_maps_index_to_name() {
    let mut store = IfaceStore::new();
    store.insert(iface("lo", 1));
    store.insert(iface("eth0", 3));
    assert_eq!(get_iface_name_by_index(&store, 3), "eth0");
    assert_eq!(get_iface_name_by_index(&store, 1), "lo");
    assert_eq!(get_iface_name_by_index(&store, 9), "");
}

fn v4_msg(index: u32, prefix_len: u8, local: &[u8], peer: &[u8], cache: Vec<u8>) -> AddressMessage {
    AddressMessage {
        family: AddressFamily::Ipv4,
        index,
        prefix_len,
        nlas: vec![
            AddressNla::Local(local.to_vec()),
            AddressNla::Address(peer.to_vec()),
            AddressNla::CacheInfo(cache),
        ],
    }
}

#[test]
fn merge_ipv4_with_equal_peer_omits_peer() {
    let mut store = IfaceStore::new();
    store.insert(iface("eth0", 3));
    let msg = v4_msg(3, 24, &[192, 0, 2, 5], &[192, 0, 2, 5], cache_bytes(3600, 7200));
    let outcome = fill_ip_addr(&mut store, &msg).unwrap();
    assert_eq!(outcome, FillOutcome::Merged);
    let e = store.get(&"eth0".to_string()).unwrap();
    let addrs = &e.ipv4.as_ref().unwrap().addresses;
    assert_eq!(addrs.len(), 1);
    assert_eq!(addrs[0].address, "192.0.2.5");
    assert!(addrs[0].peer.is_none());
    assert_eq!(addrs[0].prefix_len, 24);
    assert_eq!(addrs[0].preferred_lft, "3600sec");
    assert_eq!(addrs[0].valid_lft, "7200sec");
    assert!(e.ipv6.is_none());
}

#[test]
fn merge_second_ipv4_keeps_arrival_order() {
    let mut store = IfaceStore::new();
    store.insert(iface("eth0", 3));
    let first = v4_msg(3, 24, &[192, 0, 2, 5], &[192, 0, 2, 5], cache_bytes(3600, 7200));
    fill_ip_addr(&mut store, &first).unwrap();
    let second = v4_msg(
        3,
        32,
        &[192, 0, 2, 6],
        &[192, 0, 2, 1],
        cache_bytes(u32::MAX, 7200),
    );
    let outcome = fill_ip_addr(&mut store, &second).unwrap();
    assert_eq!(outcome, FillOutcome::Merged);
    let e = store.get(&"eth0".to_string()).unwrap();
    let addrs = &e.ipv4.as_ref().unwrap().addresses;
    assert_eq!(addrs.len(), 2);
    assert_eq!(addrs[0].address, "192.0.2.5");
    assert_eq!(addrs[1].address, "192.0.2.6");
    assert_eq!(addrs[1].peer.as_deref(), Some("192.0.2.1"));
    assert_eq!(addrs[1].prefix_len, 32);
    assert_eq!(addrs[1].preferred_lft, "forever");
    assert_eq!(addrs[1].valid_lft, "7200sec");
}

#[test]
fn merge_does_not_touch_other_interfaces() {
    let mut store = IfaceStore::new();
    store.insert(iface("lo", 1));
    store.insert(iface("eth0", 3));
    let msg = v4_msg(3, 24, &[192, 0, 2, 5], &[192, 0, 2, 5], cache_bytes(3600, 7200));
    fill_ip_addr(&mut store, &msg).unwrap();
    let lo = store.get(&"lo".to_string()).unwrap();
    assert!(lo.ipv4.is_none());
    assert!(lo.ipv6.is_none());
    assert_eq!(lo.index, 1);
}

#[test]
fn unresolved_index_drops_fragment() {
    let mut store = IfaceStore::new();
    store.insert(iface("eth0", 3));
    let msg = v4_msg(9, 24, &[192, 0, 2, 5], &[192, 0, 2, 5], cache_bytes(3600, 7200));
    let outcome = fill_ip_addr(&mut store, &msg).unwrap();
    assert_eq!(outcome, FillOutcome::AddressDropped);
    assert_eq!(store.len(), 1);
    assert!(store.get(&"eth0".to_string()).unwrap().ipv4.is_none());
}

#[test]
fn unknown_family_skips_with_one_diagnostic_outcome() {
    let mut store = IfaceStore::new();
    store.insert(iface("eth0", 3));
    let msg = AddressMessage {
        family: AddressFamily::Other(7),
        index: 3,
        prefix_len: 24,
        nlas: vec![AddressNla::Local(vec![192, 0, 2, 5])],
    };
    let outcome = fill_ip_addr(&mut store, &msg).unwrap();
    assert_eq!(outcome, FillOutcome::UnknownFamilySkipped);
    assert!(store.get(&"eth0".to_string()).unwrap().ipv4.is_none());
}

#[test]
fn malformed_cache_info_is_error_and_store_untouched() {
    let mut store = IfaceStore::new();
    store.insert(iface("eth0", 3));
    let msg = AddressMessage {
        family: AddressFamily::Ipv4,
        index: 3,
        prefix_len: 24,
        nlas: vec![
            AddressNla::Local(vec![192, 0, 2, 5]),
            AddressNla::CacheInfo(vec![0u8; 15]),
        ],
    };
    let e = fill_ip_addr(&mut store, &msg).unwrap_err();
    assert_eq!(e.kind, ErrorKind::Bug);
    assert_eq!(store.len(), 1);
    assert!(store.get(&"eth0".to_string()).unwrap().ipv4.is_none());
}

#[test]
fn merge_ipv6_address() {
    let mut store = IfaceStore::new();
    store.insert(iface("eth0", 3));
    let fe80 = vec![0xfe, 0x80, 0, 0, 0, 0, 0, 0, 0, 0, 0, 0, 0, 0, 0, 1];
    let msg = AddressMessage {
        family: AddressFamily::Ipv6,
        index: 3,
        prefix_len: 64,
        nlas: vec![
            AddressNla::Address(fe80),
            AddressNla::CacheInfo(cache_bytes(u32::MAX, u32::MAX)),
        ],
    };
    let outcome = fill_ip_addr(&mut store, &msg).unwrap();
    assert_eq!(outcome, FillOutcome::Merged);
    let e = store.get(&"eth0".to_string()).unwrap();
    let addrs = &e.ipv6.as_ref().unwrap().addresses;
    assert_eq!(addrs.len(), 1);
    assert_eq!(addrs[0].address, "fe80::1");
    assert_eq!(addrs[0].prefix_len, 64);
    assert_eq!(addrs[0].preferred_lft, "forever");
    assert_eq!(addrs[0].valid_lft, "forever");
    assert!(e.ipv4.is_none());
}

#[test]
fn parse_ipv4_peer_differs() {
    let msg = v4_msg(3, 30, &[192, 0, 2, 5], &[192, 0, 2, 1], cache_bytes(100, 200));
    let (index, addr) = parse_ipv4_nlas(&msg).unwrap();
    assert_eq!(index, 3);
    assert_eq!(addr.address, "192.0.2.5");
    assert_eq!(addr.peer.as_deref(), Some("192.0.2.1"));
    assert_eq!(addr.preferred_lft, "100sec");
    assert_eq!(addr.valid_lft, "200sec");
}

#[test]
fn parse_ipv4_missing_attributes_leaves_defaults() {
    let msg = AddressMessage {
        family: AddressFamily::Ipv4,
        index: 3,
        prefix_len: 24,
        nlas: vec![AddressNla::Other],
    };
    let (_, addr) = parse_ipv4_nlas(&msg).unwrap();
    assert_eq!(addr.address, "");
    assert!(addr.peer.is_none());
    assert_eq!(addr.preferred_lft, "");
    assert_eq!(addr.valid_lft, "");
}

#[test]
fn parse_ipv4_last_attribute_wins() {
    let msg = AddressMessage {
        family: AddressFamily::Ipv4,
        index: 3,
        prefix_len: 24,
        nlas: vec![
            AddressNla::Local(vec![192, 0, 2, 5]),
            AddressNla::Local(vec![192, 0, 2, 6]),
            AddressNla::Address(vec![192, 0, 2, 6]),
        ],
    };
    let (_, addr) = parse_ipv4_nlas(&msg).unwrap();
    assert_eq!(addr.address, "192.0.2.6");
    assert!(addr.peer.is_none());
}

#[test]
fn parse_ipv4_without_peer_attribute_has_no_peer() {
    let msg = AddressMessage {
        family: AddressFamily::Ipv4,
        index: 3,
        prefix_len: 24,
        nlas: vec![AddressNla::Local(vec![192, 0, 2, 5])],
    };
    let (_, addr) = parse_ipv4_nlas(&msg).unwrap();
    assert_eq!(addr.address, "192.0.2.5");
    assert!(addr.peer.is_none());
}

#[test]
fn parse_ipv4_peer_attribute_without_local_keeps_peer() {
    let msg = AddressMessage {
        family: AddressFamily::Ipv4,
        index: 3,
        prefix_len: 24,
        nlas: vec![AddressNla::Address(vec![192, 0, 2, 1])],
    };
    let (_, addr) = parse_ipv4_nlas(&msg).unwrap();
    assert_eq!(addr.address, "");
    assert_eq!(addr.peer.as_deref(), Some("192.0.2.1"));
}

#[test]
fn merging_both_families_keeps_them_separate() {
    let mut store = IfaceStore::new();
    store.insert(iface("eth0", 3));
    let v4 = v4_msg(3, 24, &[192, 0, 2, 5], &[192, 0, 2, 5], cache_bytes(1, 2));
    fill_ip_addr(&mut store, &v4).unwrap();
    let v6 = AddressMessage {
        family: AddressFamily::Ipv6,
        index: 3,
        prefix_len: 64,
        nlas: vec![AddressNla::Address(vec![
            0xfe, 0x80, 0, 0, 0, 0, 0, 0, 0, 0, 0, 0, 0, 0, 0, 1,
        ])],
    };
    fill_ip_addr(&mut store, &v6).unwrap();
    let e = store.get(&"eth0".to_string()).unwrap();
    assert_eq!(e.ipv4.as_ref().unwrap().addresses.len(), 1);
    assert_eq!(e.ipv6.as_ref().unwrap().addresses.len(), 1);
    assert_eq!(e.ipv4.as_ref().unwrap().addresses[0].address, "192.0.2.5");
    assert_eq!(e.ipv6.as_ref().unwrap().addresses[0].address, "fe80::1");
}

#[test]
fn get_ip_addr_reads_primary_address() {
    let v4 = v4_msg(3, 24, &[192, 0, 2, 5], &[192, 0, 2, 1], cache_bytes(1, 2));
    assert_eq!(get_ip_addr(&v4).unwrap(), "192.0.2.5");
    let v6 = AddressMessage {
        family: AddressFamily::Ipv6,
        index: 3,
        prefix_len: 64,
        nlas: vec![AddressNla::Address(vec![
            0xfe, 0x80, 0, 0, 0, 0, 0, 0, 0, 0, 0, 0, 0, 0, 0, 1,
        ])],
    };
    assert_eq!(get_ip_addr(&v6).unwrap(), "fe80::1");
    let unknown = AddressMessage {
        family: AddressFamily::Other(4),
        index: 3,
        prefix_len: 0,
        nlas: vec![AddressNla::Local(vec![192, 0, 2, 5])],
    };
    assert_eq!(get_ip_addr(&unknown).unwrap(), "");
    let no_local = AddressMessage {
        family: AddressFamily::Ipv4,
        index: 3,
        prefix_len: 0,
        nlas: vec![AddressNla::Address(vec![192, 0, 2, 1])],
    };
    assert_eq!(get_ip_addr(&no_local).unwrap(), "");
    let bad = AddressMessage {
        family: AddressFamily::Ipv4,
        index: 3,
        prefix_len: 0,
        nlas: vec![AddressNla::Local(vec![192, 0, 2])],
    };
    assert_eq!(get_ip_addr(&bad).unwrap_err().kind, ErrorKind::Bug);
}

#[test]
fn prefix_len_comes_from_header() {
    let msg = v4_msg(3, 24, &[192, 0, 2, 5], &[192, 0, 2, 5], cache_bytes(1, 2));
    assert_eq!(get_ip_prefix_len(&msg), 24);
}
