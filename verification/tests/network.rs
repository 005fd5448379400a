use idvs::network::{interface_ip, list_interfaces, InterfaceAddress, Ipv4, NetworkInterface};

fn ip(a: u8, b: u8, c: u8, d: u8) -> Option<Ipv4> {
    Some(Ipv4 { a, b, c, d })
}

fn record(name: &str, ip: Option<Ipv4>) -> InterfaceAddress {
    InterfaceAddress { name: name.to_string(), ip, loopback: false }
}

fn flagged(name: &str, ip: Option<Ipv4>) -> InterfaceAddress {
    InterfaceAddress { name: name.to_string(), ip, loopback: true }
}

fn entry(name: &str, ip: Option<Ipv4>) -> NetworkInterface {
    NetworkInterface { name: name.to_string(), ip }
}

#[test]
fn interfaces_are_listed_once_in_order_without_loopback() {
    let records = Some(vec![
        record("wlan0", None),
        record("lo", ip(127, 0, 0, 1)),
        record("eth0", ip(10, 0, 0, 7)),
        record("wlan0", ip(192, 168, 1, 2)),
        record("eth0", None),
        record("docker0", None),
    ]);
    assert_eq!(
        list_interfaces(&records),
        vec![
            entry("docker0", None),
            entry("eth0", ip(10, 0, 0, 7)),
            entry("wlan0", ip(192, 168, 1, 2)),
        ]
    );
}

#[test]
fn loopback_interfaces_of_any_name_are_left_out() {
    let records = Some(vec![
        record("eth0", ip(10, 0, 0, 7)),
        flagged("lo0", ip(127, 0, 0, 1)),
        flagged("lo1", None),
        record("tun0", None),
    ]);
    assert_eq!(
        list_interfaces(&records),
        vec![entry("eth0", ip(10, 0, 0, 7)), entry("tun0", None)]
    );
    // It can still be searched for by its name.
    assert_eq!(interface_ip(&records, "lo0"), ip(127, 0, 0, 1));
}

#[test]
fn one_flagged_record_makes_a_loopback_interface() {
    let earlier = Some(vec![record("lo0", ip(10, 0, 0, 1)), flagged("lo0", None)]);
    let later = Some(vec![flagged("lo0", None), record("lo0", ip(10, 0, 0, 1))]);
    assert_eq!(list_interfaces(&earlier), vec![]);
    assert_eq!(list_interfaces(&later), vec![]);
    assert_eq!(list_interfaces(&Some(vec![record("lo", None)])), vec![]);
}

#[test]
fn list_shows_the_last_address_and_search_finds_the_first() {
    let records = Some(vec![
        record("eth0", None),
        record("eth0", ip(10, 0, 0, 7)),
        record("eth0", ip(10, 0, 0, 8)),
    ]);
    assert_eq!(list_interfaces(&records), vec![entry("eth0", ip(10, 0, 0, 8))]);
    assert_eq!(interface_ip(&records, "eth0"), ip(10, 0, 0, 7));
}

#[test]
fn search_finds_loopback_and_misses_what_is_not_there() {
    let records = Some(vec![record("lo", ip(127, 0, 0, 1)), record("eth1", None)]);
    assert_eq!(interface_ip(&records, "lo"), ip(127, 0, 0, 1));
    assert_eq!(interface_ip(&records, "eth1"), None);
    assert_eq!(interface_ip(&records, "eth2"), None);
}

#[test]
fn without_records_there_is_nothing() {
    assert_eq!(list_interfaces(&None), vec![]);
    assert_eq!(interface_ip(&None, "eth0"), None);
}

#[test]
fn list_is_that_of_an_ordered_map() {
    let names = ["b", "a", "lo", "c", "a", "ab", "b", "é", "B"];
    let mut records = Vec::new();
    let mut expected = std::collections::BTreeMap::new();
    for (i, name) in names.iter().enumerate() {
        let address = if i % 3 == 0 { None } else { ip(1, 2, 3, i as u8) };
        records.push(record(name, address));
        if *name != "lo" {
            let slot = expected.entry(name.to_string()).or_insert(None);
            if address.is_some() {
                *slot = address;
            }
        }
    }
    let expected: Vec<NetworkInterface> =
        expected.into_iter().map(|(name, ip)| NetworkInterface { name, ip }).collect();
    assert_eq!(list_interfaces(&Some(records)), expected);
}

#[test]
fn interfaces_are_described() {
    assert_eq!(entry("eth0", ip(10, 0, 0, 255)).label(), "eth0 (10.0.0.255)");
    assert_eq!(entry("wlan0", None).label(), "wlan0 (no IPv4)");
    assert_eq!(Ipv4 { a: 192, b: 168, c: 1, d: 20 }.to_text(), "192.168.1.20");
}
