use microvm_node::network::{Ipv4Addr, NetworkError, NetworkManager, NetworkStackSlot, MAX_SLOTS};
use std::collections::HashSet;

fn ip(a: u8, b: u8, c: u8, d: u8) -> Ipv4Addr {
    Ipv4Addr { a, b, c, d }
}

#[test]
fn slots_follow_index_formula() {
    let s = NetworkStackSlot::for_index(0);
    assert_eq!(s.gateway, ip(172, 16, 0, 1));
    assert_eq!(s.ipv4_addr, ip(172, 16, 0, 2));
    assert_eq!(s.tap_dev_name, "tap0");
    let s = NetworkStackSlot::for_index(65);
    assert_eq!(s.gateway, ip(172, 16, 1, 5));
    assert_eq!(s.ipv4_addr, ip(172, 16, 1, 6));
    assert_eq!(s.tap_dev_name, "tap65");
    let s = NetworkStackSlot::for_index(MAX_SLOTS - 1);
    assert_eq!(s.gateway, ip(172, 16, 255, 253));
    assert_eq!(s.ipv4_addr.to_dotted(), "172.16.255.254");
}

#[test]
fn consecutive_allocations_are_disjoint() {
    let mut m = NetworkManager::new();
    let mut ips = HashSet::new();
    let mut taps = HashSet::new();
    for _ in 0..200 {
        let s = m.next_slot().unwrap();
        assert!(ips.insert(s.ipv4_addr.to_dotted()));
        assert!(taps.insert(s.tap_dev_name.clone()));
    }
}

#[test]
fn reclaimed_slots_are_reused_last_first() {
    let mut m = NetworkManager::new();
    let a = m.provision_stack().unwrap();
    let b = m.provision_stack().unwrap();
    let _c = m.provision_stack().unwrap();
    assert_eq!(a.nic().name(), "tap0");
    m.reclaim(a);
    m.reclaim(b);
    assert_eq!(m.provision_stack().unwrap().nic().name(), "tap1");
    assert_eq!(m.provision_stack().unwrap().nic().name(), "tap0");
    assert_eq!(m.provision_stack().unwrap().nic().name(), "tap3");
}

#[test]
fn allocator_exhausts_at_cap() {
    let mut m = NetworkManager::new();
    for _ in 0..MAX_SLOTS {
        m.next_slot().unwrap();
    }
    assert_eq!(m.next_slot().unwrap_err(), NetworkError::ResourceExhausted);
}

#[test]
fn tap_commands() {
    let mut m = NetworkManager::new();
    let s = m.provision_stack().unwrap();
    let nic = s.nic();
    assert_eq!(nic.create_args(), vec!["tuntap", "add", "tap0", "mode", "tap"]);
    assert_eq!(s.gateway_cidr(), "172.16.0.1/30");
    assert_eq!(nic.add_address("172.16.0.1/30"), vec!["addr", "add", "172.16.0.1/30", "dev", "tap0"]);
    assert_eq!(nic.up(), vec!["link", "set", "tap0", "up"]);
    assert_eq!(nic.delete_args(), vec!["link", "del", "tap0"]);
    assert_eq!(s.subnet_mask(), "255.255.255.252");
}

#[test]
fn public_nat_rules_and_undo() {
    let mut m = NetworkManager::new();
    let mut s = m.provision_stack().unwrap();
    let rules = s.public_nat_rules("eth0");
    assert_eq!(
        rules,
        vec![
            vec!["-A", "POSTROUTING", "-t", "nat", "-o", "eth0", "-s", "172.16.0.2", "-j", "MASQUERADE"],
            vec!["-A", "FORWARD", "-m", "conntrack", "--ctstate", "RELATED,ESTABLISHED", "-j", "ACCEPT"],
            vec!["-A", "FORWARD", "-i", "tap0", "-o", "eth0", "-j", "ACCEPT"],
        ]
    );
    for r in &rules {
        s.record_installed_rule(r);
    }
    let undo = s.undo_commands();
    assert_eq!(undo.len(), 3);
    assert_eq!(undo[0], vec!["-D", "FORWARD", "-i", "tap0", "-o", "eth0", "-j", "ACCEPT"]);
    assert_eq!(
        undo[2],
        vec!["-D", "POSTROUTING", "-t", "nat", "-o", "eth0", "-s", "172.16.0.2", "-j", "MASQUERADE"]
    );
}

#[test]
fn forwarding_twice_records_both() {
    let mut m = NetworkManager::new();
    let mut s = m.provision_stack().unwrap();
    let rules = s.forwarding_rules("eth1", 8080, 80);
    assert_eq!(
        rules[0],
        vec![
            "-A", "PREROUTING", "-t", "nat", "-i", "eth1", "-p", "tcp", "--dport", "8080", "-j", "DNAT",
            "--to-destination", "172.16.0.2:80"
        ]
    );
    assert_eq!(
        rules[3],
        vec![
            "-I", "FORWARD", "-i", "eth1", "-o", "tap0", "-p", "tcp", "--dport", "80", "-m", "state",
            "--state", "NEW,ESTABLISHED,RELATED", "-j", "ACCEPT"
        ]
    );
    for _ in 0..2 {
        for r in &s.forwarding_rules("eth1", 8080, 80) {
            s.record_installed_rule(r);
        }
    }
    let undo = s.undo_commands();
    assert_eq!(undo.len(), 8);
    assert_eq!(undo[0], undo[4]);
    assert_eq!(undo[3][0], "-D");
    assert_eq!(undo[3][1], "PREROUTING");
}
