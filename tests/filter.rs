use sdf::{parse_frame, Action, PacketHeader, Parsed, Policy, PortRange, RuleStore};

const A: u32 = 0x0a000001;
const B: u32 = 0x0a000002;

fn frame(proto: u8, src: u32, dst: u32, sport: u16, dport: u16) -> Vec<u8> {
    let mut f = vec![0u8; 12];
    f.extend_from_slice(&[0x08, 0x00]);
    let mut ip = vec![0u8; 20];
    ip[0] = 0x45;
    ip[9] = proto;
    ip[12..16].copy_from_slice(&src.to_be_bytes());
    ip[16..20].copy_from_slice(&dst.to_be_bytes());
    f.extend_from_slice(&ip);
    let l4_len = if proto == 6 { 20 } else { 8 };
    let mut l4 = vec![0u8; l4_len];
    l4[0..2].copy_from_slice(&sport.to_be_bytes());
    l4[2..4].copy_from_slice(&dport.to_be_bytes());
    f.extend_from_slice(&l4);
    f
}

fn udp(src: u32, dst: u32, sport: u16, dport: u16) -> Vec<u8> {
    frame(17, src, dst, sport, dport)
}

#[test]
fn parses_udp_and_tcp() {
    let h = PacketHeader { src_addr: A, dst_addr: B, src_port: 1234, dst_port: 53 };
    assert_eq!(parse_frame(&udp(A, B, 1234, 53)), Parsed::Packet(h));
    assert_eq!(parse_frame(&frame(6, A, B, 1234, 53)), Parsed::Packet(h));
}

#[test]
fn parse_rejects_short_and_foreign_frames() {
    let f = udp(A, B, 1, 2);
    assert_eq!(parse_frame(&f[..13]), Parsed::Truncated);
    assert_eq!(parse_frame(&f[..33]), Parsed::Truncated);
    assert_eq!(parse_frame(&f[..41]), Parsed::Truncated);
    assert_eq!(parse_frame(&[]), Parsed::Truncated);
    let tcp = frame(6, A, B, 1, 2);
    assert_eq!(parse_frame(&tcp[..53]), Parsed::Truncated);
    let mut arp = f.clone();
    arp[12] = 0x08;
    arp[13] = 0x06;
    assert_eq!(parse_frame(&arp), Parsed::NotApplicable);
    assert_eq!(parse_frame(&frame(1, A, B, 0, 0)), Parsed::NotApplicable);
}

#[test]
fn flat_whitelist_overrides_blacklist() {
    let mut s = RuleStore::new();
    s.src_blacklist.insert(A, PortRange::full()).unwrap();
    s.src_whitelist.insert(A, PortRange::full()).unwrap();
    assert_eq!(s.sdf_ingress(Policy::FlatLists, &udp(A, B, 1000, 80)), Action::Pass);
    assert_eq!(s.blocked_stats.len(), 0);
}

#[test]
fn flat_blacklist_and_port_drop_and_count() {
    let mut s = RuleStore::new();
    s.src_blacklist.insert(A, PortRange::full()).unwrap();
    s.port_blacklist.insert(53, 0).unwrap();
    assert_eq!(s.sdf_ingress(Policy::FlatLists, &udp(A, B, 1000, 80)), Action::Drop);
    assert_eq!(s.blocked_stats.get(1000), Some(1));
    assert_eq!(s.sdf_ingress(Policy::FlatLists, &udp(B, A, 53, 80)), Action::Drop);
    assert_eq!(s.blocked_stats.get(53), Some(1));
    assert_eq!(s.sdf_ingress(Policy::FlatLists, &udp(B, A, 54, 80)), Action::Pass);
    assert_eq!(s.blocked_stats.len(), 2);
}

#[test]
fn range_policy_cases() {
    let mut s = RuleStore::new();
    // no blacklist entry: never restricted, whatever the whitelist says
    s.src_whitelist.insert(B, PortRange(1, 2)).unwrap();
    assert_eq!(s.sdf_ingress(Policy::PortRanges, &udp(A, 0x01010101, 150, 150)), Action::Pass);
    assert_eq!(s.sdf_ingress(Policy::PortRanges, &udp(B, 0x01010101, 150, 150)), Action::Pass);
    s.src_blacklist.insert(A, PortRange(100, 200)).unwrap();
    assert_eq!(s.sdf_ingress(Policy::PortRanges, &udp(A, 0x01010101, 99, 150)), Action::Pass);
    assert_eq!(s.sdf_ingress(Policy::PortRanges, &udp(A, 0x01010101, 150, 150)), Action::Drop);
    assert_eq!(s.blocked_stats.get(A), Some(1));
    s.src_whitelist.insert(A, PortRange(140, 160)).unwrap();
    assert_eq!(s.sdf_ingress(Policy::PortRanges, &udp(A, 0x01010101, 150, 150)), Action::Pass);
    assert_eq!(s.sdf_ingress(Policy::PortRanges, &udp(A, 0x01010101, 170, 150)), Action::Drop);
    assert_eq!(s.blocked_stats.get(A), Some(2));
}

#[test]
fn range_policy_checks_destination() {
    let mut s = RuleStore::new();
    s.dst_blacklist.insert(B, PortRange(80, 80)).unwrap();
    assert_eq!(s.sdf_ingress(Policy::PortRanges, &udp(A, B, 5000, 80)), Action::Drop);
    assert_eq!(s.blocked_stats.get(B), Some(1));
    assert_eq!(s.sdf_ingress(Policy::PortRanges, &udp(A, B, 5000, 81)), Action::Pass);
    s.dst_whitelist.insert(B, PortRange(0, 65535)).unwrap();
    assert_eq!(s.sdf_ingress(Policy::PortRanges, &udp(A, B, 5000, 80)), Action::Pass);
}

#[test]
fn fail_open_on_short_or_non_ipv4() {
    for policy in [Policy::FlatLists, Policy::PortRanges] {
        let mut s = RuleStore::new();
        s.src_blacklist.insert(A, PortRange::full()).unwrap();
        s.port_blacklist.insert(1, 0).unwrap();
        let f = udp(A, B, 1, 1);
        for n in 0..42 {
            assert_eq!(s.sdf_ingress(policy, &f[..n]), Action::Pass);
        }
        let mut ipv6 = f.clone();
        ipv6[12] = 0x86;
        ipv6[13] = 0xdd;
        assert_eq!(s.sdf_ingress(policy, &ipv6), Action::Pass);
        assert_eq!(s.blocked_stats.len(), 0);
        assert_eq!(s.sdf_ingress(Policy::FlatLists, &f), Action::Drop);
    }
}

#[test]
fn xdp_codes() {
    assert_eq!(Action::Aborted.xdp_code(), 0);
    assert_eq!(Action::Drop.xdp_code(), 1);
    assert_eq!(Action::Pass.xdp_code(), 2);
}

#[test]
fn reactive_whitelist_once() {
    let mut s = RuleStore::new();
    s.port_blacklist.insert(53, 0).unwrap();
    let local = 0xc0a80001;
    let peer = 0x08080808;
    let out = udp(local, peer, 40000, 53);
    assert!(s.sdf_egress(&out));
    assert_eq!(s.src_whitelist.get(peer), Some(PortRange(0, 65535)));
    assert!(!s.sdf_egress(&out));
    assert_eq!(s.src_whitelist.len(), 1);
    // replies from the peer now pass the flat policy despite port 53
    assert_eq!(s.sdf_ingress(Policy::FlatLists, &udp(peer, local, 53, 40000)), Action::Pass);
}

#[test]
fn egress_ignores_other_ports_and_bad_frames() {
    let mut s = RuleStore::new();
    s.port_blacklist.insert(53, 0).unwrap();
    assert!(!s.sdf_egress(&udp(A, B, 53, 54)));
    assert!(!s.sdf_egress(&udp(A, B, 1, 53)[..40]));
    s.src_whitelist.insert(B, PortRange(1, 1)).unwrap();
    assert!(!s.sdf_egress(&udp(A, B, 1, 53)));
    assert_eq!(s.src_whitelist.get(B), Some(PortRange(1, 1)));
}

#[test]
fn allow_port_reads_port_blacklist() {
    let mut s = RuleStore::new();
    assert!(s.allow_port(22));
    s.port_blacklist.insert(22, 0).unwrap();
    assert!(!s.allow_port(22));
}
