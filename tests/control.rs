use sdf::{Ack, AddrTable, ApiError, ControlApi, PortRange, RuleConfig};

#[test]
fn set_and_del_source_rules() {
    let mut api = ControlApi::new();
    let r = api.set_blacklist_source_rule(Some(0x01020304));
    assert!(r.status);
    assert_eq!(r.data, Some(Ack::Added));
    assert_eq!(r.error, None);
    assert_eq!(api.rules.src_blacklist.get(0x01020304), Some(PortRange(0, 65535)));
    let r = api.del_blacklist_source_rule(Some(0x01020304));
    assert_eq!(r.data, Some(Ack::Removed));
    let r = api.del_blacklist_source_rule(Some(0x01020304));
    assert!(!r.status);
    assert_eq!(r.error, Some(ApiError::NotFound));
    assert_eq!(r.data, None);
    let r = api.set_whitelist_source_rule(None);
    assert_eq!(r.error, Some(ApiError::InvalidAddressFormat));
    assert_eq!(api.rules.src_whitelist.len(), 0);
    let r = api.set_whitelist_source_rule(Some(5));
    assert_eq!(r.data, Some(Ack::Added));
    assert_eq!(api.del_whitelist_source_rule(Some(5)).data, Some(Ack::Removed));
    assert_eq!(api.del_whitelist_source_rule(None).error, Some(ApiError::InvalidAddressFormat));
}

#[test]
fn set_twice_succeeds_with_one_entry() {
    let mut api = ControlApi::new();
    assert!(api.set_port_rule(53).status);
    assert!(api.set_port_rule(53).status);
    assert_eq!(api.rules.port_blacklist.len(), 1);
    assert!(api.set_blacklist_source_rule(Some(9)).status);
    assert!(api.set_blacklist_source_rule(Some(9)).status);
    assert_eq!(api.rules.src_blacklist.len(), 1);
}

#[test]
fn port_rules_and_capacity() {
    let mut api = ControlApi::new();
    for p in 0..4096u16 {
        assert!(api.set_port_rule(p).status);
    }
    let r = api.set_port_rule(5000);
    assert_eq!(r.error, Some(ApiError::CapacityExceeded));
    assert_eq!(api.del_port_rule(5000).error, Some(ApiError::NotFound));
    assert_eq!(api.del_port_rule(1).data, Some(Ack::Removed));
    assert!(api.set_port_rule(5000).status);
}

#[test]
fn dest_rules_with_ranges() {
    let mut api = ControlApi::new();
    let r = api.set_addr_rule(AddrTable::DestBlacklist, Some(7), PortRange(100, 200));
    assert_eq!(r.data, Some(Ack::Added));
    assert_eq!(api.rules.dst_blacklist.get(7), Some(PortRange(100, 200)));
    let r = api.del_addr_rule(AddrTable::DestWhitelist, Some(7));
    assert_eq!(r.error, Some(ApiError::NotFound));
    assert_eq!(api.del_addr_rule(AddrTable::DestBlacklist, Some(7)).data, Some(Ack::Removed));
}

#[test]
fn reload_replaces_tables_and_keeps_stats() {
    let mut api = ControlApi::new();
    api.set_blacklist_source_rule(Some(1));
    api.rules.increase_drop(80);
    let config = RuleConfig {
        source_blacklist: vec![(2, PortRange::full())],
        source_whitelist: vec![(3, PortRange(1, 10))],
        dest_blacklist: vec![],
        dest_whitelist: vec![],
        port_blacklist: vec![22, 23, 22],
    };
    let r = api.reload_rule(&config);
    assert_eq!(r.data, Some(Ack::Reloaded));
    assert_eq!(api.rules.src_blacklist.get(1), None);
    assert_eq!(api.rules.src_blacklist.get(2), Some(PortRange(0, 65535)));
    assert_eq!(api.rules.src_whitelist.get(3), Some(PortRange(1, 10)));
    assert_eq!(api.rules.port_blacklist.len(), 2);
    let stats = api.stats_blocked();
    assert!(stats.status);
    assert_eq!(stats.data.unwrap().get(&80), Some(&1));
}

#[test]
fn reload_reports_overflow() {
    let mut api = ControlApi::new();
    let config = RuleConfig {
        source_blacklist: (0..4097u32).map(|a| (a, PortRange::full())).collect(),
        source_whitelist: vec![],
        dest_blacklist: vec![],
        dest_whitelist: vec![],
        port_blacklist: vec![],
    };
    let r = api.reload_rule(&config);
    assert_eq!(r.error, Some(ApiError::CapacityExceeded));
    assert_eq!(api.rules.src_blacklist.len(), 4096);
}

#[test]
fn wire_names() {
    assert_eq!(ApiError::InvalidAddressFormat.code(), "ONLY_SUPPORT_IP_V4");
    assert_eq!(ApiError::CapacityExceeded.code(), "CANNOT_ADD_TO_MAP");
    assert_eq!(ApiError::NotFound.code(), "IP_NOT_FOUND");
    assert_eq!(ApiError::InternalQueueError.code(), "INTERNAL_QUEUE_ERROR");
    assert_eq!(Ack::Added.code(), "ADDED");
    assert_eq!(Ack::Removed.code(), "REMOVED");
    assert_eq!(Ack::Reloaded.code(), "RELOADED");
}
