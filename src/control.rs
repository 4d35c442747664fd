use std::collections::HashMap;
use vstd::prelude::*;
use crate::filter::{RuleStore, RULE_TABLE_CAPACITY, STATS_CAPACITY};
use crate::port_range::PortRange;
use crate::table::{RuleTable, TableError, put, put_all, all_fit};

verus! {

broadcast use vstd::std_specs::hash::group_hash_axioms;

/// Why a control request failed.
#[derive(Debug, PartialEq, Eq, Structural, Clone, Copy)]
pub enum ApiError {
    /// The address is not an IPv4 address.
    InvalidAddressFormat,
    /// The table is full.
    CapacityExceeded,
    /// The entry to remove is not there.
    NotFound,
    /// The control worker could not be reached.
    InternalQueueError,
}

impl ApiError {
    /// The error's wire name.
    pub fn code(&self) -> (r: &'static str)
        ensures
            *self == ApiError::InvalidAddressFormat ==> r@ == "ONLY_SUPPORT_IP_V4"@,
            *self == ApiError::CapacityExceeded ==> r@ == "CANNOT_ADD_TO_MAP"@,
            *self == ApiError::NotFound ==> r@ == "IP_NOT_FOUND"@,
            *self == ApiError::InternalQueueError ==> r@ == "INTERNAL_QUEUE_ERROR"@,
    {
        match self {
            ApiError::InvalidAddressFormat => "ONLY_SUPPORT_IP_V4",
            ApiError::CapacityExceeded => "CANNOT_ADD_TO_MAP",
            ApiError::NotFound => "IP_NOT_FOUND",
            ApiError::InternalQueueError => "INTERNAL_QUEUE_ERROR",
        }
    }
}

/// What a successful rule request did.
#[derive(Debug, PartialEq, Eq, Structural, Clone, Copy)]
pub enum Ack {
    Added,
    Removed,
    Reloaded,
}

impl Ack {
    /// The acknowledgement's wire name.
    pub fn code(&self) -> (r: &'static str)
        ensures
            *self == Ack::Added ==> r@ == "ADDED"@,
            *self == Ack::Removed ==> r@ == "REMOVED"@,
            *self == Ack::Reloaded ==> r@ == "RELOADED"@,
    {
        match self {
            Ack::Added => "ADDED",
            Ack::Removed => "REMOVED",
            Ack::Reloaded => "RELOADED",
        }
    }
}

/// The reply to a control request: a status, and either an error or data.
pub struct ApiResult<T> {
    pub status: bool,
    pub error: Option<ApiError>,
    pub data: Option<T>,
}

impl<T> ApiResult<T> {
    /// A successful reply carrying `data`.
    pub fn success(data: T) -> (r: Self)
        ensures
            r.status,
            r.error is None,
            r.data == Some(data),
    {
        ApiResult { status: true, error: None, data: Some(data) }
    }

    /// A failed reply carrying `error`.
    pub fn error(error: ApiError) -> (r: Self)
        ensures
            !r.status,
            r.error == Some(error),
            r.data is None,
    {
        ApiResult { status: false, error: Some(error), data: None }
    }

    /// Whether this is a successful reply carrying `d`.
    pub open spec fn is_success(&self, d: T) -> bool {
        self.status && self.error is None && self.data == Some(d)
    }

    /// Whether this is a failed reply carrying `e`.
    pub open spec fn is_error(&self, e: ApiError) -> bool {
        !self.status && self.error == Some(e) && self.data is None
    }
}

/// One of the four address tables.
#[derive(Debug, PartialEq, Eq, Structural, Clone, Copy)]
pub enum AddrTable {
    SourceBlacklist,
    SourceWhitelist,
    DestBlacklist,
    DestWhitelist,
}

/// The rules to load, each address with the ports it concerns.
pub struct RuleConfig {
    pub source_blacklist: Vec<(u32, PortRange)>,
    pub source_whitelist: Vec<(u32, PortRange)>,
    pub dest_blacklist: Vec<(u32, PortRange)>,
    pub dest_whitelist: Vec<(u32, PortRange)>,
    pub port_blacklist: Vec<u16>,
}

impl RuleConfig {
    /// Whether every entry of every list finds room in its table.
    pub open spec fn fits(&self) -> bool {
        &&& all_fit(Map::empty(), RULE_TABLE_CAPACITY as nat, self.source_blacklist@)
        &&& all_fit(Map::empty(), RULE_TABLE_CAPACITY as nat, self.source_whitelist@)
        &&& all_fit(Map::empty(), RULE_TABLE_CAPACITY as nat, self.dest_blacklist@)
        &&& all_fit(Map::empty(), RULE_TABLE_CAPACITY as nat, self.dest_whitelist@)
        &&& all_fit(Map::empty(), RULE_TABLE_CAPACITY as nat, port_entries(self.port_blacklist@))
    }
}

/// The entries of the port table for `ports`, each with the marker `0`.
pub open spec fn port_entries(ports: Seq<u16>) -> Seq<(u16, u8)> {
    ports.map_values(|p: u16| (p, 0u8))
}

/// The reply to setting `k -> v` in a table `m` of capacity `cap`.
pub open spec fn set_reply(m: Map<u32, PortRange>, cap: nat, ip: Option<u32>, reply: ApiResult<Ack>) -> bool {
    match ip {
        None => reply.is_error(ApiError::InvalidAddressFormat),
        Some(a) => if m.contains_key(a) || m.len() < cap {
            reply.is_success(Ack::Added)
        } else {
            reply.is_error(ApiError::CapacityExceeded)
        },
    }
}

/// The control plane: the single writer of the rule tables.
pub struct ControlApi {
    pub rules: RuleStore,
}

impl RuleStore {
    /// The view of one address table.
    pub open spec fn addr_view(&self, t: AddrTable) -> Map<u32, PortRange> {
        match t {
            AddrTable::SourceBlacklist => self.src_blacklist@,
            AddrTable::SourceWhitelist => self.src_whitelist@,
            AddrTable::DestBlacklist => self.dst_blacklist@,
            AddrTable::DestWhitelist => self.dst_whitelist@,
        }
    }

    /// Whether `self` and `o` agree on every table but the port blacklist.
    pub open spec fn same_rules_but_ports(&self, o: &RuleStore) -> bool {
        &&& self.src_blacklist@ == o.src_blacklist@
        &&& self.src_whitelist@ == o.src_whitelist@
        &&& self.dst_blacklist@ == o.dst_blacklist@
        &&& self.dst_whitelist@ == o.dst_whitelist@
        &&& self.blocked_stats@ == o.blocked_stats@
    }

    /// Whether `self` and `o` agree on every table but address table `t`.
    pub open spec fn same_except(&self, o: &RuleStore, t: AddrTable) -> bool {
        &&& (t != AddrTable::SourceBlacklist ==> self.src_blacklist@ == o.src_blacklist@)
        &&& (t != AddrTable::SourceWhitelist ==> self.src_whitelist@ == o.src_whitelist@)
        &&& (t != AddrTable::DestBlacklist ==> self.dst_blacklist@ == o.dst_blacklist@)
        &&& (t != AddrTable::DestWhitelist ==> self.dst_whitelist@ == o.dst_whitelist@)
        &&& self.port_blacklist@ == o.port_blacklist@
        &&& self.blocked_stats@ == o.blocked_stats@
    }
}

/// Sets `ip -> range` in `table`.
fn set_in(table: &mut RuleTable<u32, PortRange>, ip: Option<u32>, range: PortRange) -> (r: ApiResult<Ack>)
    requires
        old(table).wf(),
    ensures
        final(table).wf(),
        final(table).cap() == old(table).cap(),
        set_reply(old(table)@, old(table).cap(), ip, r),
        final(table)@ == match ip {
            Some(a) => put(old(table)@, old(table).cap(), a, range),
            None => old(table)@,
        },
{
    match ip {
        None => ApiResult::error(ApiError::InvalidAddressFormat),
        Some(a) => match table.insert(a, range) {
            Ok(()) => ApiResult::success(Ack::Added),
            Err(_) => ApiResult::error(ApiError::CapacityExceeded),
        },
    }
}

/// Removes the entry of `ip` from `table`.
fn del_in(table: &mut RuleTable<u32, PortRange>, ip: Option<u32>) -> (r: ApiResult<Ack>)
    requires
        old(table).wf(),
    ensures
        final(table).wf(),
        final(table).cap() == old(table).cap(),
        match ip {
            None => r.is_error(ApiError::InvalidAddressFormat) && final(table)@ == old(table)@,
            Some(a) => final(table)@ == old(table)@.remove(a) && if old(table)@.contains_key(a) {
                r.is_success(Ack::Removed)
            } else {
                r.is_error(ApiError::NotFound)
            },
        },
{
    match ip {
        None => ApiResult::error(ApiError::InvalidAddressFormat),
        Some(a) => match table.remove(a) {
            Ok(()) => ApiResult::success(Ack::Removed),
            Err(_) => ApiResult::error(ApiError::NotFound),
        },
    }
}

/// The port-table entries for `ports`, each with the marker `0`.
fn port_entries_of(ports: &Vec<u16>) -> (r: Vec<(u16, u8)>)
    ensures
        r@ == port_entries(ports@),
{
    let mut r: Vec<(u16, u8)> = Vec::new();
    let mut i: usize = 0;
    while i < ports.len()
        invariant
            i <= ports@.len(),
            r@ == port_entries(ports@.subrange(0, i as int)),
        decreases ports.len() - i,
    {
        r.push((ports[i], 0u8));
        assert(port_entries(ports@.subrange(0, i + 1)) =~= port_entries(ports@.subrange(0, i as int)).push((ports[i as int], 0u8)));
        i = i + 1;
    }
    assert(ports@.subrange(0, ports@.len() as int) =~= ports@);
    r
}

impl ControlApi {
    /// A control plane over empty tables.
    pub fn new() -> (r: ControlApi)
        ensures
            r.rules.wf(),
            r.rules.src_blacklist@ == Map::<u32, PortRange>::empty(),
            r.rules.src_whitelist@ == Map::<u32, PortRange>::empty(),
            r.rules.dst_blacklist@ == Map::<u32, PortRange>::empty(),
            r.rules.dst_whitelist@ == Map::<u32, PortRange>::empty(),
            r.rules.port_blacklist@ == Map::<u16, u8>::empty(),
            r.rules.blocked_stats@ == Map::<u32, u64>::empty(),
    {
        ControlApi { rules: RuleStore::new() }
    }

    /// Sets `ip -> range` in address table `t`. `ip` is `None` when the
    /// requested address was not IPv4. Setting a present address overwrites
    /// its range and succeeds.
    pub fn set_addr_rule(&mut self, t: AddrTable, ip: Option<u32>, range: PortRange) -> (r: ApiResult<Ack>)
        requires
            old(self).rules.wf(),
        ensures
            final(self).rules.wf(),
            final(self).rules.same_except(&old(self).rules, t),
            set_reply(old(self).rules.addr_view(t), RULE_TABLE_CAPACITY as nat, ip, r),
            final(self).rules.addr_view(t) == match ip {
                Some(a) => put(old(self).rules.addr_view(t), RULE_TABLE_CAPACITY as nat, a, range),
                None => old(self).rules.addr_view(t),
            },
    {
        match t {
            AddrTable::SourceBlacklist => set_in(&mut self.rules.src_blacklist, ip, range),
            AddrTable::SourceWhitelist => set_in(&mut self.rules.src_whitelist, ip, range),
            AddrTable::DestBlacklist => set_in(&mut self.rules.dst_blacklist, ip, range),
            AddrTable::DestWhitelist => set_in(&mut self.rules.dst_whitelist, ip, range),
        }
    }

    /// Removes the entry of `ip` from address table `t`.
    pub fn del_addr_rule(&mut self, t: AddrTable, ip: Option<u32>) -> (r: ApiResult<Ack>)
        requires
            old(self).rules.wf(),
        ensures
            final(self).rules.wf(),
            final(self).rules.same_except(&old(self).rules, t),
            match ip {
                None => r.is_error(ApiError::InvalidAddressFormat)
                    && final(self).rules.addr_view(t) == old(self).rules.addr_view(t),
                Some(a) => final(self).rules.addr_view(t) == old(self).rules.addr_view(t).remove(a)
                    && if old(self).rules.addr_view(t).contains_key(a) {
                    r.is_success(Ack::Removed)
                } else {
                    r.is_error(ApiError::NotFound)
                },
            },
    {
        match t {
            AddrTable::SourceBlacklist => del_in(&mut self.rules.src_blacklist, ip),
            AddrTable::SourceWhitelist => del_in(&mut self.rules.src_whitelist, ip),
            AddrTable::DestBlacklist => del_in(&mut self.rules.dst_blacklist, ip),
            AddrTable::DestWhitelist => del_in(&mut self.rules.dst_whitelist, ip),
        }
    }

    /// Puts `ip` on the source blacklist over every port.
    pub fn set_blacklist_source_rule(&mut self, ip: Option<u32>) -> (r: ApiResult<Ack>)
        requires
            old(self).rules.wf(),
        ensures
            final(self).rules.wf(),
            final(self).rules.same_except(&old(self).rules, AddrTable::SourceBlacklist),
            set_reply(old(self).rules.addr_view(AddrTable::SourceBlacklist), RULE_TABLE_CAPACITY as nat, ip, r),
            final(self).rules.addr_view(AddrTable::SourceBlacklist) == match ip {
                Some(a) => put(old(self).rules.addr_view(AddrTable::SourceBlacklist), RULE_TABLE_CAPACITY as nat, a,
                    PortRange(0, 0xffff)),
                None => old(self).rules.addr_view(AddrTable::SourceBlacklist),
            },
    {
        self.set_addr_rule(AddrTable::SourceBlacklist, ip, PortRange::full())
    }

    /// Takes `ip` off the source blacklist.
    pub fn del_blacklist_source_rule(&mut self, ip: Option<u32>) -> (r: ApiResult<Ack>)
        requires
            old(self).rules.wf(),
        ensures
            final(self).rules.wf(),
            final(self).rules.same_except(&old(self).rules, AddrTable::SourceBlacklist),
            match ip {
                None => r.is_error(ApiError::InvalidAddressFormat)
                    && final(self).rules.addr_view(AddrTable::SourceBlacklist) == old(self).rules.addr_view(AddrTable::SourceBlacklist),
                Some(a) => final(self).rules.addr_view(AddrTable::SourceBlacklist)
                    == old(self).rules.addr_view(AddrTable::SourceBlacklist).remove(a)
                    && if old(self).rules.addr_view(AddrTable::SourceBlacklist).contains_key(a) {
                    r.is_success(Ack::Removed)
                } else {
                    r.is_error(ApiError::NotFound)
                },
            },
    {
        self.del_addr_rule(AddrTable::SourceBlacklist, ip)
    }

    /// Puts `ip` on the source whitelist over every port.
    pub fn set_whitelist_source_rule(&mut self, ip: Option<u32>) -> (r: ApiResult<Ack>)
        requires
            old(self).rules.wf(),
        ensures
            final(self).rules.wf(),
            final(self).rules.same_except(&old(self).rules, AddrTable::SourceWhitelist),
            set_reply(old(self).rules.addr_view(AddrTable::SourceWhitelist), RULE_TABLE_CAPACITY as nat, ip, r),
            final(self).rules.addr_view(AddrTable::SourceWhitelist) == match ip {
                Some(a) => put(old(self).rules.addr_view(AddrTable::SourceWhitelist), RULE_TABLE_CAPACITY as nat, a,
                    PortRange(0, 0xffff)),
                None => old(self).rules.addr_view(AddrTable::SourceWhitelist),
            },
    {
        self.set_addr_rule(AddrTable::SourceWhitelist, ip, PortRange::full())
    }

    /// Takes `ip` off the source whitelist.
    pub fn del_whitelist_source_rule(&mut self, ip: Option<u32>) -> (r: ApiResult<Ack>)
        requires
            old(self).rules.wf(),
        ensures
            final(self).rules.wf(),
            final(self).rules.same_except(&old(self).rules, AddrTable::SourceWhitelist),
            match ip {
                None => r.is_error(ApiError::InvalidAddressFormat)
                    && final(self).rules.addr_view(AddrTable::SourceWhitelist) == old(self).rules.addr_view(AddrTable::SourceWhitelist),
                Some(a) => final(self).rules.addr_view(AddrTable::SourceWhitelist)
                    == old(self).rules.addr_view(AddrTable::SourceWhitelist).remove(a)
                    && if old(self).rules.addr_view(AddrTable::SourceWhitelist).contains_key(a) {
                    r.is_success(Ack::Removed)
                } else {
                    r.is_error(ApiError::NotFound)
                },
            },
    {
        self.del_addr_rule(AddrTable::SourceWhitelist, ip)
    }

    /// Puts `port` on the port blacklist.
    pub fn set_port_rule(&mut self, port: u16) -> (r: ApiResult<Ack>)
        requires
            old(self).rules.wf(),
        ensures
            final(self).rules.wf(),
            final(self).rules.same_rules_but_ports(&old(self).rules),
            final(self).rules.port_blacklist@ == put(old(self).rules.port_blacklist@,
                RULE_TABLE_CAPACITY as nat, port, 0u8),
            if old(self).rules.port_blacklist@.contains_key(port)
                || old(self).rules.port_blacklist@.len() < RULE_TABLE_CAPACITY {
                r.is_success(Ack::Added)
            } else {
                r.is_error(ApiError::CapacityExceeded)
            },
    {
        match self.rules.port_blacklist.insert(port, 0) {
            Ok(()) => ApiResult::success(Ack::Added),
            Err(_) => ApiResult::error(ApiError::CapacityExceeded),
        }
    }

    /// Takes `port` off the port blacklist.
    pub fn del_port_rule(&mut self, port: u16) -> (r: ApiResult<Ack>)
        requires
            old(self).rules.wf(),
        ensures
            final(self).rules.wf(),
            final(self).rules.same_rules_but_ports(&old(self).rules),
            final(self).rules.port_blacklist@ == old(self).rules.port_blacklist@.remove(port),
            if old(self).rules.port_blacklist@.contains_key(port) {
                r.is_success(Ack::Removed)
            } else {
                r.is_error(ApiError::NotFound)
            },
    {
        match self.rules.port_blacklist.remove(port) {
            Ok(()) => ApiResult::success(Ack::Removed),
            Err(_) => ApiResult::error(ApiError::NotFound),
        }
    }

    /// Replaces every rule table by the entries of `config`, one table after
    /// the other; the drop counts stay. Fails when some entry found its table
    /// full; every table is still replaced as far as its entries fit.
    pub fn reload_rule(&mut self, config: &RuleConfig) -> (r: ApiResult<Ack>)
        requires
            old(self).rules.wf(),
        ensures
            final(self).rules.wf(),
            final(self).rules.blocked_stats@ == old(self).rules.blocked_stats@,
            final(self).rules.src_blacklist@ == put_all(Map::empty(), RULE_TABLE_CAPACITY as nat,
                config.source_blacklist@),
            final(self).rules.src_whitelist@ == put_all(Map::empty(), RULE_TABLE_CAPACITY as nat,
                config.source_whitelist@),
            final(self).rules.dst_blacklist@ == put_all(Map::empty(), RULE_TABLE_CAPACITY as nat,
                config.dest_blacklist@),
            final(self).rules.dst_whitelist@ == put_all(Map::empty(), RULE_TABLE_CAPACITY as nat,
                config.dest_whitelist@),
            final(self).rules.port_blacklist@ == put_all(Map::empty(), RULE_TABLE_CAPACITY as nat,
                port_entries(config.port_blacklist@)),
            if config.fits() {
                r.is_success(Ack::Reloaded)
            } else {
                r.is_error(ApiError::CapacityExceeded)
            },
    {
        let ports = port_entries_of(&config.port_blacklist);
        let a = self.rules.src_blacklist.replace_all(&config.source_blacklist);
        let b = self.rules.src_whitelist.replace_all(&config.source_whitelist);
        let c = self.rules.dst_blacklist.replace_all(&config.dest_blacklist);
        let d = self.rules.dst_whitelist.replace_all(&config.dest_whitelist);
        let e = self.rules.port_blacklist.replace_all(&ports);
        if a.is_ok() && b.is_ok() && c.is_ok() && d.is_ok() && e.is_ok() {
            ApiResult::success(Ack::Reloaded)
        } else {
            ApiResult::error(ApiError::CapacityExceeded)
        }
    }

    /// A copy of the drop counts.
    pub fn stats_blocked(&self) -> (r: ApiResult<HashMap<u32, u64>>)
        requires
            self.rules.wf(),
        ensures
            r.status,
            r.error is None,
            r.data is Some,
            r.data.unwrap()@ == self.rules.blocked_stats@,
    {
        ApiResult::success(self.rules.blocked_stats.snapshot())
    }
}

} // verus!
