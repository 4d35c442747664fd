use vstd::prelude::*;
use crate::packet::{parse_frame, frame_fields, Parsed, PacketHeader, ETH_HDR_LEN, ETHERTYPE_IPV4, be16_at};
use crate::port_range::PortRange;
use crate::table::{RuleTable, put, bump};

verus! {

broadcast use vstd::std_specs::hash::group_hash_axioms;

/// Capacity of each address table and of the port table.
pub const RULE_TABLE_CAPACITY: usize = 4096;
/// Capacity of the table of drop counts.
pub const STATS_CAPACITY: usize = 65536;

/// What the ingress hook does with a frame.
#[derive(Debug, PartialEq, Eq, Structural, Clone, Copy)]
pub enum Action {
    /// The frame context could not be read; never a policy decision.
    Aborted,
    /// Let the frame through.
    Pass,
    /// Discard the frame.
    Drop,
}

impl Action {
    /// The XDP return code of the action.
    pub fn xdp_code(&self) -> (r: u32)
        ensures
            *self == Action::Aborted ==> r == 0,
            *self == Action::Drop ==> r == 1,
            *self == Action::Pass ==> r == 2,
    {
        match self {
            Action::Aborted => 0,
            Action::Drop => 1,
            Action::Pass => 2,
        }
    }
}

/// Which decision algorithm the ingress hook applies.
#[derive(Debug, PartialEq, Eq, Structural, Clone, Copy)]
pub enum Policy {
    /// Source whitelist, then source blacklist, then port blacklist; drops
    /// are counted by source port.
    FlatLists,
    /// Per-address port ranges on source and destination, each with a
    /// whitelist override; drops are counted by address.
    PortRanges,
}

/// The rule tables read by the hooks and written by the control plane.
///
/// Every hook does point lookups only, and its one write is a single counter
/// increment or a single whitelist insertion; each table operation acts on
/// one key, with no ordering promised across keys.
pub struct RuleStore {
    pub src_blacklist: RuleTable<u32, PortRange>,
    pub src_whitelist: RuleTable<u32, PortRange>,
    pub dst_blacklist: RuleTable<u32, PortRange>,
    pub dst_whitelist: RuleTable<u32, PortRange>,
    pub port_blacklist: RuleTable<u16, u8>,
    pub blocked_stats: RuleTable<u32, u64>,
}

/// The flat-list decision on a packet from `src` with source port `port`.
pub open spec fn flat_decision(
    whitelist: Map<u32, PortRange>,
    blacklist: Map<u32, PortRange>,
    ports: Map<u16, u8>,
    src: u32,
    port: u16,
) -> Action {
    if whitelist.contains_key(src) {
        Action::Pass
    } else if blacklist.contains_key(src) || ports.contains_key(port) {
        Action::Drop
    } else {
        Action::Pass
    }
}

/// Whether the port-range policy blocks `port` of `addr`: the blacklist
/// restricts that port of the address and the whitelist does not allow it.
pub open spec fn range_blocked(
    blacklist: Map<u32, PortRange>,
    whitelist: Map<u32, PortRange>,
    addr: u32,
    port: u16,
) -> bool {
    &&& blacklist.contains_key(addr)
    &&& blacklist[addr].spec_contains(port)
    &&& !(whitelist.contains_key(addr) && whitelist[addr].spec_contains(port))
}

/// The whitelist after the egress hook has seen `frame`: the destination of
/// a TCP or UDP frame to a blacklisted port becomes trusted over every port,
/// unless it already has an entry.
pub open spec fn egress_whitelist(
    whitelist: Map<u32, PortRange>,
    cap: nat,
    ports: Map<u16, u8>,
    frame: Seq<u8>,
) -> Map<u32, PortRange> {
    match frame_fields(frame) {
        Parsed::Packet(h) => if ports.contains_key(h.dst_port) && !whitelist.contains_key(h.dst_addr) {
            put(whitelist, cap, h.dst_addr, PortRange(0, 0xffff))
        } else {
            whitelist
        },
        _ => whitelist,
    }
}

impl RuleStore {
    /// Each table keeps its invariant and its capacity.
    pub open spec fn wf(&self) -> bool {
        &&& self.src_blacklist.wf() && self.src_blacklist.cap() == RULE_TABLE_CAPACITY
        &&& self.src_whitelist.wf() && self.src_whitelist.cap() == RULE_TABLE_CAPACITY
        &&& self.dst_blacklist.wf() && self.dst_blacklist.cap() == RULE_TABLE_CAPACITY
        &&& self.dst_whitelist.wf() && self.dst_whitelist.cap() == RULE_TABLE_CAPACITY
        &&& self.port_blacklist.wf() && self.port_blacklist.cap() == RULE_TABLE_CAPACITY
        &&& self.blocked_stats.wf() && self.blocked_stats.cap() == STATS_CAPACITY
    }

    /// Whether only the drop counts differ between `self` and `o`.
    pub open spec fn same_rules(&self, o: &RuleStore) -> bool {
        &&& self.src_blacklist@ == o.src_blacklist@
        &&& self.src_whitelist@ == o.src_whitelist@
        &&& self.dst_blacklist@ == o.dst_blacklist@
        &&& self.dst_whitelist@ == o.dst_whitelist@
        &&& self.port_blacklist@ == o.port_blacklist@
    }

    /// Empty tables.
    pub fn new() -> (r: RuleStore)
        ensures
            r.wf(),
            r.src_blacklist@ == Map::<u32, PortRange>::empty(),
            r.src_whitelist@ == Map::<u32, PortRange>::empty(),
            r.dst_blacklist@ == Map::<u32, PortRange>::empty(),
            r.dst_whitelist@ == Map::<u32, PortRange>::empty(),
            r.port_blacklist@ == Map::<u16, u8>::empty(),
            r.blocked_stats@ == Map::<u32, u64>::empty(),
    {
        RuleStore {
            src_blacklist: RuleTable::new(RULE_TABLE_CAPACITY),
            src_whitelist: RuleTable::new(RULE_TABLE_CAPACITY),
            dst_blacklist: RuleTable::new(RULE_TABLE_CAPACITY),
            dst_whitelist: RuleTable::new(RULE_TABLE_CAPACITY),
            port_blacklist: RuleTable::new(RULE_TABLE_CAPACITY),
            blocked_stats: RuleTable::new(STATS_CAPACITY),
        }
    }

    /// Whether the port blacklist lets `port` through.
    pub fn allow_port(&self, port: u16) -> (r: bool)
        requires
            self.wf(),
        ensures
            r == !self.port_blacklist@.contains_key(port),
    {
        !self.port_blacklist.contains(port)
    }

    /// Counts one drop under `key`.
    pub fn increase_drop(&mut self, key: u32)
        requires
            old(self).wf(),
        ensures
            final(self).wf(),
            final(self).same_rules(old(self)),
            final(self).blocked_stats@ == bump(old(self).blocked_stats@, STATS_CAPACITY as nat, key),
    {
        self.blocked_stats.increment(key);
    }

    /// The flat-list decision on a parsed packet; a drop is counted under the
    /// source port.
    pub fn classify_flat(&mut self, h: &PacketHeader) -> (r: Action)
        requires
            old(self).wf(),
        ensures
            final(self).wf(),
            final(self).same_rules(old(self)),
            r == flat_decision(old(self).src_whitelist@, old(self).src_blacklist@,
                old(self).port_blacklist@, h.src_addr, h.src_port),
            final(self).blocked_stats@ == if r == Action::Drop {
                bump(old(self).blocked_stats@, STATS_CAPACITY as nat, h.src_port as u32)
            } else {
                old(self).blocked_stats@
            },
    {
        if self.src_whitelist.contains(h.src_addr) {
            return Action::Pass;
        }
        if self.src_blacklist.contains(h.src_addr) || !self.allow_port(h.src_port) {
            self.increase_drop(h.src_port as u32);
            return Action::Drop;
        }
        Action::Pass
    }

    /// Whether the port-range policy blocks `port` of `addr`, reading the
    /// source tables or the destination tables.
    fn range_check(&self, source: bool, addr: u32, port: u16) -> (r: bool)
        requires
            self.wf(),
        ensures
            source ==> r == range_blocked(self.src_blacklist@, self.src_whitelist@, addr, port),
            !source ==> r == range_blocked(self.dst_blacklist@, self.dst_whitelist@, addr, port),
    {
        let (black, white) = if source {
            (self.src_blacklist.get(addr), self.src_whitelist.get(addr))
        } else {
            (self.dst_blacklist.get(addr), self.dst_whitelist.get(addr))
        };
        match black {
            None => false,
            Some(range) => {
                if !range.contains(port) {
                    false
                } else {
                    match white {
                        Some(allowed) => !allowed.contains(port),
                        None => true,
                    }
                }
            },
        }
    }

    /// The port-range decision on a parsed packet: the source pair is checked
    /// first, then the destination pair; a drop is counted under the address
    /// of the pair that was blocked.
    pub fn classify_ranges(&mut self, h: &PacketHeader) -> (r: Action)
        requires
            old(self).wf(),
        ensures
            final(self).wf(),
            final(self).same_rules(old(self)),
            ({
                let src_blocked = range_blocked(old(self).src_blacklist@, old(self).src_whitelist@,
                    h.src_addr, h.src_port);
                let dst_blocked = range_blocked(old(self).dst_blacklist@, old(self).dst_whitelist@,
                    h.dst_addr, h.dst_port);
                &&& r == (if src_blocked || dst_blocked { Action::Drop } else { Action::Pass })
                &&& final(self).blocked_stats@ == if src_blocked {
                    bump(old(self).blocked_stats@, STATS_CAPACITY as nat, h.src_addr)
                } else if dst_blocked {
                    bump(old(self).blocked_stats@, STATS_CAPACITY as nat, h.dst_addr)
                } else {
                    old(self).blocked_stats@
                }
            }),
    {
        if self.range_check(true, h.src_addr, h.src_port) {
            self.increase_drop(h.src_addr);
            return Action::Drop;
        }
        if self.range_check(false, h.dst_addr, h.dst_port) {
            self.increase_drop(h.dst_addr);
            return Action::Drop;
        }
        Action::Pass
    }

    /// The ingress hook: parses `frame` and applies `policy`. A frame that is
    /// too short, not IPv4, or neither TCP nor UDP passes and changes nothing.
    pub fn sdf_ingress(&mut self, policy: Policy, frame: &[u8]) -> (r: Action)
        requires
            old(self).wf(),
        ensures
            final(self).wf(),
            final(self).same_rules(old(self)),
            r != Action::Aborted,
            match frame_fields(frame@) {
                Parsed::Packet(h) => match policy {
                    Policy::FlatLists => {
                        &&& r == flat_decision(old(self).src_whitelist@, old(self).src_blacklist@,
                            old(self).port_blacklist@, h.src_addr, h.src_port)
                        &&& r == Action::Drop ==> final(self).blocked_stats@ == bump(
                            old(self).blocked_stats@, STATS_CAPACITY as nat, h.src_port as u32)
                    },
                    Policy::PortRanges => {
                        let src_blocked = range_blocked(old(self).src_blacklist@, old(self).src_whitelist@,
                            h.src_addr, h.src_port);
                        let dst_blocked = range_blocked(old(self).dst_blacklist@, old(self).dst_whitelist@,
                            h.dst_addr, h.dst_port);
                        &&& r == (if src_blocked || dst_blocked { Action::Drop } else { Action::Pass })
                        &&& src_blocked ==> final(self).blocked_stats@ == bump(old(self).blocked_stats@,
                            STATS_CAPACITY as nat, h.src_addr)
                        &&& !src_blocked && dst_blocked ==> final(self).blocked_stats@ == bump(
                            old(self).blocked_stats@, STATS_CAPACITY as nat, h.dst_addr)
                    },
                },
                _ => r == Action::Pass && final(self).blocked_stats@ == old(self).blocked_stats@,
            },
            r == Action::Pass ==> final(self).blocked_stats@ == old(self).blocked_stats@,
    {
        match parse_frame(frame) {
            Parsed::Packet(h) => match policy {
                Policy::FlatLists => self.classify_flat(&h),
                Policy::PortRanges => self.classify_ranges(&h),
            },
            _ => Action::Pass,
        }
    }

    /// The egress hook: when a TCP or UDP frame goes to a blacklisted port,
    /// its destination address is added to the source whitelist over every
    /// port, unless it has an entry already. Returns whether it was added.
    /// The frame always goes out unchanged.
    pub fn sdf_egress(&mut self, frame: &[u8]) -> (added: bool)
        requires
            old(self).wf(),
        ensures
            final(self).wf(),
            final(self).src_whitelist@ == egress_whitelist(old(self).src_whitelist@,
                RULE_TABLE_CAPACITY as nat, old(self).port_blacklist@, frame@),
            added == (final(self).src_whitelist@ != old(self).src_whitelist@),
            final(self).src_blacklist@ == old(self).src_blacklist@,
            final(self).dst_blacklist@ == old(self).dst_blacklist@,
            final(self).dst_whitelist@ == old(self).dst_whitelist@,
            final(self).port_blacklist@ == old(self).port_blacklist@,
            final(self).blocked_stats@ == old(self).blocked_stats@,
    {
        match parse_frame(frame) {
            Parsed::Packet(h) => {
                if self.port_blacklist.contains(h.dst_port) && !self.src_whitelist.contains(h.dst_addr) {
                    let ok = self.src_whitelist.insert(h.dst_addr, PortRange::full()).is_ok();
                    proof {
                        if ok {
                            assert(self.src_whitelist@.contains_key(h.dst_addr));
                        }
                    }
                    ok
                } else {
                    false
                }
            },
            _ => false,
        }
    }
}

/// A source address on the whitelist passes under the flat-list policy,
/// whatever the blacklist and the port blacklist hold.
pub proof fn lemma_whitelist_overrides(
    whitelist: Map<u32, PortRange>,
    blacklist: Map<u32, PortRange>,
    ports: Map<u16, u8>,
    src: u32,
    port: u16,
)
    requires
        whitelist.contains_key(src),
    ensures
        flat_decision(whitelist, blacklist, ports, src, port) == Action::Pass,
{
}

/// Under the port-range policy an address without a blacklist entry is never
/// blocked, whatever the whitelist holds; a port inside the blacklisted range
/// is blocked exactly when no whitelist range of the address holds it.
pub proof fn lemma_range_policy(
    blacklist: Map<u32, PortRange>,
    whitelist: Map<u32, PortRange>,
    addr: u32,
    port: u16,
)
    ensures
        !blacklist.contains_key(addr) ==> !range_blocked(blacklist, whitelist, addr, port),
        blacklist.contains_key(addr) && blacklist[addr].spec_contains(port) ==> (
            range_blocked(blacklist, whitelist, addr, port) <==> !(whitelist.contains_key(addr)
                && whitelist[addr].spec_contains(port))),
        blacklist.contains_key(addr) && !blacklist[addr].spec_contains(port)
            ==> !range_blocked(blacklist, whitelist, addr, port),
{
}

/// A frame too short to hold the Ethernet, IPv4 and UDP headers, or one whose
/// ethertype is not IPv4, yields no packet, so the ingress hook passes it.
pub proof fn lemma_fail_open(frame: Seq<u8>)
    requires
        frame.len() < 42 || (frame.len() >= ETH_HDR_LEN && be16_at(frame, 12) != ETHERTYPE_IPV4),
    ensures
        !(frame_fields(frame) is Packet),
{
}

/// An egress frame of TCP or UDP to a blacklisted port leaves its
/// destination on the whitelist when the whitelist has room or holds it
/// already, and seeing the same frame a second time changes nothing more:
/// the destination is added at most once.
pub proof fn lemma_egress_once(
    whitelist: Map<u32, PortRange>,
    cap: nat,
    ports: Map<u16, u8>,
    frame: Seq<u8>,
)
    ensures
        egress_whitelist(egress_whitelist(whitelist, cap, ports, frame), cap, ports, frame)
            == egress_whitelist(whitelist, cap, ports, frame),
        frame_fields(frame) is Packet && ports.contains_key(frame_fields(frame)->Packet_0.dst_port)
            && (whitelist.contains_key(frame_fields(frame)->Packet_0.dst_addr) || whitelist.len() < cap)
            ==> egress_whitelist(whitelist, cap, ports, frame).contains_key(
            frame_fields(frame)->Packet_0.dst_addr),
{
}

} // verus!
