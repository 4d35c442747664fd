use vstd::prelude::*;

verus! {

/// An inclusive range of ports `[low, high]`.
///
/// Packed into 32 bits as `low << 16 | high`.
#[derive(Debug, PartialEq, Eq, Structural, Clone, Copy)]
pub struct PortRange(pub u16, pub u16);

/// The packed form of a range.
pub open spec fn pack(low: u16, high: u16) -> u32 {
    ((low as u32) * 0x10000 + (high as u32)) as u32
}

/// The range held by a packed value.
pub open spec fn unpack(value: u32) -> PortRange {
    PortRange((value / 0x10000) as u16, (value % 0x10000) as u16)
}

impl PortRange {
    /// The range of every port, `[0, 65535]`.
    pub fn full() -> (r: PortRange)
        ensures
            r == PortRange(0, 0xffff),
    {
        PortRange(0, 0xffff)
    }

    pub open spec fn spec_contains(self, port: u16) -> bool {
        self.0 <= port <= self.1
    }

    /// Whether `port` lies inside the range (both ends included).
    pub fn contains(&self, port: u16) -> (r: bool)
        ensures
            r == self.spec_contains(port),
    {
        self.0 <= port && port <= self.1
    }
}

impl From<u32> for PortRange {
    fn from(value: u32) -> (r: PortRange) {
        proof {
            assert((value >> 16) as u16 == (value / 0x10000) as u16) by (bit_vector);
            assert((value & 0xffff) as u16 == (value % 0x10000) as u16) by (bit_vector);
        }
        PortRange((value >> 16) as u16, (value & 0xffff) as u16)
    }
}

impl vstd::std_specs::convert::FromSpecImpl<u32> for PortRange {
    open spec fn obeys_from_spec() -> bool {
        true
    }

    open spec fn from_spec(v: u32) -> PortRange {
        unpack(v)
    }
}

impl From<PortRange> for u32 {
    fn from(value: PortRange) -> (r: u32) {
        let (low, high) = (value.0, value.1);
        proof {
            assert(((low as u32) << 16) | (high as u32) == ((low as u32) * 0x10000 + (high as u32)) as u32) by (bit_vector);
        }
        ((low as u32) << 16) | (high as u32)
    }
}

impl vstd::std_specs::convert::FromSpecImpl<PortRange> for u32 {
    open spec fn obeys_from_spec() -> bool {
        true
    }

    open spec fn from_spec(v: PortRange) -> u32 {
        pack(v.0, v.1)
    }
}

/// Unpacking a packed range gives the range back, and packing an unpacked
/// value gives the value back.
pub proof fn lemma_pack_round_trip(low: u16, high: u16, value: u32)
    ensures
        unpack(pack(low, high)) == PortRange(low, high),
        pack(unpack(value).0, unpack(value).1) == value,
{
}

} // verus!
