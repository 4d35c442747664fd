use vstd::prelude::*;

verus! {

/// An IPv4 address as its four bytes in network (big-endian) order.
#[derive(Debug, Eq, Clone, Copy)]
pub struct IpV4Addr(pub [u8; 4]);

impl PartialEq for IpV4Addr {
    fn eq(&self, o: &IpV4Addr) -> (r: bool) {
        let r = self.0[0] == o.0[0] && self.0[1] == o.0[1] && self.0[2] == o.0[2] && self.0[3] == o.0[3];
        proof {
            broadcast use vstd::array::group_array_axioms;
            if r {
                assert(self.0 =~= o.0);
            }
        }
        r
    }
}

impl vstd::std_specs::cmp::PartialEqSpecImpl for IpV4Addr {
    open spec fn obeys_eq_spec() -> bool {
        true
    }

    open spec fn eq_spec(&self, o: &IpV4Addr) -> bool {
        *self == *o
    }
}

/// The 32-bit value of four bytes read big-endian.
pub open spec fn be_value(b0: u8, b1: u8, b2: u8, b3: u8) -> u32 {
    ((b0 as u32) << 24) | ((b1 as u32) << 16) | ((b2 as u32) << 8) | (b3 as u32)
}

/// The four big-endian bytes of a 32-bit value, most significant first.
pub open spec fn be_bytes(value: u32) -> Seq<u8> {
    seq![
        (value >> 24) as u8,
        (value >> 16) as u8,
        (value >> 8) as u8,
        value as u8,
    ]
}

impl IpV4Addr {
    /// The address as a 32-bit value.
    pub open spec fn value(self) -> u32 {
        be_value(self.0[0], self.0[1], self.0[2], self.0[3])
    }
}

/// The address whose bytes are the big-endian bytes of `value`.
pub open spec fn addr_of(value: u32) -> IpV4Addr {
    choose|a: IpV4Addr| a.0@ == be_bytes(value)
}

impl From<u32> for IpV4Addr {
    fn from(value: u32) -> (r: IpV4Addr) {
        let b0 = (value >> 24) as u8;
        let b1 = (value >> 16) as u8;
        let b2 = (value >> 8) as u8;
        let b3 = value as u8;
        let r = IpV4Addr([b0, b1, b2, b3]);
        proof {
            assert(r.0@ =~= be_bytes(value));
            let a = addr_of(value);
            assert(a.0@ == be_bytes(value));
            assert(a.0 =~= r.0);
        }
        r
    }
}

impl vstd::std_specs::convert::FromSpecImpl<u32> for IpV4Addr {
    open spec fn obeys_from_spec() -> bool {
        true
    }

    open spec fn from_spec(v: u32) -> IpV4Addr {
        addr_of(v)
    }
}

impl From<IpV4Addr> for u32 {
    fn from(value: IpV4Addr) -> (r: u32) {
        let b = value.0;
        let (b0, b1, b2, b3) = (b[0], b[1], b[2], b[3]);
        ((b0 as u32) << 24) | ((b1 as u32) << 16) | ((b2 as u32) << 8) | (b3 as u32)
    }
}

impl vstd::std_specs::convert::FromSpecImpl<IpV4Addr> for u32 {
    open spec fn obeys_from_spec() -> bool {
        true
    }

    open spec fn from_spec(v: IpV4Addr) -> u32 {
        v.value()
    }
}

/// Reading the bytes of a value back gives the value, and the bytes of the
/// value read from four bytes are those bytes.
pub proof fn lemma_be_round_trip(b0: u8, b1: u8, b2: u8, b3: u8, value: u32)
    ensures
        be_bytes(be_value(b0, b1, b2, b3)) == seq![b0, b1, b2, b3],
        be_value(be_bytes(value)[0], be_bytes(value)[1], be_bytes(value)[2], be_bytes(value)[3])
            == value,
{
    let v = be_value(b0, b1, b2, b3);
    assert((v >> 24) as u8 == b0 && (v >> 16) as u8 == b1 && (v >> 8) as u8 == b2 && v as u8 == b3)
        by (bit_vector)
        requires
            v == ((b0 as u32) << 24) | ((b1 as u32) << 16) | ((b2 as u32) << 8) | (b3 as u32),
    ;
    assert(be_bytes(v) =~= seq![b0, b1, b2, b3]);
    let c0 = (value >> 24) as u8;
    let c1 = (value >> 16) as u8;
    let c2 = (value >> 8) as u8;
    let c3 = value as u8;
    assert(((c0 as u32) << 24) | ((c1 as u32) << 16) | ((c2 as u32) << 8) | (c3 as u32) == value)
        by (bit_vector)
        requires
            c0 == (value >> 24) as u8,
            c1 == (value >> 16) as u8,
            c2 == (value >> 8) as u8,
            c3 == value as u8,
    ;
}

/// Converting an address to its 32-bit value and back gives the same address.
pub proof fn lemma_addr_round_trip(a: IpV4Addr)
    ensures
        addr_of(a.value()) == a,
{
    broadcast use vstd::array::group_array_axioms;
    lemma_be_round_trip(a.0[0], a.0[1], a.0[2], a.0[3], 0);
    assert(be_bytes(a.value()) =~= a.0@);
    let b = addr_of(a.value());
    assert(b.0@ == be_bytes(a.value()));
    assert(b.0 =~= a.0);
}

} // verus!
