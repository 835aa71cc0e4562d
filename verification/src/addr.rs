//! IP addresses as plain values: four octets for version 4, eight 16-bit
//! segments for version 6.

use vstd::prelude::*;

verus! {

/// An IPv4 address, held as its four octets in network order.
#[derive(Clone, Copy, Debug, PartialEq, Eq, Hash, Structural)]
pub struct Ipv4Addr {
    pub a: u8,
    pub b: u8,
    pub c: u8,
    pub d: u8,
}

/// An IPv6 address, held as its eight 16-bit segments in network order.
#[derive(Clone, Copy, Debug, PartialEq, Eq, Hash, Structural)]
pub struct Ipv6Addr {
    pub s0: u16,
    pub s1: u16,
    pub s2: u16,
    pub s3: u16,
    pub s4: u16,
    pub s5: u16,
    pub s6: u16,
    pub s7: u16,
}

/// An IP address of either family.
#[derive(Clone, Copy, Debug, PartialEq, Eq, Hash, Structural)]
pub enum IpAddr {
    V4(Ipv4Addr),
    V6(Ipv6Addr),
}

/// The high byte of a 16-bit segment.
pub open spec fn high_byte(s: u16) -> u8 {
    (s / 256) as u8
}

/// The low byte of a 16-bit segment.
pub open spec fn low_byte(s: u16) -> u8 {
    (s % 256) as u8
}

/// The segment whose bytes, in network order, are `hi` and `lo`.
pub open spec fn segment_of(hi: u8, lo: u8) -> u16 {
    (hi * 256 + lo) as u16
}

fn join_bytes(hi: u8, lo: u8) -> (s: u16)
    ensures
        s == segment_of(hi, lo),
        high_byte(s) == hi,
        low_byte(s) == lo,
{
    let wide: u16 = hi as u16;
    wide * 256 + (lo as u16)
}

fn split_high(s: u16) -> (hi: u8)
    ensures
        hi == high_byte(s),
{
    (s / 256) as u8
}

fn split_low(s: u16) -> (lo: u8)
    ensures
        lo == low_byte(s),
{
    (s % 256) as u8
}

/// Splitting a segment into its bytes and joining them gives the segment back.
pub proof fn lemma_segment_bytes(s: u16)
    ensures
        segment_of(high_byte(s), low_byte(s)) == s,
{
}

impl Ipv4Addr {
    /// The four octets, in network order.
    pub open spec fn octets_spec(self) -> Seq<u8> {
        seq![self.a, self.b, self.c, self.d]
    }

    /// True iff every octet is zero.
    pub open spec fn is_unspecified_spec(self) -> bool {
        self.a == 0 && self.b == 0 && self.c == 0 && self.d == 0
    }

    /// The all-zero address, `0.0.0.0`.
    pub open spec fn unspecified_spec() -> Ipv4Addr {
        Ipv4Addr { a: 0, b: 0, c: 0, d: 0 }
    }

    /// The address `a.b.c.d`.
    pub fn new(a: u8, b: u8, c: u8, d: u8) -> (r: Self)
        ensures
            r == (Ipv4Addr { a, b, c, d }),
            r.octets_spec() == seq![a, b, c, d],
    {
        Ipv4Addr { a, b, c, d }
    }

    /// The all-zero address, `0.0.0.0`.
    pub fn unspecified() -> (r: Self)
        ensures
            r == Self::unspecified_spec(),
            r.is_unspecified_spec(),
    {
        Ipv4Addr { a: 0, b: 0, c: 0, d: 0 }
    }

    /// Whether this is the all-zero address.
    pub fn is_unspecified(&self) -> (r: bool)
        ensures
            r == self.is_unspecified_spec(),
            r == (*self == Self::unspecified_spec()),
    {
        self.a == 0 && self.b == 0 && self.c == 0 && self.d == 0
    }

    /// The four octets, in network order.
    pub fn octets(&self) -> (r: [u8; 4])
        ensures
            r@ == self.octets_spec(),
    {
        let r: [u8; 4] = [self.a, self.b, self.c, self.d];
        assert(r@ =~= self.octets_spec());
        r
    }

    /// The address whose octets, in network order, are `octets`.
    pub fn from_octets(octets: [u8; 4]) -> (r: Self)
        ensures
            r.octets_spec() == octets@,
    {
        let r = Ipv4Addr { a: octets[0], b: octets[1], c: octets[2], d: octets[3] };
        assert(r.octets_spec() =~= octets@);
        r
    }
}

impl Ipv6Addr {
    /// The eight segments, in network order.
    pub open spec fn segments_spec(self) -> Seq<u16> {
        seq![self.s0, self.s1, self.s2, self.s3, self.s4, self.s5, self.s6, self.s7]
    }

    /// The sixteen octets, in network order.
    pub open spec fn octets_spec(self) -> Seq<u8> {
        seq![
            high_byte(self.s0),
            low_byte(self.s0),
            high_byte(self.s1),
            low_byte(self.s1),
            high_byte(self.s2),
            low_byte(self.s2),
            high_byte(self.s3),
            low_byte(self.s3),
            high_byte(self.s4),
            low_byte(self.s4),
            high_byte(self.s5),
            low_byte(self.s5),
            high_byte(self.s6),
            low_byte(self.s6),
            high_byte(self.s7),
            low_byte(self.s7),
        ]
    }

    /// True iff every segment is zero.
    pub open spec fn is_unspecified_spec(self) -> bool {
        self.s0 == 0 && self.s1 == 0 && self.s2 == 0 && self.s3 == 0 && self.s4 == 0 && self.s5
            == 0 && self.s6 == 0 && self.s7 == 0
    }

    /// The all-zero address, `::`.
    pub open spec fn unspecified_spec() -> Ipv6Addr {
        Ipv6Addr { s0: 0, s1: 0, s2: 0, s3: 0, s4: 0, s5: 0, s6: 0, s7: 0 }
    }

    /// The address with the given segments.
    pub fn new(s0: u16, s1: u16, s2: u16, s3: u16, s4: u16, s5: u16, s6: u16, s7: u16) -> (r: Self)
        ensures
            r == (Ipv6Addr { s0, s1, s2, s3, s4, s5, s6, s7 }),
    {
        Ipv6Addr { s0, s1, s2, s3, s4, s5, s6, s7 }
    }

    /// The all-zero address, `::`.
    pub fn unspecified() -> (r: Self)
        ensures
            r == Self::unspecified_spec(),
            r.is_unspecified_spec(),
    {
        Ipv6Addr { s0: 0, s1: 0, s2: 0, s3: 0, s4: 0, s5: 0, s6: 0, s7: 0 }
    }

    /// Whether this is the all-zero address.
    pub fn is_unspecified(&self) -> (r: bool)
        ensures
            r == self.is_unspecified_spec(),
            r == (*self == Self::unspecified_spec()),
    {
        self.s0 == 0 && self.s1 == 0 && self.s2 == 0 && self.s3 == 0 && self.s4 == 0 && self.s5
            == 0 && self.s6 == 0 && self.s7 == 0
    }

    /// The eight segments, in network order.
    pub fn segments(&self) -> (r: [u16; 8])
        ensures
            r@ == self.segments_spec(),
    {
        let r: [u16; 8] = [
            self.s0,
            self.s1,
            self.s2,
            self.s3,
            self.s4,
            self.s5,
            self.s6,
            self.s7,
        ];
        assert(r@ =~= self.segments_spec());
        r
    }

    /// The sixteen octets, in network order.
    pub fn octets(&self) -> (r: [u8; 16])
        ensures
            r@ == self.octets_spec(),
    {
        let r: [u8; 16] = [
            split_high(self.s0),
            split_low(self.s0),
            split_high(self.s1),
            split_low(self.s1),
            split_high(self.s2),
            split_low(self.s2),
            split_high(self.s3),
            split_low(self.s3),
            split_high(self.s4),
            split_low(self.s4),
            split_high(self.s5),
            split_low(self.s5),
            split_high(self.s6),
            split_low(self.s6),
            split_high(self.s7),
            split_low(self.s7),
        ];
        assert(r@ =~= self.octets_spec());
        r
    }

    /// The address whose octets, in network order, are `octets`.
    pub fn from_octets(octets: [u8; 16]) -> (r: Self)
        ensures
            r.octets_spec() == octets@,
    {
        let r = Ipv6Addr {
            s0: join_bytes(octets[0], octets[1]),
            s1: join_bytes(octets[2], octets[3]),
            s2: join_bytes(octets[4], octets[5]),
            s3: join_bytes(octets[6], octets[7]),
            s4: join_bytes(octets[8], octets[9]),
            s5: join_bytes(octets[10], octets[11]),
            s6: join_bytes(octets[12], octets[13]),
            s7: join_bytes(octets[14], octets[15]),
        };
        assert(r.octets_spec() =~= octets@);
        r
    }
}

/// Two IPv6 addresses with the same octets are the same address.
pub proof fn lemma_v6_octets_injective(x: Ipv6Addr, y: Ipv6Addr)
    requires
        x.octets_spec() == y.octets_spec(),
    ensures
        x == y,
{
    let p = x.octets_spec();
    let q = y.octets_spec();
    assert(p[0] == q[0] && p[1] == q[1] && p[2] == q[2] && p[3] == q[3]);
    assert(p[4] == q[4] && p[5] == q[5] && p[6] == q[6] && p[7] == q[7]);
    assert(p[8] == q[8] && p[9] == q[9] && p[10] == q[10] && p[11] == q[11]);
    assert(p[12] == q[12] && p[13] == q[13] && p[14] == q[14] && p[15] == q[15]);
    lemma_segment_bytes(x.s0);
    lemma_segment_bytes(y.s0);
    lemma_segment_bytes(x.s1);
    lemma_segment_bytes(y.s1);
    lemma_segment_bytes(x.s2);
    lemma_segment_bytes(y.s2);
    lemma_segment_bytes(x.s3);
    lemma_segment_bytes(y.s3);
    lemma_segment_bytes(x.s4);
    lemma_segment_bytes(y.s4);
    lemma_segment_bytes(x.s5);
    lemma_segment_bytes(y.s5);
    lemma_segment_bytes(x.s6);
    lemma_segment_bytes(y.s6);
    lemma_segment_bytes(x.s7);
    lemma_segment_bytes(y.s7);
}

impl IpAddr {
    /// True iff the address is the all-zero address of its family.
    pub open spec fn is_unspecified_spec(self) -> bool {
        match self {
            IpAddr::V4(v4) => v4.is_unspecified_spec(),
            IpAddr::V6(v6) => v6.is_unspecified_spec(),
        }
    }

    /// The all-zero address of the family of `self`.
    pub open spec fn unspecified_like_spec(self) -> IpAddr {
        match self {
            IpAddr::V4(_) => IpAddr::V4(Ipv4Addr::unspecified_spec()),
            IpAddr::V6(_) => IpAddr::V6(Ipv6Addr::unspecified_spec()),
        }
    }

    /// The IP version number of the address's family: 4 or 6.
    pub open spec fn version_spec(self) -> u8 {
        match self {
            IpAddr::V4(_) => 4,
            IpAddr::V6(_) => 6,
        }
    }

    /// The octets of the address, in network order: 4 or 16 of them.
    pub open spec fn octets_spec(self) -> Seq<u8> {
        match self {
            IpAddr::V4(v4) => v4.octets_spec(),
            IpAddr::V6(v6) => v6.octets_spec(),
        }
    }

    /// Whether this is the all-zero address of its family.
    pub fn is_unspecified(&self) -> (r: bool)
        ensures
            r == self.is_unspecified_spec(),
            r == (*self == self.unspecified_like_spec()),
    {
        match self {
            IpAddr::V4(v4) => v4.is_unspecified(),
            IpAddr::V6(v6) => v6.is_unspecified(),
        }
    }

    /// The all-zero address of this address's family.
    pub fn unspecified_like(&self) -> (r: IpAddr)
        ensures
            r == self.unspecified_like_spec(),
            r.is_unspecified_spec(),
            r.version_spec() == self.version_spec(),
    {
        match self {
            IpAddr::V4(_) => IpAddr::V4(Ipv4Addr::unspecified()),
            IpAddr::V6(_) => IpAddr::V6(Ipv6Addr::unspecified()),
        }
    }

    /// The IP version number of the address's family: 4 or 6.
    pub fn version(&self) -> (r: u8)
        ensures
            r == self.version_spec(),
    {
        match self {
            IpAddr::V4(_) => 4,
            IpAddr::V6(_) => 6,
        }
    }
}

} // verus!
