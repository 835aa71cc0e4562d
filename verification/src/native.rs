//! The operating system's native route row, and the conversion between it
//! and [`Route`].
//!
//! An address in a row is a family tag and sixteen octets of storage: an IPv4
//! address fills the first four and leaves the rest zero, an IPv6 address
//! fills all of them.

use crate::addr::segment_of;
use crate::addr::IpAddr;
use crate::addr::Ipv4Addr;
use crate::addr::Ipv6Addr;
use crate::route::Route;
use vstd::prelude::*;

verus! {

/// The family tag of an IPv4 address.
pub const AF_INET: u16 = 2;

/// The family tag of an IPv6 address.
pub const AF_INET6: u16 = 23;

/// The origin tag of an entry that network management put into the table.
pub const MIB_IPPROTO_NETMGMT: i32 = 3;

/// An address as a native row holds it.
#[derive(Clone, Copy, Debug, PartialEq, Eq)]
pub struct SockAddr {
    pub family: u16,
    pub data: [u8; 16],
}

/// A native route row, reduced to the fields that routes are made of.
#[derive(Clone, Copy, Debug, PartialEq, Eq)]
pub struct NativeRow {
    pub destination: SockAddr,
    pub prefix_length: u8,
    pub next_hop: SockAddr,
    pub interface_index: u32,
    pub interface_luid: u64,
    pub metric: u32,
    pub protocol: i32,
}

/// The family tag of an address.
pub open spec fn family_of(ip: IpAddr) -> u16 {
    match ip {
        IpAddr::V4(_) => AF_INET,
        IpAddr::V6(_) => AF_INET6,
    }
}

/// The sixteen octets of storage that hold `octets`: `octets` first, then
/// zeros.
pub open spec fn padded_octets(octets: Seq<u8>) -> Seq<u8> {
    Seq::new(
        16,
        |i: int|
            if i < octets.len() {
                octets[i]
            } else {
                0u8
            },
    )
}

impl SockAddr {
    /// True iff the family tag is that of IPv4 or of IPv6.
    pub open spec fn has_known_family_spec(self) -> bool {
        self.family == AF_INET || self.family == AF_INET6
    }

    /// The address that the storage holds, read by the family tag.
    pub open spec fn addr_spec(self) -> IpAddr
        recommends
            self.has_known_family_spec(),
    {
        let d = self.data@;
        if self.family == AF_INET {
            IpAddr::V4(Ipv4Addr { a: d[0], b: d[1], c: d[2], d: d[3] })
        } else {
            IpAddr::V6(
                Ipv6Addr {
                    s0: segment_of(d[0], d[1]),
                    s1: segment_of(d[2], d[3]),
                    s2: segment_of(d[4], d[5]),
                    s3: segment_of(d[6], d[7]),
                    s4: segment_of(d[8], d[9]),
                    s5: segment_of(d[10], d[11]),
                    s6: segment_of(d[12], d[13]),
                    s7: segment_of(d[14], d[15]),
                },
            )
        }
    }

    /// True iff `self` is the native form of `ip`.
    pub open spec fn encodes(self, ip: IpAddr) -> bool {
        self.family == family_of(ip) && self.data@ == padded_octets(ip.octets_spec())
    }

    /// The native form of `ip`.
    pub fn from_ip(ip: &IpAddr) -> (r: SockAddr)
        ensures
            r.encodes(*ip),
    {
        match ip {
            IpAddr::V4(v4) => {
                let data: [u8; 16] = [v4.a, v4.b, v4.c, v4.d, 0, 0, 0, 0, 0, 0, 0, 0, 0, 0, 0, 0];
                assert(data@ =~= padded_octets(ip.octets_spec()));
                SockAddr { family: AF_INET, data }
            },
            IpAddr::V6(v6) => {
                let data: [u8; 16] = v6.octets();
                assert(data@ =~= padded_octets(ip.octets_spec()));
                SockAddr { family: AF_INET6, data }
            },
        }
    }

    /// Whether the family tag is that of IPv4 or of IPv6.
    pub fn has_known_family(&self) -> (r: bool)
        ensures
            r == self.has_known_family_spec(),
    {
        self.family == AF_INET || self.family == AF_INET6
    }

    /// The address that the storage holds. Only the two known families have
    /// one.
    pub fn to_ip(&self) -> (ip: IpAddr)
        requires
            self.has_known_family_spec(),
        ensures
            ip == self.addr_spec(),
    {
        if self.family == AF_INET {
            IpAddr::V4(Ipv4Addr::new(self.data[0], self.data[1], self.data[2], self.data[3]))
        } else {
            let v6 = Ipv6Addr::from_octets(self.data);
            proof {
                let d = self.data@;
                let want = self.addr_spec()->V6_0;
                assert(want.octets_spec() =~= d);
                crate::addr::lemma_v6_octets_injective(v6, want);
            }
            IpAddr::V6(v6)
        }
    }
}

/// Reading the native form of an address gives the address back.
pub proof fn lemma_addr_round_trip(ip: IpAddr, native: SockAddr)
    requires
        native.encodes(ip),
    ensures
        native.has_known_family_spec(),
        native.addr_spec() == ip,
{
    let d = native.data@;
    let p = padded_octets(ip.octets_spec());
    assert(d == p);
    match ip {
        IpAddr::V4(v4) => {
            assert(d[0] == v4.a && d[1] == v4.b && d[2] == v4.c && d[3] == v4.d);
        },
        IpAddr::V6(v6) => {
            assert(d[0] == p[0] && d[1] == p[1] && d[2] == p[2] && d[3] == p[3]);
            assert(d[4] == p[4] && d[5] == p[5] && d[6] == p[6] && d[7] == p[7]);
            assert(d[8] == p[8] && d[9] == p[9] && d[10] == p[10] && d[11] == p[11]);
            assert(d[12] == p[12] && d[13] == p[13] && d[14] == p[14] && d[15] == p[15]);
            crate::addr::lemma_segment_bytes(v6.s0);
            crate::addr::lemma_segment_bytes(v6.s1);
            crate::addr::lemma_segment_bytes(v6.s2);
            crate::addr::lemma_segment_bytes(v6.s3);
            crate::addr::lemma_segment_bytes(v6.s4);
            crate::addr::lemma_segment_bytes(v6.s5);
            crate::addr::lemma_segment_bytes(v6.s6);
            crate::addr::lemma_segment_bytes(v6.s7);
        },
    }
}

/// The value of an optional field in a native row: zero where it is unset.
pub open spec fn or_zero_u32(v: Option<u32>) -> u32 {
    match v {
        Some(x) => x,
        None => 0,
    }
}

/// The value of an optional identifier in a native row: zero where it is
/// unset.
pub open spec fn or_zero_u64(v: Option<u64>) -> u64 {
    match v {
        Some(x) => x,
        None => 0,
    }
}

impl NativeRow {
    /// True iff both addresses of the row have a known family, so that the
    /// row stands for a route.
    pub open spec fn is_decodable_spec(self) -> bool {
        self.destination.has_known_family_spec() && self.next_hop.has_known_family_spec()
    }

    /// The route that the row stands for. Index, identifier and metric of a
    /// row are always present, so they come out set.
    pub open spec fn route_spec(self) -> Route
        recommends
            self.is_decodable_spec(),
    {
        Route {
            destination: self.destination.addr_spec(),
            prefix: self.prefix_length,
            gateway: self.next_hop.addr_spec(),
            ifindex: Some(self.interface_index),
            metric: Some(self.metric),
            luid: Some(self.interface_luid),
        }
    }

    /// True iff `self` is the native form of `route`: both addresses in
    /// native form under their own family tags, the prefix copied, index,
    /// identifier and metric copied where set and zero otherwise, and the
    /// origin tag that of network management.
    pub open spec fn encodes(self, route: Route) -> bool {
        &&& self.destination.encodes(route.destination)
        &&& self.prefix_length == route.prefix
        &&& self.next_hop.encodes(route.gateway)
        &&& self.interface_index == or_zero_u32(route.ifindex)
        &&& self.interface_luid == or_zero_u64(route.luid)
        &&& self.metric == or_zero_u32(route.metric)
        &&& self.protocol == MIB_IPPROTO_NETMGMT
    }

    /// Whether the row stands for a route: both its addresses are IPv4 or
    /// IPv6.
    pub fn is_decodable(&self) -> (r: bool)
        ensures
            r == self.is_decodable_spec(),
    {
        self.destination.has_known_family() && self.next_hop.has_known_family()
    }

    /// The native form of `route`.
    pub fn from_route(route: &Route) -> (row: NativeRow)
        ensures
            row.encodes(*route),
    {
        let interface_index: u32 = match route.ifindex {
            Some(idx) => idx,
            None => 0,
        };
        let interface_luid: u64 = match route.luid {
            Some(luid) => luid,
            None => 0,
        };
        let metric: u32 = match route.metric {
            Some(metric) => metric,
            None => 0,
        };
        NativeRow {
            destination: SockAddr::from_ip(&route.destination),
            prefix_length: route.prefix,
            next_hop: SockAddr::from_ip(&route.gateway),
            interface_index,
            interface_luid,
            metric,
            protocol: MIB_IPPROTO_NETMGMT,
        }
    }
}

impl Route {
    /// The route with index, identifier and metric as a native row reports
    /// them: zero where they were unset.
    pub open spec fn with_native_defaults(self) -> Route {
        Route {
            ifindex: Some(or_zero_u32(self.ifindex)),
            metric: Some(or_zero_u32(self.metric)),
            luid: Some(or_zero_u64(self.luid)),
            ..self
        }
    }

    /// The route that a native row stands for. A row with an address of a
    /// family other than IPv4 and IPv6 stands for none.
    pub fn from_row(row: &NativeRow) -> (route: Route)
        requires
            row.is_decodable_spec(),
        ensures
            route == row.route_spec(),
    {
        let destination = row.destination.to_ip();
        let gateway = row.next_hop.to_ip();
        Route::new(destination, row.prefix_length).ifindex(row.interface_index).luid(
            row.interface_luid,
        ).metric(row.metric).gateway(gateway)
    }

    /// The route that a native row stands for, or `None` for a row with an
    /// address of a family other than IPv4 and IPv6.
    pub fn try_from_row(row: &NativeRow) -> (route: Option<Route>)
        ensures
            route == (if row.is_decodable_spec() {
                Some(row.route_spec())
            } else {
                None
            }),
    {
        if row.is_decodable() {
            Some(Route::from_row(row))
        } else {
            None
        }
    }
}

/// The native form of any route stands for a route, which is the one encoded
/// with index, identifier and metric set, to zero where they were unset.
pub proof fn lemma_row_decodes_encoded(route: Route, row: NativeRow)
    requires
        row.encodes(route),
    ensures
        row.is_decodable_spec(),
        row.route_spec() == route.with_native_defaults(),
{
    lemma_addr_round_trip(route.destination, row.destination);
    lemma_addr_round_trip(route.gateway, row.next_hop);
}

/// Round trip: a route with index, identifier and metric set, of either
/// family, comes back from its native form unchanged: destination, prefix,
/// gateway, index, metric and identifier are all preserved.
pub proof fn lemma_row_round_trip(route: Route, row: NativeRow)
    requires
        row.encodes(route),
        route.ifindex is Some,
        route.metric is Some,
        route.luid is Some,
    ensures
        row.is_decodable_spec(),
        row.route_spec() == route,
        row.route_spec().destination == route.destination,
        row.route_spec().prefix == route.prefix,
        row.route_spec().gateway == route.gateway,
{
    lemma_row_decodes_encoded(route, row);
}

} // verus!
