//! One entry of a routing table.

use crate::addr::IpAddr;
use crate::text::decimal_text;
use crate::text::ip_text;
use crate::text::push_decimal;
use crate::text::push_ip;
use vstd::prelude::*;
use vstd::string::StringExecFns;

verus! {

/// One routing-table entry: where it leads, through which gateway and
/// interface, and at what cost.
#[derive(Clone, Copy, Debug, PartialEq, Eq, Hash, Structural)]
pub struct Route {
    /// Network address of the destination.
    pub destination: IpAddr,
    /// Length of the network mask of the destination.
    pub prefix: u8,
    /// The address of the next hop; the all-zero address means that none is set.
    pub gateway: IpAddr,
    /// The index of the network interface of this entry.
    pub ifindex: Option<u32>,
    /// The cost of this entry; lower is preferred.
    pub metric: Option<u32>,
    /// The locally unique identifier of the network interface of this entry.
    pub luid: Option<u64>,
}

/// How a metric is shown: `unset`, or `set to` and the number.
pub open spec fn metric_text(metric: Option<u32>) -> Seq<char> {
    match metric {
        Some(m) => "set to "@ + decimal_text(m as nat),
        None => "unset"@,
    }
}

impl Route {
    /// The route to `destination/prefix` with nothing else set.
    pub open spec fn new_spec(destination: IpAddr, prefix: u8) -> Route {
        Route {
            destination,
            prefix,
            gateway: destination.unspecified_like_spec(),
            ifindex: None,
            metric: None,
            luid: None,
        }
    }

    /// A default route: it matches every destination (all-zero address,
    /// prefix 0) and leads through a real gateway.
    pub open spec fn is_default_spec(self) -> bool {
        self.destination.is_unspecified_spec() && self.prefix == 0
            && !self.gateway.is_unspecified_spec()
    }

    /// Whether `self` and `other` lead to the same network: same destination
    /// and same prefix.
    pub open spec fn same_target_spec(self, other: Route) -> bool {
        self.destination == other.destination && self.prefix == other.prefix
    }

    /// The text form: destination, a slash, the prefix, ` gateway `, the
    /// gateway, ` metric ` and the metric.
    pub open spec fn text_spec(self) -> Seq<char> {
        ip_text(self.destination).push('/') + decimal_text(self.prefix as nat) + " gateway "@
            + ip_text(self.gateway) + " metric "@ + metric_text(self.metric)
    }

    /// Creates a route that matches a given destination network. The gateway
    /// is the all-zero address of the destination's family; interface index,
    /// metric and interface identifier are unset.
    pub fn new(destination: IpAddr, prefix: u8) -> (r: Self)
        ensures
            r == Self::new_spec(destination, prefix),
            r.destination == destination && r.prefix == prefix,
            r.gateway == destination.unspecified_like_spec(),
            r.gateway.is_unspecified_spec(),
            r.gateway.version_spec() == destination.version_spec(),
            r.ifindex is None && r.metric is None && r.luid is None,
    {
        Route {
            destination,
            prefix,
            gateway: destination.unspecified_like(),
            ifindex: None,
            metric: None,
            luid: None,
        }
    }

    /// The same route with another destination.
    pub fn destination(self, destination: IpAddr) -> (r: Self)
        ensures
            r == (Route { destination, ..self }),
    {
        Route { destination, ..self }
    }

    /// The same route with another prefix.
    pub fn prefix(self, prefix: u8) -> (r: Self)
        ensures
            r == (Route { prefix, ..self }),
    {
        Route { prefix, ..self }
    }

    /// The same route with another gateway.
    pub fn gateway(self, gateway: IpAddr) -> (r: Self)
        ensures
            r == (Route { gateway, ..self }),
    {
        Route { gateway, ..self }
    }

    /// The same route with the interface index set.
    pub fn ifindex(self, idx: u32) -> (r: Self)
        ensures
            r == (Route { ifindex: Some(idx), ..self }),
    {
        Route { ifindex: Some(idx), ..self }
    }

    /// The same route with the metric set.
    pub fn metric(self, metric: u32) -> (r: Self)
        ensures
            r == (Route { metric: Some(metric), ..self }),
    {
        Route { metric: Some(metric), ..self }
    }

    /// The same route with the interface identifier set.
    pub fn luid(self, luid: u64) -> (r: Self)
        ensures
            r == (Route { luid: Some(luid), ..self }),
    {
        Route { luid: Some(luid), ..self }
    }

    /// The IP version number of the route, that of its destination: 4 or 6.
    pub fn version(&self) -> (v: u8)
        ensures
            v == self.destination.version_spec(),
    {
        self.destination.version()
    }

    /// Whether this is a default route.
    pub fn is_default(&self) -> (r: bool)
        ensures
            r == self.is_default_spec(),
    {
        self.destination.is_unspecified() && self.prefix == 0 && !self.gateway.is_unspecified()
    }

    /// Whether `self` and `other` lead to the same network.
    pub fn same_target(&self, other: &Route) -> (r: bool)
        ensures
            r == self.same_target_spec(*other),
    {
        self.destination == other.destination && self.prefix == other.prefix
    }

    /// The route as text, such as `192.168.1.0/24 gateway 172.1.1.254 metric
    /// set to 1` or `fe80:9464::/32 gateway :: metric unset`.
    pub fn to_text(&self) -> (s: String)
        ensures
            s@ == self.text_spec(),
    {
        let mut s = self.destination.to_text();
        s.append("/");
        proof {
            reveal_strlit("/");
            assert("/"@ =~= seq!['/']);
        }
        push_decimal(&mut s, self.prefix as u32);
        s.append(" gateway ");
        push_ip(&mut s, &self.gateway);
        s.append(" metric ");
        match self.metric {
            Some(m) => {
                s.append("set to ");
                push_decimal(&mut s, m);
            },
            None => {
                s.append("unset");
            },
        }
        assert(s@ =~= self.text_spec());
        s
    }
}

} // verus!
