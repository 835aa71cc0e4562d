use winroute::native::AF_INET;
use winroute::native::AF_INET6;
use winroute::native::MIB_IPPROTO_NETMGMT;
use winroute::IpAddr;
use winroute::Ipv4Addr;
use winroute::Ipv6Addr;
use winroute::NativeRow;
use winroute::Route;
use winroute::SockAddr;

fn ip4(a: u8, b: u8, c: u8, d: u8) -> IpAddr {
    IpAddr::V4(Ipv4Addr::new(a, b, c, d))
}

fn ip6(s: [u16; 8]) -> IpAddr {
    IpAddr::V6(Ipv6Addr::new(s[0], s[1], s[2], s[3], s[4], s[5], s[6], s[7]))
}

#[test]
fn cast_from_route() {
    let route = Route::new(ip4(192, 168, 1, 0), 24);
    let row = NativeRow::from_route(&route);
    assert_eq!(0, row.metric);
    assert_eq!(MIB_IPPROTO_NETMGMT, row.protocol);
    assert_eq!("192.168.1.0", route.destination.to_text());
}

#[test]
fn row_of_an_ipv4_route() {
    let route = Route::new(ip4(192, 168, 1, 0), 24)
        .gateway(ip4(172, 1, 1, 254))
        .ifindex(12)
        .luid(123456)
        .metric(5);
    let row = NativeRow::from_route(&route);
    assert_eq!(row.destination.family, AF_INET);
    assert_eq!(
        row.destination.data,
        [192, 168, 1, 0, 0, 0, 0, 0, 0, 0, 0, 0, 0, 0, 0, 0]
    );
    assert_eq!(row.prefix_length, 24);
    assert_eq!(row.next_hop.family, AF_INET);
    assert_eq!(
        row.next_hop.data,
        [172, 1, 1, 254, 0, 0, 0, 0, 0, 0, 0, 0, 0, 0, 0, 0]
    );
    assert_eq!(row.interface_index, 12);
    assert_eq!(row.interface_luid, 123456);
    assert_eq!(row.metric, 5);
    assert_eq!(row.protocol, 3);
}

#[test]
fn row_of_an_ipv6_route() {
    let route =
        Route::new(ip6([0xfe80, 0x9464, 0, 0, 0, 0, 0, 0]), 32).gateway(ip6([0xfe80, 0, 0, 0, 0, 0, 0, 1]));
    let row = NativeRow::from_route(&route);
    assert_eq!(row.destination.family, AF_INET6);
    assert_eq!(
        row.destination.data,
        [0xfe, 0x80, 0x94, 0x64, 0, 0, 0, 0, 0, 0, 0, 0, 0, 0, 0, 0]
    );
    assert_eq!(row.next_hop.family, AF_INET6);
    assert_eq!(
        row.next_hop.data,
        [0xfe, 0x80, 0, 0, 0, 0, 0, 0, 0, 0, 0, 0, 0, 0, 0, 1]
    );
    assert_eq!(row.interface_index, 0);
    assert_eq!(row.interface_luid, 0);
    assert_eq!(row.metric, 0);
}

#[test]
fn round_trip_keeps_a_fully_set_route() {
    let v4 = Route::new(ip4(192, 168, 0, 0), 24)
        .gateway(ip4(172, 1, 1, 254))
        .ifindex(1)
        .luid(123456)
        .metric(1);
    assert_eq!(Route::from_row(&NativeRow::from_route(&v4)), v4);
    let v6 = Route::new(ip6([0x2001, 0xdb8, 0xffff, 0x1, 0x80, 0x8000, 0x7fff, 0xff]), 64)
        .gateway(ip6([0xfe80, 0, 0, 0, 0xabcd, 0xef01, 0x2345, 0x6789]))
        .ifindex(4294967295)
        .luid(18446744073709551615)
        .metric(0);
    assert_eq!(Route::from_row(&NativeRow::from_route(&v6)), v6);
}

#[test]
fn round_trip_reports_unset_fields_as_zero() {
    let route = Route::new(ip4(192, 168, 1, 0), 24);
    let back = Route::from_row(&NativeRow::from_route(&route));
    assert_eq!(back.destination, route.destination);
    assert_eq!(back.prefix, route.prefix);
    assert_eq!(back.gateway, route.gateway);
    assert_eq!(back.ifindex, Some(0));
    assert_eq!(back.metric, Some(0));
    assert_eq!(back.luid, Some(0));
}

#[test]
fn unknown_family_stands_for_no_route() {
    let good = NativeRow::from_route(&Route::new(ip4(10, 0, 0, 0), 8));
    assert!(good.is_decodable());
    assert!(Route::try_from_row(&good).is_some());
    let mut bad = good;
    bad.destination.family = 0;
    assert!(!bad.is_decodable());
    assert_eq!(Route::try_from_row(&bad), None);
    let mut bad = good;
    bad.next_hop.family = 17;
    assert!(!bad.is_decodable());
    assert_eq!(Route::try_from_row(&bad), None);
}

#[test]
fn address_storage_is_read_by_family() {
    let data = [1, 2, 3, 4, 5, 6, 7, 8, 9, 10, 11, 12, 13, 14, 15, 16];
    let as_v4 = SockAddr { family: AF_INET, data };
    assert!(as_v4.has_known_family());
    assert_eq!(as_v4.to_ip(), ip4(1, 2, 3, 4));
    let as_v6 = SockAddr { family: AF_INET6, data };
    assert_eq!(
        as_v6.to_ip(),
        ip6([0x0102, 0x0304, 0x0506, 0x0708, 0x090a, 0x0b0c, 0x0d0e, 0x0f10])
    );
    assert_eq!(SockAddr::from_ip(&as_v6.to_ip()), as_v6);
    assert!(!SockAddr { family: 1, data }.has_known_family());
}
