use winroute::IpAddr;
use winroute::Ipv4Addr;
use winroute::Ipv6Addr;
use winroute::Route;

fn v4(a: u8, b: u8, c: u8, d: u8) -> IpAddr {
    IpAddr::V4(Ipv4Addr::new(a, b, c, d))
}

fn v6(s: [u16; 8]) -> IpAddr {
    IpAddr::V6(Ipv6Addr::new(s[0], s[1], s[2], s[3], s[4], s[5], s[6], s[7]))
}

#[test]
fn testv4() {
    let route = Route::new(v4(192, 168, 1, 0), 32)
        .destination(v4(192, 168, 0, 0))
        .prefix(24)
        .gateway(v4(172, 1, 1, 254))
        .ifindex(1)
        .luid(123456)
        .metric(1);
    assert_eq!(
        "192.168.0.0/24 gateway 172.1.1.254 metric set to 1",
        route.to_text()
    );
    assert_eq!(4, route.version());

    let route = Route::new(v4(192, 168, 1, 0), 32);
    assert_eq!(
        "192.168.1.0/32 gateway 0.0.0.0 metric unset",
        route.to_text()
    );
}

#[test]
fn testv6() {
    let route = Route::new(v6([0xfe80, 0x9464, 0, 0, 0, 0, 0, 0]), 32);
    assert_eq!("fe80:9464::/32 gateway :: metric unset", route.to_text());
    assert_eq!(6, route.version());
}

#[test]
fn new_route_has_unspecified_gateway_and_nothing_set() {
    let r = Route::new(v4(10, 1, 2, 3), 8);
    assert_eq!(r.destination, v4(10, 1, 2, 3));
    assert_eq!(r.prefix, 8);
    assert_eq!(r.gateway, v4(0, 0, 0, 0));
    assert_eq!(r.ifindex, None);
    assert_eq!(r.metric, None);
    assert_eq!(r.luid, None);

    let r = Route::new(v6([0x2001, 0xdb8, 0, 0, 0, 0, 0, 1]), 128);
    assert_eq!(r.gateway, v6([0; 8]));
    assert!(r.gateway.is_unspecified());
    assert_eq!(r.ifindex, None);
    assert_eq!(r.metric, None);
    assert_eq!(r.luid, None);
}

#[test]
fn setters_change_one_field_each() {
    let base = Route::new(v4(192, 168, 1, 0), 32);
    assert_eq!(base.prefix(24), Route { prefix: 24, ..base });
    assert_eq!(
        base.gateway(v4(172, 1, 1, 254)),
        Route { gateway: v4(172, 1, 1, 254), ..base }
    );
    assert_eq!(base.ifindex(7), Route { ifindex: Some(7), ..base });
    assert_eq!(base.metric(9), Route { metric: Some(9), ..base });
    assert_eq!(base.luid(11), Route { luid: Some(11), ..base });
    let moved = base.destination(v6([1, 2, 3, 4, 5, 6, 7, 8]));
    assert_eq!(moved.destination, v6([1, 2, 3, 4, 5, 6, 7, 8]));
    assert_eq!(moved.version(), 6);
    assert_eq!(moved.gateway, v4(0, 0, 0, 0));
}

#[test]
fn rendering_follows_the_contract() {
    let route = Route::new(v4(192, 168, 1, 0), 32);
    assert_eq!(route.to_text(), "192.168.1.0/32 gateway 0.0.0.0 metric unset");
    let route = route.prefix(24).gateway(v4(172, 1, 1, 254)).metric(1);
    assert_eq!(
        route.to_text(),
        "192.168.1.0/24 gateway 172.1.1.254 metric set to 1"
    );
    let route = Route::new(v6([0xfe80, 0x9464, 0, 0, 0, 0, 0, 0]), 32);
    assert_eq!(route.to_text(), "fe80:9464::/32 gateway :: metric unset");
}

#[test]
fn metric_is_rendered_in_full() {
    let route = Route::new(v4(0, 0, 0, 0), 0).metric(4294967295);
    assert_eq!(
        route.to_text(),
        "0.0.0.0/0 gateway 0.0.0.0 metric set to 4294967295"
    );
    let route = Route::new(v4(255, 255, 255, 255), 255).metric(0);
    assert_eq!(
        route.to_text(),
        "255.255.255.255/255 gateway 0.0.0.0 metric set to 0"
    );
}

#[test]
fn ipv4_text_is_dotted_decimal() {
    assert_eq!(Ipv4Addr::new(0, 0, 0, 0).to_text(), "0.0.0.0");
    assert_eq!(Ipv4Addr::new(1, 20, 100, 255).to_text(), "1.20.100.255");
    assert_eq!(Ipv4Addr::new(10, 0, 9, 99).to_text(), "10.0.9.99");
}

#[test]
fn ipv6_text_compresses_the_longest_zero_run() {
    let text = |s: [u16; 8]| v6(s).to_text();
    assert_eq!(text([0; 8]), "::");
    assert_eq!(text([0, 0, 0, 0, 0, 0, 0, 1]), "::1");
    assert_eq!(text([1, 0, 0, 0, 0, 0, 0, 0]), "1::");
    assert_eq!(text([0x2001, 0xdb8, 0, 0, 0, 0, 0, 1]), "2001:db8::1");
    assert_eq!(text([1, 0, 2, 3, 4, 5, 6, 7]), "1:0:2:3:4:5:6:7");
    assert_eq!(text([1, 0, 0, 2, 0, 0, 3, 4]), "1::2:0:0:3:4");
    assert_eq!(text([1, 0, 0, 2, 0, 0, 0, 4]), "1:0:0:2::4");
    assert_eq!(
        text([0xffff, 0xabcd, 0x10, 0x100, 0x1000, 0xf, 0xa0, 0xb00]),
        "ffff:abcd:10:100:1000:f:a0:b00"
    );
    assert_eq!(text([1, 2, 3, 4, 5, 6, 0, 0]), "1:2:3:4:5:6::");
    assert_eq!(text([0, 0, 1, 2, 3, 4, 5, 6]), "::1:2:3:4:5:6");
}

#[test]
fn ipv4_mapped_address_shows_its_octets() {
    assert_eq!(
        v6([0, 0, 0, 0, 0, 0xffff, 0xc0a8, 0x0101]).to_text(),
        "::ffff:192.168.1.1"
    );
    assert_eq!(v6([0, 0, 0, 0, 0, 0xffff, 0, 0]).to_text(), "::ffff:0.0.0.0");
}

#[test]
fn octets_and_segments_agree() {
    let a = Ipv6Addr::new(0xfe80, 0x9464, 0, 0, 0, 0, 0x12, 0xff01);
    let octets = a.octets();
    assert_eq!(
        octets,
        [0xfe, 0x80, 0x94, 0x64, 0, 0, 0, 0, 0, 0, 0, 0, 0, 0x12, 0xff, 0x01]
    );
    assert_eq!(Ipv6Addr::from_octets(octets), a);
    assert_eq!(a.segments(), [0xfe80, 0x9464, 0, 0, 0, 0, 0x12, 0xff01]);
    let b = Ipv4Addr::from_octets([172, 1, 1, 254]);
    assert_eq!(b, Ipv4Addr::new(172, 1, 1, 254));
    assert_eq!(b.octets(), [172, 1, 1, 254]);
}

#[test]
fn unspecified_addresses() {
    assert!(Ipv4Addr::unspecified().is_unspecified());
    assert!(Ipv6Addr::unspecified().is_unspecified());
    assert!(!Ipv4Addr::new(0, 0, 0, 1).is_unspecified());
    assert!(!Ipv6Addr::new(0, 0, 0, 0, 0, 0, 0, 1).is_unspecified());
    assert_eq!(v4(1, 2, 3, 4).unspecified_like(), v4(0, 0, 0, 0));
    assert_eq!(v6([1; 8]).unspecified_like(), v6([0; 8]));
    assert_eq!(v4(1, 2, 3, 4).version(), 4);
    assert_eq!(v6([1; 8]).version(), 6);
}

#[test]
fn default_route_needs_zero_destination_zero_prefix_and_a_gateway() {
    let gw = v4(192, 168, 1, 1);
    assert!(Route::new(v4(0, 0, 0, 0), 0).gateway(gw).is_default());
    assert!(!Route::new(v4(0, 0, 0, 0), 0).is_default());
    assert!(!Route::new(v4(0, 0, 0, 0), 1).gateway(gw).is_default());
    assert!(!Route::new(v4(10, 0, 0, 0), 0).gateway(gw).is_default());
    assert!(Route::new(v6([0; 8]), 0)
        .gateway(v6([0xfe80, 0, 0, 0, 0, 0, 0, 1]))
        .is_default());
    assert!(!Route::new(v6([0; 8]), 0).gateway(v4(0, 0, 0, 0)).is_default());
}

#[test]
fn same_target_compares_destination_and_prefix() {
    let a = Route::new(v4(10, 0, 0, 0), 8).metric(1);
    let b = Route::new(v4(10, 0, 0, 0), 8).gateway(v4(10, 0, 0, 1));
    assert!(a.same_target(&b));
    assert!(!a.same_target(&b.prefix(9)));
    assert!(!a.same_target(&b.destination(v4(10, 0, 0, 1))));
}
