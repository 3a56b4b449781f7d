use tun_forward::endpoint::{Endpoint, IpAddress};

#[test]
fn v4_address_spells_its_bytes_in_network_order() {
    assert_eq!(IpAddress::v4(10, 10, 10, 2), IpAddress::V4(0x0A0A_0A02));
    assert_eq!(IpAddress::v4(93, 184, 216, 34), IpAddress::V4(0x5DB8_D822));
    assert_eq!(IpAddress::v4(0, 0, 0, 0), IpAddress::V4(0));
    assert_eq!(IpAddress::v4(255, 255, 255, 255), IpAddress::V4(u32::MAX));
    assert_eq!(IpAddress::v4(0, 0, 1, 0), IpAddress::V4(256));
}

#[test]
fn address_family_is_told_apart() {
    assert!(IpAddress::v4(8, 8, 8, 8).is_v4());
    assert!(IpAddress::V4(0).is_v4());
    assert!(!IpAddress::V6(1).is_v4());
    assert!(!IpAddress::V6(0x0A0A_0A02).is_v4());
}

#[test]
fn endpoint_holds_address_and_port() {
    let e = Endpoint::v4(10, 10, 10, 2, 40001);
    assert_eq!(e.addr, IpAddress::V4(0x0A0A_0A02));
    assert_eq!(e.port, 40001);
    assert_eq!(e, Endpoint { addr: IpAddress::v4(10, 10, 10, 2), port: 40001 });
}

#[test]
fn endpoints_differ_by_port_and_by_address() {
    let e = Endpoint::v4(8, 8, 8, 8, 53);
    assert_ne!(e, Endpoint::v4(8, 8, 8, 8, 54));
    assert_ne!(e, Endpoint::v4(8, 8, 4, 4, 53));
    assert_ne!(e, Endpoint { addr: IpAddress::V6(0x0808_0808), port: 53 });
}
