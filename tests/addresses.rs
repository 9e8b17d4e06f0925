use eclipse_api::dns::{filter_global, ResolveError};
use eclipse_api::ip::{ipv4_is_global, ipv6_is_global, IpAddress};

#[test]
fn ipv4_special_ranges_are_not_global() {
    let blocked: [[u8; 4]; 17] = [
        [0, 0, 0, 0],
        [0, 1, 2, 3],
        [10, 0, 0, 1],
        [172, 16, 0, 1],
        [172, 31, 255, 255],
        [192, 168, 1, 1],
        [100, 64, 0, 1],
        [127, 0, 0, 1],
        [169, 254, 169, 254],
        [192, 0, 0, 8],
        [192, 0, 2, 1],
        [198, 51, 100, 7],
        [203, 0, 113, 9],
        [198, 18, 0, 1],
        [224, 0, 0, 1],
        [240, 0, 0, 1],
        [255, 255, 255, 255],
    ];
    for o in blocked.iter() {
        assert!(!ipv4_is_global(*o), "{:?} must not be global", o);
    }
}

#[test]
fn ipv4_public_addresses_are_global() {
    let public: [[u8; 4]; 7] = [
        [8, 8, 8, 8],
        [1, 1, 1, 1],
        [172, 32, 0, 1],
        [172, 15, 0, 1],
        [100, 128, 0, 1],
        [192, 0, 0, 9],
        [223, 255, 255, 255],
    ];
    for o in public.iter() {
        assert!(ipv4_is_global(*o), "{:?} must be global", o);
    }
}

#[test]
fn ipv6_special_ranges_are_not_global() {
    let blocked: [[u16; 8]; 12] = [
        [0, 0, 0, 0, 0, 0, 0, 0],
        [0, 0, 0, 0, 0, 0, 0, 1],
        [0, 0, 0, 0, 0, 0xffff, 0x7f00, 1],
        [0x64, 0xff9b, 1, 0, 0, 0, 0, 1],
        [0x100, 0, 0, 0, 0, 0, 0, 1],
        [0x2001, 0, 0, 0, 0, 0, 0, 1],
        [0x2001, 0xdb8, 0, 0, 0, 0, 0, 1],
        [0x3fff, 0, 0, 0, 0, 0, 0, 1],
        [0xfc00, 0, 0, 0, 0, 0, 0, 1],
        [0xfd12, 0x3456, 0, 0, 0, 0, 0, 1],
        [0xfe80, 0, 0, 0, 0, 0, 0, 1],
        [0xff02, 0, 0, 0, 0, 0, 0, 1],
    ];
    for s in blocked.iter() {
        assert!(!ipv6_is_global(*s), "{:x?} must not be global", s);
    }
}

#[test]
fn ipv6_public_addresses_are_global() {
    let public: [[u16; 8]; 6] = [
        [0x2001, 0x30, 0, 0, 0, 0, 0, 1],
        [0x2606, 0x4700, 0, 0, 0, 0, 0, 0x1111],
        [0x2001, 0x4860, 0x4860, 0, 0, 0, 0, 0x8888],
        [0x2001, 1, 0, 0, 0, 0, 0, 1],
        [0x2001, 0x20, 0, 0, 0, 0, 0, 1],
        [0x2a00, 0x1450, 0x4001, 0x80e, 0, 0, 0, 0x200e],
    ];
    for s in public.iter() {
        assert!(ipv6_is_global(*s), "{:x?} must be global", s);
    }
}

#[test]
fn address_is_global_follows_its_family() {
    assert!(IpAddress::V4([93, 184, 216, 34]).is_global());
    assert!(!IpAddress::V4([127, 0, 0, 1]).is_global());
    assert!(!IpAddress::V6([0, 0, 0, 0, 0, 0, 0, 1]).is_global());
}

#[test]
fn resolver_keeps_only_public_addresses_of_a_mixture() {
    let addrs = vec![
        IpAddress::V4([10, 0, 0, 5]),
        IpAddress::V4([93, 184, 216, 34]),
        IpAddress::V6([0, 0, 0, 0, 0, 0, 0, 1]),
        IpAddress::V4([127, 0, 0, 1]),
        IpAddress::V6([0x2606, 0x4700, 0, 0, 0, 0, 0, 0x1111]),
        IpAddress::V4([169, 254, 169, 254]),
    ];
    let kept = filter_global(&addrs).unwrap();
    assert_eq!(
        kept,
        vec![
            IpAddress::V4([93, 184, 216, 34]),
            IpAddress::V6([0x2606, 0x4700, 0, 0, 0, 0, 0, 0x1111]),
        ]
    );
}

#[test]
fn resolver_fails_when_only_private_addresses_remain() {
    let addrs = vec![
        IpAddress::V4([192, 168, 0, 1]),
        IpAddress::V6([0xfe80, 0, 0, 0, 0, 0, 0, 1]),
    ];
    assert_eq!(filter_global(&addrs), Err(ResolveError::NoRoutableAddress));
}

#[test]
fn resolver_fails_on_an_empty_lookup() {
    assert_eq!(filter_global(&Vec::new()), Err(ResolveError::NoRoutableAddress));
}
