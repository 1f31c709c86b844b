use webrtc_proxy::address::{unspecified_address, SocketAddress};
use webrtc_proxy::url::EnaiaUrl;

#[test]
fn the_family_of_an_address() {
    assert!(SocketAddress::V4 { octets: [127, 0, 0, 1], port: 9999 }.is_ipv4());
    let v6 = SocketAddress::V6 { segments: [0, 0, 0, 0, 0, 0, 0, 1], port: 80, flowinfo: 0, scope_id: 0 };
    assert!(!v6.is_ipv4());
}

#[test]
fn the_wildcard_of_ipv4() {
    match unspecified_address(SocketAddress::V4 { octets: [93, 184, 216, 34], port: 80 }) {
        SocketAddress::V4 { octets, port } => {
            assert_eq!(octets, [0, 0, 0, 0]);
            assert_eq!(port, 0);
        }
        other => panic!("{:?}", other),
    }
}

#[test]
fn the_wildcard_of_ipv6() {
    let target =
        SocketAddress::V6 { segments: [0x2001, 0xdb8, 0, 0, 0, 0, 0, 1], port: 443, flowinfo: 7, scope_id: 3 };
    match unspecified_address(target) {
        SocketAddress::V6 { segments, port, flowinfo, scope_id } => {
            assert_eq!(segments, [0; 8]);
            assert_eq!(port, 0);
            assert_eq!(flowinfo, 0);
            assert_eq!(scope_id, 0);
        }
        other => panic!("{:?}", other),
    }
}

#[test]
fn a_url_from_text() {
    let url = EnaiaUrl::from("http://127.0.0.1:14191");
    assert_eq!(url.0, "http://127.0.0.1:14191");
    let owned = EnaiaUrl::from(String::from("http://127.0.0.1:14191"));
    assert_eq!(url, owned);
}

#[test]
fn urls_with_the_same_text_are_the_same() {
    let a = EnaiaUrl::from("http://relay:14191");
    let b = EnaiaUrl::from("http://relay:14191");
    let c = EnaiaUrl::from("http://relay:14192");
    assert!(a.same(&b));
    assert!(a.same_host(&b));
    assert!(!a.same(&c));
    assert!(!a.same_host(&c));
    assert!(a.same(&a.clone()));
}

#[test]
fn no_url_is_a_broadcast() {
    assert!(!EnaiaUrl::from("http://255.255.255.255").is_broadcast());
    assert!(!EnaiaUrl::from("").is_broadcast());
}
