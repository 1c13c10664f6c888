use unibox_core::net::{any_private, is_allowed_remote_url, is_private_ip, IpAddress, RemoteCheck, RemoteUrl};
use unibox_core::{native, wsl};

fn url(text: &str) -> RemoteUrl {
    RemoteUrl::parse(text).unwrap()
}

#[test]
fn private_ipv4_ranges_are_recognised() {
    for octets in [
        [10, 1, 2, 3],
        [172, 16, 0, 1],
        [172, 31, 255, 255],
        [192, 168, 1, 1],
        [127, 0, 0, 1],
        [169, 254, 3, 4],
        [0, 0, 0, 0],
    ] {
        assert!(is_private_ip(IpAddress::V4(octets)), "{octets:?}");
    }
    for octets in [[8, 8, 8, 8], [172, 15, 0, 1], [172, 32, 0, 1], [192, 169, 0, 1], [1, 1, 1, 1], [0, 0, 0, 1]] {
        assert!(!is_private_ip(IpAddress::V4(octets)), "{octets:?}");
    }
}

#[test]
fn private_ipv6_ranges_are_recognised() {
    for segments in [
        [0, 0, 0, 0, 0, 0, 0, 1],
        [0, 0, 0, 0, 0, 0, 0, 0],
        [0xfc00, 0, 0, 0, 0, 0, 0, 1],
        [0xfdff, 1, 2, 3, 4, 5, 6, 7],
        [0xfe80, 0, 0, 0, 0, 0, 0, 1],
        [0xfebf, 0, 0, 0, 0, 0, 0, 1],
        [0, 0, 0, 0, 0, 0xffff, 0x7f00, 0x0001],
        [0, 0, 0, 0, 0, 0xffff, 0x0a00, 0x0001],
        [0, 0, 0, 0, 0, 0xffff, 0xa9fe, 0x0101],
        [0, 0, 0, 0, 0, 0xffff, 0xc0a8, 0x0001],
    ] {
        assert!(is_private_ip(IpAddress::V6(segments)), "{segments:?}");
    }
    for segments in [
        [0x2001, 0x4860, 0x4860, 0, 0, 0, 0, 0x8888],
        [0xfec0, 0, 0, 0, 0, 0, 0, 1],
        [0xfbff, 0, 0, 0, 0, 0, 0, 1],
        [0, 0, 0, 0, 0, 0, 0, 2],
        [0, 0, 0, 0, 0, 0xffff, 0x0808, 0x0808],
        [0, 0, 0, 0, 0, 0xfffe, 0x7f00, 0x0001],
    ] {
        assert!(!is_private_ip(IpAddress::V6(segments)), "{segments:?}");
    }
}

#[test]
fn any_private_finds_one_private_address() {
    assert!(!any_private(&vec![]));
    assert!(!any_private(&vec![IpAddress::V4([8, 8, 8, 8]), IpAddress::V4([1, 1, 1, 1])]));
    assert!(any_private(&vec![IpAddress::V4([8, 8, 8, 8]), IpAddress::V4([10, 0, 0, 1])]));
}

#[test]
fn parsed_url_exposes_its_parts() {
    let u = url("https://Example.COM:8443/a/b?x=1");
    assert_eq!(u.href(), "https://example.com:8443/a/b?x=1");
    assert_eq!(u.scheme(), "https");
    assert_eq!(u.host(), Some("example.com"));
    assert_eq!(u.port(), Some(8443));
    assert!(u.ip().is_none());

    let d = url("https://example.com");
    assert_eq!(d.href(), "https://example.com/");
    assert_eq!(d.port(), Some(443));

    let v6 = url("https://[::1]/test");
    assert_eq!(v6.host(), Some("[::1]"));
    assert!(matches!(v6.ip(), Some(IpAddress::V6([0, 0, 0, 0, 0, 0, 0, 1]))));

    let v4 = url("https://8.8.4.4/");
    assert!(matches!(v4.ip(), Some(IpAddress::V4([8, 8, 4, 4]))));

    assert!(RemoteUrl::parse("not a url").is_none());
    assert!(RemoteUrl::parse("/relative/path").is_none());
}

#[test]
fn join_resolves_relative_and_absolute_references() {
    let base = url("https://example.com/a/b");
    assert_eq!(base.join("c").unwrap().href(), "https://example.com/a/c");
    assert_eq!(base.join("/root").unwrap().href(), "https://example.com/root");
    assert_eq!(base.join("https://other.org/x").unwrap().href(), "https://other.org/x");
    assert!(base.join("https://[::1").is_none());
}

#[test]
fn query_pair_is_form_encoded() {
    let base = url("http://127.0.0.1:29317/_matrix/provision/v3/login");
    let with = base.with_query_pair("user_id", "@unibox:unibox.local");
    assert_eq!(
        with.href(),
        "http://127.0.0.1:29317/_matrix/provision/v3/login?user_id=%40unibox%3Aunibox.local"
    );
    assert_ne!(with.href(), base.href());
}

#[test]
fn remote_url_policy_refuses_local_names_in_any_case() {
    for value in [
        "https://LOCALHOST/x",
        "https://LocalHost:8443/",
        "https://printer.local/",
        "https://192.168.0.10/",
        "https://[fe80::1]/",
        "https://0.0.0.0/",
        "https://[::ffff:127.0.0.1]/",
        "https://[::ffff:10.0.0.1]/",
        "https://[::ffff:169.254.1.1]/",
        "ftp://example.com/",
    ] {
        assert!(!is_allowed_remote_url(&url(value)), "{value}");
    }
    for value in ["https://localhost.example.com/", "https://[2001:4860:4860::8888]/", "https://1.1.1.1:8443/"] {
        assert!(is_allowed_remote_url(&url(value)), "{value}");
    }
}

#[test]
fn wsl_remote_check_accepts_ipv4_and_resolves_names() {
    assert!(matches!(wsl::ensure_public_remote_url(&url("https://8.8.8.8/")), RemoteCheck::Accept));
    match wsl::ensure_public_remote_url(&url("https://example.com/")) {
        RemoteCheck::Resolve { host, port } => {
            assert_eq!(host, "example.com");
            assert_eq!(port, 443);
        }
        _ => panic!("expected a resolution"),
    }
    match wsl::ensure_public_remote_url(&url("https://[2001:db8::1]:9443/")) {
        RemoteCheck::Resolve { host, port } => {
            assert_eq!(host, "[2001:db8::1]");
            assert_eq!(port, 9443);
        }
        _ => panic!("expected a resolution"),
    }
    match wsl::ensure_public_remote_url(&url("http://example.com/")) {
        RemoteCheck::Reject(m) => assert_eq!(m, "connector client HTTP only permits public HTTPS URLs"),
        _ => panic!("expected a refusal"),
    }
}

#[test]
fn native_remote_check_reports_each_refusal() {
    let reject = |value: &str| match native::ensure_public_remote_url(&url(value)) {
        RemoteCheck::Reject(m) => m,
        _ => panic!("expected a refusal for {value}"),
    };
    assert_eq!(reject("http://example.com/"), "connector client HTTP only permits public HTTPS URLs");
    assert_eq!(reject("https://Localhost/"), "connector client HTTP blocks local hosts");
    assert_eq!(reject("https://nas.local/"), "connector client HTTP blocks local hosts");
    assert_eq!(reject("https://10.1.1.1/"), "connector client HTTP blocks private or local addresses");
    assert_eq!(reject("https://[::1]/"), "connector client HTTP blocks private or local addresses");
    assert!(matches!(native::ensure_public_remote_url(&url("https://[2001:db8::1]/")), RemoteCheck::Accept));
    assert!(matches!(native::ensure_public_remote_url(&url("https://9.9.9.9/")), RemoteCheck::Accept));
    match native::ensure_public_remote_url(&url("https://matrix.org:8448/")) {
        RemoteCheck::Resolve { host, port } => {
            assert_eq!(host, "matrix.org");
            assert_eq!(port, 8448);
        }
        _ => panic!("expected a resolution"),
    }
}

#[test]
fn resolved_addresses_must_be_public_and_present() {
    let public = vec![IpAddress::V4([93, 184, 216, 34])];
    let mixed = vec![IpAddress::V4([93, 184, 216, 34]), IpAddress::V6([0, 0, 0, 0, 0, 0, 0, 1])];
    assert!(wsl::check_resolved_addresses(&public).is_ok());
    assert_eq!(wsl::check_resolved_addresses(&vec![]).unwrap_err(), "connector HTTP host did not resolve");
    assert_eq!(
        wsl::check_resolved_addresses(&mixed).unwrap_err(),
        "connector client HTTP host resolves to a private or local address"
    );
    assert!(native::check_resolved_addresses(&public).is_ok());
    for list in [vec![], mixed] {
        assert_eq!(
            native::check_resolved_addresses(&list).unwrap_err(),
            "connector client HTTP host resolves to a private/local or empty address set"
        );
    }
}
