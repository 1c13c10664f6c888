//! Remote-URL policy for connector client HTTP: only public HTTPS targets
//! may be contacted, never loopback, private, link-local or `.local` hosts.

use vstd::prelude::*;

use crate::text::{ascii_lower, ends_with, has_suffix, owned, str_eq, to_ascii_lower};

verus! {

// ---------------------------------------------------------------------------
// IP addresses
// ---------------------------------------------------------------------------

/// An IP address as the octets of an IPv4 address or the segments of an
/// IPv6 address.
#[derive(Clone, Copy, Debug)]
pub enum IpAddress {
    V4([u8; 4]),
    V6([u16; 8]),
}

/// `Ipv4Addr::is_private || is_loopback || is_link_local || is_unspecified`.
pub open spec fn v4_is_private(o: Seq<u8>) -> bool {
    ||| o[0] == 10
    ||| (o[0] == 172 && 16 <= o[1] && o[1] <= 31)
    ||| (o[0] == 192 && o[1] == 168)
    ||| o[0] == 127
    ||| (o[0] == 169 && o[1] == 254)
    ||| (o[0] == 0 && o[1] == 0 && o[2] == 0 && o[3] == 0)
}

/// The first seven segments are zero.
pub open spec fn v6_high_zero(s: Seq<u16>) -> bool {
    s[0] == 0 && s[1] == 0 && s[2] == 0 && s[3] == 0 && s[4] == 0 && s[5] == 0 && s[6] == 0
}

/// The IPv4 address that an IPv4-mapped IPv6 address `::ffff:a.b.c.d`
/// stands for, as four octets.
pub open spec fn mapped_v4(s: Seq<u16>) -> Seq<u8> {
    seq![(s[6] / 256) as u8, (s[6] % 256) as u8, (s[7] / 256) as u8, (s[7] % 256) as u8]
}

/// An IPv4-mapped IPv6 address, `::ffff:0:0/96`.
pub open spec fn v6_is_mapped(s: Seq<u16>) -> bool {
    s[0] == 0 && s[1] == 0 && s[2] == 0 && s[3] == 0 && s[4] == 0 && s[5] == 0xffff
}

/// Loopback `::1`, unspecified `::`, unique local `fc00::/7`, link-local
/// `fe80::/10`, or an IPv4-mapped address whose IPv4 address is private.
pub open spec fn v6_is_private(s: Seq<u16>) -> bool {
    ||| (v6_high_zero(s) && s[7] == 1)
    ||| (v6_high_zero(s) && s[7] == 0)
    ||| (0xfc00 <= s[0] && s[0] <= 0xfdff)
    ||| (0xfe80 <= s[0] && s[0] <= 0xfebf)
    ||| (v6_is_mapped(s) && v4_is_private(mapped_v4(s)))
}

/// The address is private, loopback, link-local or unspecified.
pub open spec fn ip_is_private(ip: IpAddress) -> bool {
    match ip {
        IpAddress::V4(o) => v4_is_private(o@),
        IpAddress::V6(s) => v6_is_private(s@),
    }
}

fn is_private_v4(o: [u8; 4]) -> (r: bool)
    ensures
        r == v4_is_private(o@),
{
    let a = o[0];
    let b = o[1];
    a == 10 || (a == 172 && 16 <= b && b <= 31) || (a == 192 && b == 168) || a == 127 || (a == 169
        && b == 254) || (a == 0 && b == 0 && o[2] == 0 && o[3] == 0)
}

/// Whether an address must never be contacted by connector client HTTP.
pub fn is_private_ip(ip: IpAddress) -> (r: bool)
    ensures
        r == ip_is_private(ip),
{
    match ip {
        IpAddress::V4(o) => is_private_v4(o),
        IpAddress::V6(s) => {
            let first = s[0];
            let high_zero = s[0] == 0 && s[1] == 0 && s[2] == 0 && s[3] == 0 && s[4] == 0 && s[5]
                == 0 && s[6] == 0;
            let unique_local = (first & 0xfe00) == 0xfc00;
            let link_local = (first & 0xffc0) == 0xfe80;
            assert(((first & 0xfe00) == 0xfc00) == (0xfc00 <= first && first <= 0xfdff))
                by (bit_vector);
            assert(((first & 0xffc0) == 0xfe80) == (0xfe80 <= first && first <= 0xfebf))
                by (bit_vector);
            let mapped = s[0] == 0 && s[1] == 0 && s[2] == 0 && s[3] == 0 && s[4] == 0 && s[5]
                == 0xffff;
            let v4 = [(s[6] / 256) as u8, (s[6] % 256) as u8, (s[7] / 256) as u8, (s[7] % 256) as u8];
            proof {
                assert(v4@ =~= mapped_v4(s@));
            }
            let mapped_private = mapped && is_private_v4(v4);
            (high_zero && s[7] == 1) || (high_zero && s[7] == 0) || unique_local || link_local
                || mapped_private
        },
    }
}

/// The address list that a host name resolved to is safe to contact: it is
/// not empty and holds no private address.
pub open spec fn resolution_is_public(addrs: Seq<IpAddress>) -> bool {
    addrs.len() > 0 && forall|i: int| 0 <= i < addrs.len() ==> !ip_is_private(#[trigger] addrs[i])
}

/// Whether some address of the list is private.
pub fn any_private(addrs: &Vec<IpAddress>) -> (r: bool)
    ensures
        r == exists|i: int| 0 <= i < addrs@.len() && ip_is_private(#[trigger] addrs@[i]),
{
    let mut i: usize = 0;
    while i < addrs.len()
        invariant
            i <= addrs@.len(),
            forall|j: int| 0 <= j < i ==> !ip_is_private(#[trigger] addrs@[j]),
        decreases addrs.len() - i,
    {
        if is_private_ip(addrs[i]) {
            return true;
        }
        i += 1;
    }
    false
}

// ---------------------------------------------------------------------------
// URLs
// ---------------------------------------------------------------------------

/// The url crate's `Url` (re-exported by reqwest), carried opaquely beside
/// the plain parts that the policy reads.
#[verifier::external_type_specification]
#[verifier::external_body]
pub struct ExUrl(reqwest::Url);

/// A parsed absolute URL: its serialization, scheme, host (IPv6 hosts in
/// brackets), port (the scheme's default port when none is written) and,
/// when the host is an IP address, that address.
pub struct RemoteUrl {
    url: reqwest::Url,
    href: String,
    scheme: String,
    host: Option<String>,
    port: Option<u16>,
    ip: Option<IpAddress>,
}

/// The plain parts of a parsed URL: serialization, scheme, host, port and
/// the host's IP address when it is one.
pub type UrlParts = (Seq<char>, Seq<char>, Option<Seq<char>>, Option<u16>, Option<IpAddress>);

impl RemoteUrl {
    /// Serialization, scheme, host and port.
    pub closed spec fn parts(&self) -> UrlParts {
        (
            self.href@,
            self.scheme@,
            match self.host {
                Some(h) => Some(h@),
                None => None,
            },
            self.port,
            self.ip,
        )
    }

    /// The serialization (`Url::as_str`).
    pub fn href(&self) -> (r: &str)
        ensures
            r@ == self.parts().0,
    {
        self.href.as_str()
    }

    /// The scheme (`Url::scheme`).
    pub fn scheme(&self) -> (r: &str)
        ensures
            r@ == self.parts().1,
    {
        self.scheme.as_str()
    }

    /// The host (`Url::host_str`).
    pub fn host(&self) -> (r: Option<&str>)
        ensures
            match r {
                Some(h) => self.parts().2 == Some(h@),
                None => self.parts().2 is None,
            },
    {
        match &self.host {
            Some(h) => Some(h.as_str()),
            None => None,
        }
    }

    /// The port, or the scheme's default (`Url::port_or_known_default`).
    pub fn port(&self) -> (r: Option<u16>)
        ensures
            r == self.parts().3,
    {
        self.port
    }

    /// The host as an IP address, when it is one (`Url::host`).
    pub fn ip(&self) -> (r: Option<IpAddress>)
        ensures
            r == self.parts().4,
    {
        self.ip
    }

    /// Parses an absolute URL (`Url::parse`).
    pub fn parse(input: &str) -> (r: Option<RemoteUrl>)
        ensures
            match r {
                Some(u) => spec_url_parse(input@) == Some(u.parts()),
                None => spec_url_parse(input@) is None,
            },
    {
        parse_url(input)
    }

    /// Resolves a redirect target against this URL (`Url::join`).
    pub fn join(&self, input: &str) -> (r: Option<RemoteUrl>)
        ensures
            match r {
                Some(u) => spec_url_join(self.parts().0, input@) == Some(u.parts()),
                None => spec_url_join(self.parts().0, input@) is None,
            },
    {
        join_url(self, input)
    }
}

impl RemoteUrl {
    /// This URL with `key=value` appended to its query
    /// (`Url::query_pairs_mut().append_pair`).
    pub fn with_query_pair(&self, key: &str, value: &str) -> (r: RemoteUrl)
        ensures
            r.parts() == spec_url_append_pair(self.parts().0, key@, value@),
    {
        append_pair(self, key, value)
    }
}

/// What appending a form-encoded `key=value` pair to the query of the URL
/// serialized as `base` yields.
pub uninterp spec fn spec_url_append_pair(base: Seq<char>, key: Seq<char>, value: Seq<char>) -> UrlParts;

/// Appends a query pair with `url::form_urlencoded` through
/// `Url::query_pairs_mut`, on a copy of the URL. The name is applied to the
/// serialization stored beside the URL; the encoding is left to the crate.
#[verifier::external_body]
fn append_pair(base: &RemoteUrl, key: &str, value: &str) -> (r: RemoteUrl)
    ensures
        r.parts() == spec_url_append_pair(base.parts().0, key@, value@),
{
    let mut url = base.url.clone();
    url.query_pairs_mut().append_pair(key, value);
    let href = url.as_str().to_string();
    let scheme = url.scheme().to_string();
    let host = url.host_str().map(|h| h.to_string());
    let port = url.port_or_known_default();
    let ip = base.ip;
    RemoteUrl { url, href, scheme, host, port, ip }
}

/// What `Url::parse` yields for a text: serialization, scheme, host,
/// port-or-default and host address of the URL, when it is one.
pub uninterp spec fn spec_url_parse(input: Seq<char>) -> Option<UrlParts>;

/// What `Url::join` yields for the URL serialized as `base` and a
/// (relative or absolute) reference.
pub uninterp spec fn spec_url_join(base: Seq<char>, input: Seq<char>) -> Option<UrlParts>;

/// Parses with `url::Url::parse` (re-exported by reqwest) and reads back
/// the serialization, scheme, host and port of the result. The contract
/// names the outcome without saying which texts the WHATWG parser accepts.
#[verifier::external_body]
fn parse_url(input: &str) -> (r: Option<RemoteUrl>)
    ensures
        match r {
            Some(u) => spec_url_parse(input@) == Some(u.parts()),
            None => spec_url_parse(input@) is None,
        },
{
    match reqwest::Url::parse(input) {
        Ok(url) => {
            let href = url.as_str().to_string();
            let scheme = url.scheme().to_string();
            let host = url.host_str().map(|h| h.to_string());
            let port = url.port_or_known_default();
            let ip = match url.host() {
                Some(url::Host::Ipv4(a)) => Some(IpAddress::V4(a.octets())),
                Some(url::Host::Ipv6(a)) => Some(IpAddress::V6(a.segments())),
                _ => None,
            };
            Some(RemoteUrl { url, href, scheme, host, port, ip })
        },
        Err(_) => None,
    }
}

/// Joins a reference onto a URL with `url::Url::join`. A `Url` is fully
/// determined by its serialization, which both wrappers store beside it,
/// and the name is applied to that serialization; the contract says
/// nothing of the resolution algorithm itself.
#[verifier::external_body]
fn join_url(base: &RemoteUrl, input: &str) -> (r: Option<RemoteUrl>)
    ensures
        match r {
            Some(u) => spec_url_join(base.parts().0, input@) == Some(u.parts()),
            None => spec_url_join(base.parts().0, input@) is None,
        },
{
    match base.url.join(input) {
        Ok(url) => {
            let href = url.as_str().to_string();
            let scheme = url.scheme().to_string();
            let host = url.host_str().map(|h| h.to_string());
            let port = url.port_or_known_default();
            let ip = match url.host() {
                Some(url::Host::Ipv4(a)) => Some(IpAddress::V4(a.octets())),
                Some(url::Host::Ipv6(a)) => Some(IpAddress::V6(a.segments())),
                _ => None,
            };
            Some(RemoteUrl { url, href, scheme, host, port, ip })
        },
        Err(_) => None,
    }
}

// ---------------------------------------------------------------------------
// The remote-URL policy
// ---------------------------------------------------------------------------

/// A URL that connector client HTTP may contact: HTTPS, with a host that is
/// neither `localhost` (in any ASCII case) nor under `.local`, and that is
/// not a private, loopback, link-local or unspecified IP address.
pub open spec fn remote_url_allowed(p: UrlParts) -> bool {
    &&& p.1 == "https"@
    &&& p.2 is Some
    &&& ascii_lower(p.2->0) != "localhost"@
    &&& !has_suffix(p.2->0, ".local"@)
    &&& match p.4 {
        Some(ip) => !ip_is_private(ip),
        None => true,
    }
}

/// The remote-URL policy of connector client HTTP.
pub fn is_allowed_remote_url(url: &RemoteUrl) -> (r: bool)
    ensures
        r == remote_url_allowed(url.parts()),
{
    if !str_eq(url.scheme(), "https") {
        return false;
    }
    let host = match url.host() {
        Some(h) => h,
        None => return false,
    };
    let lower = to_ascii_lower(host);
    if str_eq(lower.as_str(), "localhost") || ends_with(host, ".local") {
        return false;
    }
    match url.ip() {
        Some(ip) => !is_private_ip(ip),
        None => true,
    }
}

/// What to do with a URL before contacting it.
pub enum RemoteCheck {
    /// Refuse the URL, with this message.
    Reject(String),
    /// The URL may be contacted as it is.
    Accept,
    /// Resolve the host name at this port, then check every address with
    /// the resolution check.
    Resolve { host: String, port: u16 },
}

/// The port to resolve a host at: the URL's, or 443.
pub open spec fn port_or_https(p: Option<u16>) -> u16 {
    match p {
        Some(port) => port,
        None => 443,
    }
}

/// `check` asks to resolve the URL's host at its port (or 443).
pub open spec fn resolves_host(check: RemoteCheck, p: UrlParts) -> bool {
    check matches RemoteCheck::Resolve { host, port } && p.2 == Some(host@) && port
        == port_or_https(p.3)
}

/// `check` refuses with the message `m`.
pub open spec fn rejects_with(check: RemoteCheck, m: Seq<char>) -> bool {
    check matches RemoteCheck::Reject(msg) && msg@ == m
}

pub(crate) fn resolve_step(host: &str, port: Option<u16>) -> (r: RemoteCheck)
    ensures
        r matches RemoteCheck::Resolve { host: h, port: p } && h@ == host@ && p == port_or_https(
            port,
        ),
{
    let p = match port {
        Some(p) => p,
        None => 443,
    };
    RemoteCheck::Resolve { host: owned(host), port: p }
}

} // verus!
