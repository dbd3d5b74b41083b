//! Provider URL screening (server-side request forgery guard): http(s)
//! only; no cloud metadata endpoints, whether named or given as a
//! link-local address; no IPv6 loopback and no IPv4-mapped IPv6 address.
//! Userinfo before the host is skipped, so it cannot hide the host. IPv4
//! localhost and private addresses stay allowed, since Ollama providers run
//! on local machines.

use vstd::prelude::*;
use vstd::string::*;

use crate::http::error::AppError;
use crate::text::{contains, contains_seq, find_first, first_occurrence, has_prefix, starts_with};

verus! {

/// Message of a URL with another scheme.
pub const ERR_PROVIDER_SCHEME: &'static str = "provider URL must use http:// or https://";

/// Message of a URL that reaches a metadata endpoint.
pub const ERR_METADATA_ENDPOINT: &'static str = "metadata endpoints are not allowed";

/// Known metadata host name.
pub const METADATA_HOST: &'static str = "metadata.google.internal";

/// `s` up to the first occurrence of `p` (all of it when there is none).
pub open spec fn before_first(s: Seq<char>, p: Seq<char>) -> Seq<char> {
    match first_occurrence(s, p) {
        Some(i) => s.subrange(0, i),
        None => s,
    }
}

/// The second `://`-separated piece of `url` (`split("://").nth(1)`), or
/// empty.
pub open spec fn after_scheme(url: Seq<char>) -> Seq<char> {
    match first_occurrence(url, "://"@) {
        Some(i) => before_first(url.subrange(i + 3, url.len() as int), "://"@),
        None => Seq::empty(),
    }
}

/// The authority of `url`: what follows the scheme, up to the first `/`.
pub open spec fn authority(url: Seq<char>) -> Seq<char> {
    before_first(after_scheme(url), "/"@)
}

/// `auth` without userinfo: what follows the last `@`, if any.
pub open spec fn strip_userinfo(auth: Seq<char>) -> Seq<char>
    decreases auth.len(),
{
    match first_occurrence(auth, "@"@) {
        Some(i) => if 0 <= i < auth.len() {
            strip_userinfo(auth.subrange(i + 1, auth.len() as int))
        } else {
            auth
        },
        None => auth,
    }
}

/// The host and port of `url`: its authority without userinfo.
pub open spec fn host_port(url: Seq<char>) -> Seq<char> {
    strip_userinfo(authority(url))
}

/// End of a bracketed host: the first `]`, or the end.
pub open spec fn bracket_end(auth: Seq<char>) -> int {
    match first_occurrence(auth, "]"@) {
        Some(e) => e,
        None => auth.len() as int,
    }
}

/// Cutting out the bracketed host is possible: no `[`, or a `]` that does
/// not come before the first `[`. (Otherwise the slice is reversed.)
pub open spec fn host_cut_ok(url: Seq<char>) -> bool {
    let hp = host_port(url);
    match first_occurrence(hp, "["@) {
        Some(st) => st + 1 <= bracket_end(hp),
        None => true,
    }
}

/// The bare host of `url`: between `[` and `]` for a bracketed host, else
/// the host and port up to the first `:`.
pub open spec fn bare_host(url: Seq<char>) -> Seq<char> {
    let hp = host_port(url);
    match first_occurrence(hp, "["@) {
        Some(st) => hp.subrange(st + 1, bracket_end(hp)),
        None => before_first(hp, ":"@),
    }
}

/// The URL uses http or https.
pub open spec fn http_scheme(url: Seq<char>) -> bool {
    has_prefix(url, "http://"@) || has_prefix(url, "https://"@)
}

fn cut_before<'a>(s: &'a str, p: &str) -> (r: &'a str)
    ensures
        r@ == before_first(s@, p@),
{
    match find_first(s, p) {
        Some(i) => s.substring_char(0, i),
        None => s,
    }
}

fn skip_userinfo<'a>(auth: &'a str) -> (r: &'a str)
    ensures
        r@ == strip_userinfo(auth@),
{
    proof {
        reveal_strlit("@");
    }
    let mut cur = auth;
    loop
        invariant
            strip_userinfo(cur@) == strip_userinfo(auth@),
        decreases cur@.len(),
    {
        match find_first(cur, "@") {
            Some(i) => {
                proof {
                    reveal_strlit("@");
                }
                let n = cur.unicode_len();
                cur = cur.substring_char(i + 1, n);
            },
            None => {
                return cur;
            },
        }
    }
}

/// The host and port of a URL (its authority without userinfo).
fn host_port_of<'a>(url: &'a str) -> (r: &'a str)
    ensures
        r@ == host_port(url@),
{
    proof {
        reveal_strlit("://");
        reveal_strlit("");
    }
    let n = url.unicode_len();
    let after = match find_first(url, "://") {
        Some(i) => {
            let rest = url.substring_char(i + 3, n);
            cut_before(rest, "://")
        },
        None => "",
    };
    assert(after@ == after_scheme(url@));
    let auth = cut_before(after, "/");
    assert(auth@ == authority(url@));
    skip_userinfo(auth)
}

/// Whether the bracketed host of `url` can be cut out (see `host_cut_ok`);
/// a caller tests this before `provider_url_host`.
pub fn url_host_cut_ok(url: &str) -> (r: bool)
    ensures
        r == host_cut_ok(url@),
{
    proof {
        reveal_strlit("[");
        reveal_strlit("]");
    }
    let hp = host_port_of(url);
    match find_first(hp, "[") {
        Some(st) => {
            let end = match find_first(hp, "]") {
                Some(e) => e,
                None => hp.unicode_len(),
            };
            st < end
        },
        None => true,
    }
}

/// The part of a provider URL that names its host. A URL whose scheme is
/// not http(s) is `400 provider URL must use http:// or https://`; one that
/// mentions the metadata host name is `400 metadata endpoints are not
/// allowed`. Otherwise the bare host is returned, to be read as an IP
/// address if it is one.
pub fn provider_url_host(url: &str) -> (r: Result<String, AppError>)
    requires
        http_scheme(url@) && !contains_seq(url@, METADATA_HOST@) ==> host_cut_ok(url@),
    ensures
        !http_scheme(url@) ==> (r matches Err(AppError::BadRequest(m)) && m@ == ERR_PROVIDER_SCHEME@),
        http_scheme(url@) && contains_seq(url@, METADATA_HOST@) ==> (r matches Err(AppError::BadRequest(m))
            && m@ == ERR_METADATA_ENDPOINT@),
        http_scheme(url@) && !contains_seq(url@, METADATA_HOST@) ==> (r matches Ok(h) && h@ == bare_host(
            url@,
        )),
{
    if !(starts_with(url, "http://") || starts_with(url, "https://")) {
        return Err(AppError::BadRequest(ERR_PROVIDER_SCHEME.to_owned()));
    }
    if contains(url, METADATA_HOST) {
        return Err(AppError::BadRequest(ERR_METADATA_ENDPOINT.to_owned()));
    }
    proof {
        reveal_strlit("[");
        reveal_strlit("]");
    }
    let hp = host_port_of(url);
    let bare = match find_first(hp, "[") {
        Some(st) => {
            let end = match find_first(hp, "]") {
                Some(e) => e,
                None => hp.unicode_len(),
            };
            hp.substring_char(st + 1, end)
        },
        None => cut_before(hp, ":"),
    };
    Ok(bare.to_owned())
}

/// An IP address as its parts: four octets, or eight 16-bit segments.
#[derive(Debug, Clone, Copy, PartialEq, Eq)]
pub enum IpAddress {
    V4(u8, u8, u8, u8),
    V6([u16; 8]),
}

/// An IPv4 address is link-local: `169.254.0.0/16`.
pub open spec fn v4_link_local(a: u8, b: u8) -> bool {
    a == 169 && b == 254
}

/// An IPv6 address is link-local: `fe80::/10`.
pub open spec fn v6_link_local(seg0: u16) -> bool {
    (seg0 & 0xffc0u16) == 0xfe80u16
}

/// An IPv6 address that maps an IPv4 address (`::ffff:a.b.c.d`).
pub open spec fn v4_mapped(s: Seq<u16>) -> bool {
    s[0] == 0 && s[1] == 0 && s[2] == 0 && s[3] == 0 && s[4] == 0 && s[5] == 0xffff
}

/// The IPv6 loopback address `::1`.
pub open spec fn v6_loopback(s: Seq<u16>) -> bool {
    s[0] == 0 && s[1] == 0 && s[2] == 0 && s[3] == 0 && s[4] == 0 && s[5] == 0 && s[6] == 0 && s[7] == 1
}

/// The address is refused as a provider host: IPv4 link-local (where cloud
/// metadata services live), IPv6 link-local, IPv6 loopback, or any
/// IPv4-mapped IPv6 address.
pub open spec fn blocked_address(ip: IpAddress) -> bool {
    match ip {
        IpAddress::V4(a, b, _, _) => v4_link_local(a, b),
        IpAddress::V6(s) => v6_link_local(s@[0]) || v6_loopback(s@) || v4_mapped(s@),
    }
}

/// Refuses a host address in link-local space (where cloud metadata
/// services live), the IPv6 loopback address, and every IPv4-mapped IPv6
/// address; a host that is not an IP address passes, and so do IPv4
/// localhost and private addresses.
pub fn check_provider_address(ip: Option<IpAddress>) -> (r: Result<(), AppError>)
    ensures
        match ip {
            Some(a) => if blocked_address(a) {
                r matches Err(AppError::BadRequest(m)) && m@ == ERR_METADATA_ENDPOINT@
            } else {
                r is Ok
            },
            None => r is Ok,
        },
{
    let blocked = match ip {
        None => false,
        Some(IpAddress::V4(a, b, _, _)) => a == 169 && b == 254,
        Some(IpAddress::V6(s)) => {
            let zeros = s[0] == 0 && s[1] == 0 && s[2] == 0 && s[3] == 0 && s[4] == 0;
            let mapped = zeros && s[5] == 0xffff;
            let loopback = zeros && s[5] == 0 && s[6] == 0 && s[7] == 1;
            (s[0] & 0xffc0u16) == 0xfe80u16 || loopback || mapped
        },
    };
    if blocked {
        Err(AppError::BadRequest(ERR_METADATA_ENDPOINT.to_owned()))
    } else {
        Ok(())
    }
}

} // verus!
