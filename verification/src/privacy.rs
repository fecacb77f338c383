//! The public address shown on the VPN page: the services asked for it, how
//! their JSON answers are read, and what is shown when none answers.

use vstd::prelude::*;
use crate::network::text_views;
use crate::text::{contains_seq, lowercase, to_lowercase, str_contains, owned};

verus! {

/// What reading `text` as JSON gives for the key `key` of its top-level
/// object: `None` when `text` is not JSON; otherwise the text stored under
/// the key, or `None` inside when the value is not an object, lacks the key,
/// or holds no string there.
pub uninterp spec fn json_string_field(text: Seq<char>, key: Seq<char>) -> Option<Option<Seq<char>>>;

/// The view of a two-level optional text.
pub open spec fn opt_opt_text(o: Option<Option<String>>) -> Option<Option<Seq<char>>> {
    match o {
        Some(Some(s)) => Some(Some(s@)),
        Some(None) => Some(None),
        None => None,
    }
}

/// Reads `text` with `serde_json::from_str` into a `serde_json::Value` and
/// takes `value[key].as_str()`. Claimed: the result is
/// [`json_string_field`] of the two arguments, a function of them alone.
#[verifier::external_body]
fn json_field(text: &str, key: &str) -> (r: Option<Option<String>>)
    ensures
        opt_opt_text(r) == json_string_field(text@, key@),
{
    match serde_json::from_str::<serde_json::Value>(text) {
        Ok(v) => Some(v[key].as_str().map(|s| s.to_string())),
        Err(_) => None,
    }
}

/// The fields of an answer that the panel reads.
pub struct IpFields {
    pub ip: Option<String>,
    pub query: Option<String>,
    pub ip_addr: Option<String>,
    pub org: Option<String>,
    pub asn_org: Option<String>,
    pub isp: Option<String>,
}

/// The fields of the JSON answer `text`, if it is JSON.
pub open spec fn ip_fields_of(text: Seq<char>) -> Option<
    (
        Option<Seq<char>>,
        Option<Seq<char>>,
        Option<Seq<char>>,
        Option<Seq<char>>,
        Option<Seq<char>>,
        Option<Seq<char>>,
    ),
> {
    if json_string_field(text, "ip"@) is None {
        None
    } else {
        Some(
            (
                json_string_field(text, "ip"@)->0,
                field_or_none(text, "query"@),
                field_or_none(text, "ip_addr"@),
                field_or_none(text, "org"@),
                field_or_none(text, "asn_org"@),
                field_or_none(text, "isp"@),
            ),
        )
    }
}

/// The text under `key`, if `text` is JSON and has one.
pub open spec fn field_or_none(text: Seq<char>, key: Seq<char>) -> Option<Seq<char>> {
    match json_string_field(text, key) {
        Some(Some(s)) => Some(s),
        _ => None,
    }
}

/// The views of the fields read.
pub open spec fn fields_view(f: IpFields) -> (
    Option<Seq<char>>,
    Option<Seq<char>>,
    Option<Seq<char>>,
    Option<Seq<char>>,
    Option<Seq<char>>,
    Option<Seq<char>>,
) {
    (
        crate::scan::opt_text(f.ip),
        crate::scan::opt_text(f.query),
        crate::scan::opt_text(f.ip_addr),
        crate::scan::opt_text(f.org),
        crate::scan::opt_text(f.asn_org),
        crate::scan::opt_text(f.isp),
    )
}

fn inner_field(text: &str, key: &str) -> (r: Option<String>)
    ensures
        crate::scan::opt_text(r) == field_or_none(text@, key@),
{
    match json_field(text, key) {
        Some(Some(s)) => Some(s),
        _ => None,
    }
}

/// Reads the fields of an answer: `None` when it is not JSON.
pub fn read_ip_fields(text: &str) -> (r: Option<IpFields>)
    ensures
        match r {
            Some(f) => ip_fields_of(text@) == Some(fields_view(f)),
            None => ip_fields_of(text@) is None,
        },
{
    let ip = match json_field(text, "ip") {
        None => {
            return None;
        },
        Some(v) => v,
    };
    Some(
        IpFields {
            ip,
            query: inner_field(text, "query"),
            ip_addr: inner_field(text, "ip_addr"),
            org: inner_field(text, "org"),
            asn_org: inner_field(text, "asn_org"),
            isp: inner_field(text, "isp"),
        },
    )
}

/// The public address, the provider, and whether the traffic looks
/// protected.
pub struct PublicIp {
    pub ip: String,
    pub isp: String,
    pub is_secure: bool,
}

/// The first text present among three, or `default`.
pub open spec fn first_present(
    a: Option<Seq<char>>,
    b: Option<Seq<char>>,
    c: Option<Seq<char>>,
    default: Seq<char>,
) -> Seq<char> {
    match a {
        Some(x) => x,
        None => match b {
            Some(x) => x,
            None => match c {
                Some(x) => x,
                None => default,
            },
        },
    }
}

/// Whether a provider name marks a VPN or hosting company.
pub open spec fn provider_looks_secure(isp: Seq<char>) -> bool {
    contains_seq(lowercase(isp), "vpn"@) || contains_seq(lowercase(isp), "hosting"@)
}

fn first_of(a: &Option<String>, b: &Option<String>, c: &Option<String>, default: &str) -> (r:
    String)
    ensures
        r@ == first_present(
            crate::scan::opt_text(*a),
            crate::scan::opt_text(*b),
            crate::scan::opt_text(*c),
            default@,
        ),
{
    match a {
        Some(x) => x.clone(),
        None => match b {
            Some(x) => x.clone(),
            None => match c {
                Some(x) => x.clone(),
                None => owned(default),
            },
        },
    }
}

/// What the panel shows for the fields of an answer: the address from `ip`,
/// `query` or `ip_addr` ("Unknown" when none), the provider from `org`,
/// `asn_org` or `isp` ("Direct Connection" when none), protected when the
/// provider name mentions a VPN or hosting, or when `url_counts` and the
/// address of the service asked mentions a VPN.
pub fn public_ip_of(f: &IpFields, url: &str, url_counts: bool) -> (p: PublicIp)
    ensures
        p.ip@ == first_present(fields_view(*f).0, fields_view(*f).1, fields_view(*f).2, "Unknown"@),
        p.isp@ == first_present(
            fields_view(*f).3,
            fields_view(*f).4,
            fields_view(*f).5,
            "Direct Connection"@,
        ),
        p.is_secure == (provider_looks_secure(p.isp@) || (url_counts && contains_seq(
            url@,
            "vpn"@,
        ))),
{
    let ip = first_of(&f.ip, &f.query, &f.ip_addr, "Unknown");
    let isp = first_of(&f.org, &f.asn_org, &f.isp, "Direct Connection");
    let lower = to_lowercase(isp.as_str());
    let secure = str_contains(lower.as_str(), "vpn") || str_contains(lower.as_str(), "hosting") || (
    url_counts && str_contains(url, "vpn"));
    PublicIp { ip, isp, is_secure: secure }
}

/// What the panel shows for the answer `text` of the service at `url`:
/// nothing when the answer is not JSON (the next service is asked),
/// otherwise [`public_ip_of`] of its fields.
pub fn public_ip_from_reply(text: &str, url: &str, url_counts: bool) -> (r: Option<PublicIp>)
    ensures
        match r {
            Some(p) => ip_fields_of(text@) is Some && {
                let f = ip_fields_of(text@)->0;
                &&& p.ip@ == first_present(f.0, f.1, f.2, "Unknown"@)
                &&& p.isp@ == first_present(f.3, f.4, f.5, "Direct Connection"@)
                &&& p.is_secure == (provider_looks_secure(p.isp@) || (url_counts && contains_seq(
                    url@,
                    "vpn"@,
                )))
            },
            None => ip_fields_of(text@) is None,
        },
{
    match read_ip_fields(text) {
        Some(f) => Some(public_ip_of(&f, url, url_counts)),
        None => None,
    }
}

/// The services asked for the public address, in order.
pub open spec fn ip_services() -> Seq<Seq<char>> {
    seq!["https://ifconfig.me/all.json"@, "https://api.ipify.org?format=json"@, "https://ipapi.co/json/"@]
}

/// The services asked for the public address, in order (see
/// [`ip_services`]).
pub fn ip_providers() -> (v: Vec<String>)
    ensures
        text_views(v@) == ip_services(),
{
    let mut v: Vec<String> = Vec::new();
    v.push(owned("https://ifconfig.me/all.json"));
    v.push(owned("https://api.ipify.org?format=json"));
    v.push(owned("https://ipapi.co/json/"));
    assert(text_views(v@) =~= ip_services());
    v
}

/// What the VPN page shows when no service answered.
pub fn unavailable_ip() -> (p: PublicIp)
    ensures
        p.ip@ == "Unavailable"@,
        p.isp@ == "Check connection"@,
        !p.is_secure,
{
    PublicIp { ip: owned("Unavailable"), isp: owned("Check connection"), is_secure: false }
}

} // verus!
