//! The privacy dashboard: recognising DNS providers and summarising the
//! name servers in use.

use vstd::prelude::*;
use vstd::string::*;
use crate::network::text_views;
use crate::text::{
    is_prefix_of, str_starts_with, str_contains, contains_seq, first_index_of, find_char, chars_of,
    string_from_chars, skip_chars, push_str, owned, decimal, push_decimal,
};

verus! {

/// The provider of a name server and whether it is a privacy-respecting one.
pub struct DnsInfo {
    pub provider: String,
    pub is_private: bool,
}

/// `dns` lies in `172.16.0.0/12`: it starts with `172.n.` for some `n` from
/// 16 to 31.
pub open spec fn in_private_172(dns: Seq<char>) -> bool {
    exists|n: nat| 16 <= n <= 31 && #[trigger] is_prefix_of("172."@ + decimal(n) + "."@, dns)
}

/// `dns` is an address of the local network rather than of the internet:
/// loopback (`127.`, `::1`), the private IPv4 ranges (`10.`, `172.16`-`172.31`,
/// `192.168.`), IPv4 link-local (`169.254.`), IPv6 link-local (`fe80:`) or
/// IPv6 unique-local (`fc..`, `fd..`). Such a server is the router's.
pub open spec fn is_local_address(dns: Seq<char>) -> bool {
    ||| is_prefix_of("10."@, dns)
    ||| is_prefix_of("192.168."@, dns)
    ||| is_prefix_of("127."@, dns)
    ||| is_prefix_of("169.254."@, dns)
    ||| in_private_172(dns)
    ||| dns == "::1"@
    ||| is_prefix_of("fe80:"@, dns)
    ||| is_prefix_of("fc"@, dns)
    ||| is_prefix_of("fd"@, dns)
}

/// Name and privacy of the provider of the name server `dns`, by its address
/// prefix; a server on the local network (see [`is_local_address`]) or in
/// the same network as the public address (`ip_prefix`, when known) is the
/// ISP's or the router's.
pub open spec fn dns_provider(dns: Seq<char>, ip_prefix: Seq<char>) -> (Seq<char>, bool) {
    if is_prefix_of("1.1.1."@, dns) || is_prefix_of("1.0.0."@, dns) || is_prefix_of("2606:4700:"@, dns) {
        ("Cloudflare"@, true)
    } else if is_prefix_of("8.8.8."@, dns) || is_prefix_of("8.8.4."@, dns) || is_prefix_of("2001:4860:"@, dns) {
        ("Google"@, false)
    } else if is_prefix_of("9.9.9."@, dns) || is_prefix_of("149.112.112."@, dns) || is_prefix_of("2620:fe:"@, dns)
        || is_prefix_of("2620:f3:"@, dns) {
        ("Quad9"@, true)
    } else if is_prefix_of("208.67."@, dns) || is_prefix_of("2620:119:"@, dns) {
        ("OpenDNS"@, false)
    } else if is_prefix_of("94.140."@, dns) || is_prefix_of("2a10:50c0:"@, dns) {
        ("AdGuard"@, true)
    } else if is_local_address(dns) || (ip_prefix.len() > 0 && is_prefix_of(ip_prefix, dns)) {
        ("ISP / Router"@, false)
    } else {
        ("Unknown"@, false)
    }
}

/// The providers the dashboard recognises, as data: an address prefix, the
/// provider's name, and whether it respects privacy.
pub open spec fn known_providers() -> Seq<(Seq<char>, Seq<char>, bool)> {
    seq![
        ("1.1.1."@, "Cloudflare"@, true),
        ("1.0.0."@, "Cloudflare"@, true),
        ("2606:4700:"@, "Cloudflare"@, true),
        ("8.8.8."@, "Google"@, false),
        ("8.8.4."@, "Google"@, false),
        ("2001:4860:"@, "Google"@, false),
        ("9.9.9."@, "Quad9"@, true),
        ("149.112.112."@, "Quad9"@, true),
        ("2620:fe:"@, "Quad9"@, true),
        ("2620:f3:"@, "Quad9"@, true),
        ("208.67."@, "OpenDNS"@, false),
        ("2620:119:"@, "OpenDNS"@, false),
        ("94.140."@, "AdGuard"@, true),
        ("2a10:50c0:"@, "AdGuard"@, true),
    ]
}

/// The first characters of a text that starts with `q` are those of `q`.
proof fn lemma_prefix_chars(q: Seq<char>, dns: Seq<char>)
    requires
        is_prefix_of(q, dns),
    ensures
        q.len() > 0 ==> dns[0] == q[0],
        q.len() > 1 ==> dns[1] == q[1],
        q.len() > 2 ==> dns[2] == q[2],
        q.len() > 3 ==> dns[3] == q[3],
        q.len() > 4 ==> dns[4] == q[4],
        q.len() > 5 ==> dns[5] == q[5],
        q.len() > 6 ==> dns[6] == q[6],
{
    assert forall|k: int| 0 <= k < q.len() implies dns[k] == #[trigger] q[k] by {
        assert(dns.subrange(0, q.len() as int)[k] == dns[k]);
    }
}

/// A name server whose address starts with a prefix of a known provider is
/// identified as that provider, with its privacy, whatever the public
/// address.
pub proof fn lemma_known_provider_identified(dns: Seq<char>, ip_prefix: Seq<char>, i: int)
    requires
        0 <= i < known_providers().len(),
        is_prefix_of(known_providers()[i].0, dns),
    ensures
        dns_provider(dns, ip_prefix) == (known_providers()[i].1, known_providers()[i].2),
{
    reveal_strlit("1.1.1.");
    reveal_strlit("1.0.0.");
    reveal_strlit("2606:4700:");
    reveal_strlit("8.8.8.");
    reveal_strlit("8.8.4.");
    reveal_strlit("2001:4860:");
    reveal_strlit("9.9.9.");
    reveal_strlit("149.112.112.");
    reveal_strlit("2620:fe:");
    reveal_strlit("2620:f3:");
    reveal_strlit("208.67.");
    reveal_strlit("2620:119:");
    reveal_strlit("94.140.");
    reveal_strlit("2a10:50c0:");
    lemma_prefix_chars(known_providers()[i].0, dns);
    if is_prefix_of("1.1.1."@, dns) {
        lemma_prefix_chars("1.1.1."@, dns);
    }
    if is_prefix_of("1.0.0."@, dns) {
        lemma_prefix_chars("1.0.0."@, dns);
    }
    if is_prefix_of("2606:4700:"@, dns) {
        lemma_prefix_chars("2606:4700:"@, dns);
    }
    if is_prefix_of("8.8.8."@, dns) {
        lemma_prefix_chars("8.8.8."@, dns);
    }
    if is_prefix_of("8.8.4."@, dns) {
        lemma_prefix_chars("8.8.4."@, dns);
    }
    if is_prefix_of("2001:4860:"@, dns) {
        lemma_prefix_chars("2001:4860:"@, dns);
    }
    if is_prefix_of("9.9.9."@, dns) {
        lemma_prefix_chars("9.9.9."@, dns);
    }
    if is_prefix_of("149.112.112."@, dns) {
        lemma_prefix_chars("149.112.112."@, dns);
    }
    if is_prefix_of("2620:fe:"@, dns) {
        lemma_prefix_chars("2620:fe:"@, dns);
    }
    if is_prefix_of("2620:f3:"@, dns) {
        lemma_prefix_chars("2620:f3:"@, dns);
    }
    if is_prefix_of("208.67."@, dns) {
        lemma_prefix_chars("208.67."@, dns);
    }
    if is_prefix_of("2620:119:"@, dns) {
        lemma_prefix_chars("2620:119:"@, dns);
    }
    if is_prefix_of("94.140."@, dns) {
        lemma_prefix_chars("94.140."@, dns);
    }
    if is_prefix_of("2a10:50c0:"@, dns) {
        lemma_prefix_chars("2a10:50c0:"@, dns);
    }
}

/// Address prefixes of the local network, as data: a private IPv4 range,
/// loopback, IPv4 link-local, IPv6 link-local and IPv6 unique-local.
pub open spec fn local_prefixes() -> Seq<Seq<char>> {
    seq!["10."@, "192.168."@, "127."@, "169.254."@, "fe80:"@, "fc"@, "fd"@]
}

/// A name server on the local network (its address starts with a local
/// prefix) is the router's, whatever the public address.
pub proof fn lemma_local_server_is_router(dns: Seq<char>, ip_prefix: Seq<char>, i: int)
    requires
        0 <= i < local_prefixes().len(),
        is_prefix_of(local_prefixes()[i], dns),
    ensures
        dns_provider(dns, ip_prefix) == ("ISP / Router"@, false),
{
    reveal_strlit("1.1.1.");
    reveal_strlit("1.0.0.");
    reveal_strlit("2606:4700:");
    reveal_strlit("8.8.8.");
    reveal_strlit("8.8.4.");
    reveal_strlit("2001:4860:");
    reveal_strlit("9.9.9.");
    reveal_strlit("149.112.112.");
    reveal_strlit("2620:fe:");
    reveal_strlit("2620:f3:");
    reveal_strlit("208.67.");
    reveal_strlit("2620:119:");
    reveal_strlit("94.140.");
    reveal_strlit("2a10:50c0:");
    reveal_strlit("10.");
    reveal_strlit("192.168.");
    reveal_strlit("127.");
    reveal_strlit("169.254.");
    reveal_strlit("fe80:");
    reveal_strlit("fc");
    reveal_strlit("fd");
    lemma_prefix_chars(local_prefixes()[i], dns);
    if is_prefix_of("1.1.1."@, dns) {
        lemma_prefix_chars("1.1.1."@, dns);
    }
    if is_prefix_of("1.0.0."@, dns) {
        lemma_prefix_chars("1.0.0."@, dns);
    }
    if is_prefix_of("2606:4700:"@, dns) {
        lemma_prefix_chars("2606:4700:"@, dns);
    }
    if is_prefix_of("8.8.8."@, dns) {
        lemma_prefix_chars("8.8.8."@, dns);
    }
    if is_prefix_of("8.8.4."@, dns) {
        lemma_prefix_chars("8.8.4."@, dns);
    }
    if is_prefix_of("2001:4860:"@, dns) {
        lemma_prefix_chars("2001:4860:"@, dns);
    }
    if is_prefix_of("9.9.9."@, dns) {
        lemma_prefix_chars("9.9.9."@, dns);
    }
    if is_prefix_of("149.112.112."@, dns) {
        lemma_prefix_chars("149.112.112."@, dns);
    }
    if is_prefix_of("2620:fe:"@, dns) {
        lemma_prefix_chars("2620:fe:"@, dns);
    }
    if is_prefix_of("2620:f3:"@, dns) {
        lemma_prefix_chars("2620:f3:"@, dns);
    }
    if is_prefix_of("208.67."@, dns) {
        lemma_prefix_chars("208.67."@, dns);
    }
    if is_prefix_of("2620:119:"@, dns) {
        lemma_prefix_chars("2620:119:"@, dns);
    }
    if is_prefix_of("94.140."@, dns) {
        lemma_prefix_chars("94.140."@, dns);
    }
    if is_prefix_of("2a10:50c0:"@, dns) {
        lemma_prefix_chars("2a10:50c0:"@, dns);
    }
}

/// Whether `dns` starts with `172.n.` for some `n` from 16 to 31.
fn private_172(dns: &str) -> (b: bool)
    ensures
        b == in_private_172(dns@),
{
    let mut n: u64 = 16;
    while n <= 31
        invariant
            16 <= n <= 32,
            forall|m: nat| 16 <= m < n ==> !#[trigger] is_prefix_of("172."@ + decimal(m) + "."@, dns@),
        decreases 32 - n,
    {
        let mut p = owned("172.");
        push_decimal(&mut p, n);
        push_str(&mut p, ".");
        if str_starts_with(dns, p.as_str()) {
            assert(is_prefix_of("172."@ + decimal(n as nat) + "."@, dns@));
            return true;
        }
        n = n + 1;
    }
    false
}

/// Whether `dns` is an address of the local network (see
/// [`is_local_address`]).
fn local_address(dns: &str) -> (b: bool)
    ensures
        b == is_local_address(dns@),
{
    str_starts_with(dns, "10.") || str_starts_with(dns, "192.168.") || str_starts_with(dns, "127.")
        || str_starts_with(dns, "169.254.") || private_172(dns) || crate::text::str_eq(dns, "::1")
        || str_starts_with(dns, "fe80:") || str_starts_with(dns, "fc") || str_starts_with(dns, "fd")
}

/// Identifies the provider of a name server (see [`dns_provider`]).
pub fn identify_dns_provider(dns: &str, ip_prefix: &str) -> (d: DnsInfo)
    ensures
        (d.provider@, d.is_private) == dns_provider(dns@, ip_prefix@),
{
    let sw = |p: &str| -> (b: bool)
        ensures
            b == is_prefix_of(p@, dns@),
        { str_starts_with(dns, p) };
    let (provider, is_private) = if sw("1.1.1.") || sw("1.0.0.") || sw("2606:4700:") {
        ("Cloudflare", true)
    } else if sw("8.8.8.") || sw("8.8.4.") || sw("2001:4860:") {
        ("Google", false)
    } else if sw("9.9.9.") || sw("149.112.112.") || sw("2620:fe:") || sw("2620:f3:") {
        ("Quad9", true)
    } else if sw("208.67.") || sw("2620:119:") {
        ("OpenDNS", false)
    } else if sw("94.140.") || sw("2a10:50c0:") {
        ("AdGuard", true)
    } else if local_address(dns) || (ip_prefix.unicode_len() > 0 && str_starts_with(dns, ip_prefix)) {
        ("ISP / Router", false)
    } else {
        ("Unknown", false)
    };
    DnsInfo { provider: owned(provider), is_private: is_private }
}

/// The first `n` fields of `s` separated by `c`, with their separators
/// (`s.split(c).take(n).join(c)`, `n` at least one).
pub open spec fn leading_fields(s: Seq<char>, c: char, n: nat) -> Seq<char>
    decreases n,
{
    match first_index_of(s, c) {
        None => s,
        Some(i) => if n <= 1 {
            s.take(i)
        } else {
            s.take(i + 1) + leading_fields(s.skip(i + 1), c, (n - 1) as nat)
        },
    }
}

fn leading_fields_exec(v: &[char], c: char, n: usize) -> (r: Vec<char>)
    ensures
        r@ == leading_fields(v@, c, n as nat),
    decreases n,
{
    match find_char(v, c) {
        None => {
            let r = skip_chars(v, 0);
            assert(v@.skip(0) =~= v@);
            r
        },
        Some(i) => {
            let mut head: Vec<char> = Vec::new();
            let upto = if n <= 1 { i } else { i + 1 };
            let mut k: usize = 0;
            while k < upto
                invariant
                    k <= upto,
                    upto <= v.len(),
                    head@ == v@.subrange(0, k as int),
                decreases upto - k,
            {
                head.push(v[k]);
                k = k + 1;
            }
            if n <= 1 {
                assert(head@ =~= v@.take(i as int));
                head
            } else {
                let rest = skip_chars(v, i + 1);
                let tail = leading_fields_exec(rest.as_slice(), c, n - 1);
                let ghost h = head@;
                let mut j: usize = 0;
                while j < tail.len()
                    invariant
                        j <= tail.len(),
                        head@ == h + tail@.subrange(0, j as int),
                    decreases tail.len() - j,
                {
                    head.push(tail[j]);
                    j = j + 1;
                }
                assert(h =~= v@.take(i + 1));
                assert(head@ =~= v@.take(i + 1) + leading_fields(v@.skip(i + 1), c, (n - 1) as nat));
                head
            }
        },
    }
}

/// The network part of a public address: the first four groups of an IPv6
/// address, the first three octets of an IPv4 address.
pub open spec fn network_prefix(ip: Seq<char>) -> Seq<char> {
    if contains_seq(ip, ":"@) {
        leading_fields(ip, ':', 4)
    } else {
        leading_fields(ip, '.', 3)
    }
}

/// The network part of a public address (see [`network_prefix`]).
pub fn ip_network_prefix(ip: &str) -> (r: String)
    ensures
        r@ == network_prefix(ip@),
{
    let v = chars_of(ip);
    let f = if str_contains(ip, ":") {
        leading_fields_exec(v.as_slice(), ':', 4)
    } else {
        leading_fields_exec(v.as_slice(), '.', 3)
    };
    string_from_chars(f.as_slice())
}

/// The texts of `s` without repetitions, each where it first occurs.
pub open spec fn first_occurrences(s: Seq<Seq<char>>) -> Seq<Seq<char>>
    decreases s.len(),
{
    if s.len() == 0 {
        Seq::empty()
    } else {
        let d = first_occurrences(s.drop_last());
        if d.contains(s.last()) { d } else { d.push(s.last()) }
    }
}

/// The texts of `s` joined with `sep` between them.
pub open spec fn joined(s: Seq<Seq<char>>, sep: Seq<char>) -> Seq<char>
    decreases s.len(),
{
    if s.len() == 0 {
        Seq::empty()
    } else if s.len() == 1 {
        s[0]
    } else {
        joined(s.drop_last(), sep) + sep + s.last()
    }
}

/// The texts of `v` joined with `sep` between them (`[String]::join`).
pub fn join_texts(v: &Vec<String>, sep: &str) -> (s: String)
    ensures
        s@ == joined(text_views(v@), sep@),
{
    let ghost tv = text_views(v@);
    let mut s = String::new();
    let mut j: usize = 0;
    while j < v.len()
        invariant
            tv == text_views(v@),
            j <= v.len(),
            s@ == joined(tv.take(j as int), sep@),
        decreases v.len() - j,
    {
        if j > 0 {
            push_str(&mut s, sep);
        }
        push_str(&mut s, v[j].as_str());
        proof {
            assert(tv[j as int] == v@[j as int]@);
            assert(tv.take(j + 1).drop_last() =~= tv.take(j as int));
            if j == 0 {
                assert(tv.take(1)[0] == tv[0]);
            }
            assert(s@ =~= joined(tv.take(j + 1), sep@));
        }
        j = j + 1;
    }
    assert(tv.take(v.len() as int) =~= tv);
    s
}

/// The providers of the servers, in order.
pub open spec fn providers_of(servers: Seq<Seq<char>>, prefix: Seq<char>) -> Seq<Seq<char>> {
    servers.map_values(|d: Seq<char>| dns_provider(d, prefix).0)
}

/// Some server is a privacy-respecting one.
pub open spec fn any_private_server(servers: Seq<Seq<char>>, prefix: Seq<char>) -> bool {
    exists|i: int| 0 <= i < servers.len() && dns_provider(#[trigger] servers[i], prefix).1
}

/// The DNS summary line for the servers in use, given the public address:
/// "System Default" without servers; the provider's name, marked private when
/// it is one, when every server has the same provider; otherwise "Mixed"
/// followed by the providers in order of first appearance.
pub open spec fn dns_summary_text(servers: Seq<Seq<char>>, ip: Seq<char>) -> Seq<char> {
    let prefix = network_prefix(ip);
    let names = first_occurrences(providers_of(servers, prefix));
    if names.len() == 0 {
        "System Default"@
    } else if names.len() == 1 {
        if any_private_server(servers, prefix) { names[0] + " (Private)"@ } else { names[0] }
    } else {
        "Mixed ("@ + joined(names, " + "@) + ")"@
    }
}

fn contains_text(list: &Vec<String>, x: &str) -> (b: bool)
    ensures
        b == text_views(list@).contains(x@),
{
    let mut i: usize = 0;
    while i < list.len()
        invariant
            i <= list.len(),
            forall|k: int| 0 <= k < i ==> list@[k]@ != x@,
        decreases list.len() - i,
    {
        if crate::text::str_eq(list[i].as_str(), x) {
            assert(text_views(list@)[i as int] == x@);
            return true;
        }
        i = i + 1;
    }
    assert forall|k: int| 0 <= k < text_views(list@).len() implies text_views(list@)[k] != x@ by {
        assert(text_views(list@)[k] == list@[k]@);
    }
    false
}

/// The classification of each server and the DNS summary line (see
/// [`dns_summary_text`]).
pub fn dns_summary(servers: &Vec<String>, ip: &str) -> (r: (Vec<DnsInfo>, String))
    ensures
        r.0.len() == servers.len(),
        forall|i: int| 0 <= i < servers.len() ==> (#[trigger] r.0@[i].provider@, r.0@[i].is_private) == dns_provider(servers@[i]@, network_prefix(ip@)),
        r.1@ == dns_summary_text(text_views(servers@), ip@),
{
    let prefix = ip_network_prefix(ip);
    let ghost sv = text_views(servers@);
    let ghost pv = providers_of(sv, prefix@);
    let mut infos: Vec<DnsInfo> = Vec::new();
    let mut names: Vec<String> = Vec::new();
    let mut any_private = false;
    let mut i: usize = 0;
    while i < servers.len()
        invariant
            sv == text_views(servers@),
            pv == providers_of(sv, prefix@),
            prefix@ == network_prefix(ip@),
            i <= servers.len(),
            infos.len() == i,
            forall|k: int| 0 <= k < i ==> (#[trigger] infos@[k].provider@, infos@[k].is_private) == dns_provider(servers@[k]@, prefix@),
            text_views(names@) == first_occurrences(pv.take(i as int)),
            any_private == exists|k: int| 0 <= k < i && dns_provider(#[trigger] sv[k], prefix@).1,
        decreases servers.len() - i,
    {
        let info = identify_dns_provider(servers[i].as_str(), prefix.as_str());
        proof {
            assert(pv.take(i + 1).drop_last() =~= pv.take(i as int));
            assert(pv.take(i + 1).last() == info.provider@);
            assert(sv[i as int] == servers@[i as int]@);
        }
        if !contains_text(&names, info.provider.as_str()) {
            let ghost before = text_views(names@);
            names.push(info.provider.clone());
            assert(text_views(names@) =~= before.push(info.provider@));
        }
        if info.is_private {
            any_private = true;
        }
        infos.push(info);
        i = i + 1;
    }
    assert(pv.take(servers.len() as int) =~= pv);
    let summary = if names.len() == 0 {
        owned("System Default")
    } else if names.len() == 1 {
        let mut s = names[0].clone();
        assert(text_views(names@)[0] == names@[0]@);
        if any_private {
            push_str(&mut s, " (Private)");
        }
        s
    } else {
        let mut s = owned("Mixed (");
        let ghost nv = text_views(names@);
        let ghost s0 = s@;
        let mut j: usize = 0;
        while j < names.len()
            invariant
                nv == text_views(names@),
                names.len() >= 2,
                j <= names.len(),
                s0 == "Mixed ("@,
                j > 0 ==> s@ == s0 + joined(nv.take(j as int), " + "@),
                j == 0 ==> s@ == s0,
            decreases names.len() - j,
        {
            let ghost before = s@;
            if j > 0 {
                push_str(&mut s, " + ");
            }
            push_str(&mut s, names[j].as_str());
            proof {
                assert(nv[j as int] == names@[j as int]@);
                assert(nv.take(j + 1).drop_last() =~= nv.take(j as int));
                if j == 0 {
                    assert(nv.take(1)[0] == nv[0]);
                    assert(s@ =~= s0 + joined(nv.take(1), " + "@));
                } else {
                    assert(s@ =~= s0 + joined(nv.take(j + 1), " + "@));
                }
            }
            j = j + 1;
        }
        assert(nv.take(names.len() as int) =~= nv);
        push_str(&mut s, ")");
        s
    };
    (infos, summary)
}

/// The ISP line: the ISP's name, marked secure when the traffic leaves
/// through a VPN or hosting provider.
pub open spec fn isp_line(isp: Seq<char>, secure: bool) -> Seq<char> {
    if secure { isp + " (Secure)"@ } else { isp }
}

/// The ISP line (see [`isp_line`]).
pub fn isp_label(isp: &str, secure: bool) -> (s: String)
    ensures
        s@ == isp_line(isp@, secure),
{
    let mut s = owned(isp);
    if secure {
        push_str(&mut s, " (Secure)");
    }
    s
}

/// The public address line.
pub fn public_ip_label(ip: &str) -> (s: String)
    ensures
        s@ == "IP: "@ + ip@,
{
    let mut s = owned("IP: ");
    push_str(&mut s, ip);
    s
}

} // verus!
