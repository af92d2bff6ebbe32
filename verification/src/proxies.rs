//! Trusted reverse proxies, each given as an IP network (`addr/len`) or as
//! an address alone, which stands for its host network.

use vstd::prelude::*;
use crate::args::strs;
use crate::paths::concat;
use crate::validate::ConfigError;

verus! {

/// An IP network as plain values: the family, the address as written (for
/// IPv4 in the low 32 bits), and the prefix length.
#[derive(Debug, Clone, Copy, PartialEq, Eq, Structural)]
pub struct ProxyNet {
    pub v6: bool,
    pub addr: u128,
    pub prefix_len: u8,
}

/// The network as a triple of plain values.
pub open spec fn net_parts(n: ProxyNet) -> (bool, int, int) {
    (n.v6, n.addr as int, n.prefix_len as int)
}

/// The network that the `ipnet` crate reads from `s` (`addr/len`), as
/// family, address and prefix length; `None` where it reads none.
pub uninterp spec fn ip_net_parts(s: Seq<char>) -> Option<(bool, int, int)>;

/// Reads `s` with `ipnet`'s `<IpNet as FromStr>::from_str` and gives the
/// network's family, address and prefix length. Claimed: the result is
/// `ip_net_parts(s)`, a function of the text alone.
#[verifier::external_body]
fn parse_ip_net(s: &str) -> (r: Option<ProxyNet>)
    ensures
        match ip_net_parts(s@) {
            Some(p) => r matches Some(n) && net_parts(n) == p,
            None => r is None,
        },
{
    match s.parse::<ipnet::IpNet>() {
        Ok(ipnet::IpNet::V4(n)) => Some(ProxyNet { v6: false, addr: u32::from(n.addr()) as u128, prefix_len: n.prefix_len() }),
        Ok(ipnet::IpNet::V6(n)) => Some(ProxyNet { v6: true, addr: u128::from(n.addr()), prefix_len: n.prefix_len() }),
        Err(_) => None,
    }
}

pub open spec fn host_prefix_v6() -> Seq<char> {
    seq!['/', '1', '2', '8']
}

pub open spec fn host_prefix_v4() -> Seq<char> {
    seq!['/', '3', '2']
}

/// The network of a trusted proxy entry: the entry read as a network; else,
/// for an address alone, its host network, read as the entry with `/128`
/// (IPv6), else with `/32` (IPv4) appended.
pub open spec fn proxy_net_parts(e: Seq<char>) -> Option<(bool, int, int)> {
    match ip_net_parts(e) {
        Some(p) => Some(p),
        None => match ip_net_parts(e + host_prefix_v6()) {
            Some(p) => Some(p),
            None => ip_net_parts(e + host_prefix_v4()),
        },
    }
}

/// The network of one trusted proxy entry, as `proxy_net_parts` states.
pub fn parse_proxy_net(entry: &str) -> (r: Option<ProxyNet>)
    ensures
        match proxy_net_parts(entry@) {
            Some(p) => r matches Some(n) && net_parts(n) == p,
            None => r is None,
        },
{
    proof {
        reveal_strlit("/128");
        reveal_strlit("/32");
    }
    assert("/128"@ =~= host_prefix_v6());
    assert("/32"@ =~= host_prefix_v4());
    if let Some(n) = parse_ip_net(entry) {
        return Some(n);
    }
    let as_v6_host = concat(entry, "/128");
    if let Some(n) = parse_ip_net(as_v6_host.as_str()) {
        return Some(n);
    }
    let as_v4_host = concat(entry, "/32");
    parse_ip_net(as_v4_host.as_str())
}

/// The index of the first entry, from index `from` on, that is neither a
/// network nor an address.
pub open spec fn first_rejected_proxy(entries: Seq<Seq<char>>, from: int) -> Option<int>
    decreases entries.len() - from,
{
    if from < 0 || from >= entries.len() {
        None
    } else if proxy_net_parts(entries[from]) is None {
        Some(from)
    } else {
        first_rejected_proxy(entries, from + 1)
    }
}

/// Reads each trusted proxy entry as an IP network or an address; refused at
/// the first entry that is neither. The networks come in the entries' order.
pub fn parse_trusted_proxy_nets(entries: &Vec<String>) -> (r: Result<Vec<ProxyNet>, ConfigError>)
    ensures
        match first_rejected_proxy(strs(entries@), 0) {
            Some(i) => r == Err::<Vec<ProxyNet>, ConfigError>(ConfigError::InvalidTrustedProxy(i as usize)),
            None => r matches Ok(v) && v@.len() == entries@.len() && forall|i: int|
                0 <= i < v@.len() ==> Some(net_parts(#[trigger] v@[i])) == proxy_net_parts(entries@[i]@),
        },
{
    let ghost ev = strs(entries@);
    let mut nets: Vec<ProxyNet> = Vec::new();
    let mut i: usize = 0;
    while i < entries.len()
        invariant
            ev == strs(entries@),
            i <= entries@.len(),
            nets@.len() == i,
            forall|j: int| 0 <= j < i ==> Some(net_parts(#[trigger] nets@[j])) == proxy_net_parts(entries@[j]@),
            first_rejected_proxy(ev, 0) == first_rejected_proxy(ev, i as int),
        decreases entries@.len() - i,
    {
        assert(ev[i as int] == entries@[i as int]@);
        match parse_proxy_net(entries[i].as_str()) {
            Some(n) => nets.push(n),
            None => {
                return Err(ConfigError::InvalidTrustedProxy(i));
            },
        }
        i = i + 1;
    }
    Ok(nets)
}

} // verus!
