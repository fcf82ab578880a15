use vstd::prelude::*;
use crate::text::{is_trim_of, trim_white_space};

verus! {

/// An IP address as the rate limiter keys it: the address family and its bits.
#[derive(Clone, Copy, Debug, PartialEq, Eq, Structural)]
pub enum IpAddress {
    V4(u32),
    V6(u128),
}

impl IpAddress {
    /// The integer key under which this address is tracked: 4 or 6, then the bits.
    pub open spec fn spec_key(self) -> (u8, u128) {
        match self {
            IpAddress::V4(bits) => (4u8, bits as u128),
            IpAddress::V6(bits) => (6u8, bits),
        }
    }

    /// The integer key under which this address is tracked.
    pub fn key(&self) -> (r: (u8, u128))
        ensures
            r == self.spec_key(),
    {
        match *self {
            IpAddress::V4(bits) => (4u8, bits as u128),
            IpAddress::V6(bits) => (6u8, bits),
        }
    }
}

/// The loopback address 127.0.0.1, used when a request reveals no address.
pub const LOOPBACK_V4: u32 = 0x7f000001;

/// The text before the first comma of `s`, or all of `s` if it has none.
pub open spec fn first_list_item(s: Seq<char>) -> Seq<char> {
    if exists|i: int| 0 <= i < s.len() && s[i] == ',' {
        let i = choose|i: int| 0 <= i < s.len() && s[i] == ',' && forall|j: int| 0 <= j < i ==> s[j] != ',';
        s.subrange(0, i)
    } else {
        s
    }
}

/// The address text that an `X-Forwarded-For` header names first: its first
/// comma-separated item, trimmed.
pub fn forwarded_for_candidate(header: &str) -> (r: &str)
    ensures
        is_trim_of(r@, first_list_item(header@)),
{
    let n = header.unicode_len();
    let mut i: usize = 0;
    while i < n
        invariant
            n == header@.len(),
            i <= n,
            forall|j: int| 0 <= j < i ==> header@[j] != ',',
        decreases n - i,
    {
        if header.get_char(i) == ',' {
            let first = header.substring_char(0, i);
            proof {
                let s = header@;
                let k = choose|k: int| 0 <= k < s.len() && s[k] == ',' && forall|j: int| 0 <= j < k ==> s[j] != ',';
                assert(k == i) by {
                    if k < i {
                    } else if k > i {
                        assert(s[i as int] == ',');
                    }
                }
            }
            return trim_white_space(first);
        }
        i = i + 1;
    }
    trim_white_space(header)
}

/// The address text of an `X-Real-IP` header: the header, trimmed.
pub fn real_ip_candidate(header: &str) -> (r: &str)
    ensures
        is_trim_of(r@, header@),
{
    trim_white_space(header)
}

/// The address a request is tracked under, if any can be found: the forwarded-for
/// address first, then the real-IP address, then the connection's peer address.
/// Each argument is `None` where its source is absent or does not parse.
pub fn extract_client_ip(
    forwarded_for: Option<IpAddress>,
    real_ip: Option<IpAddress>,
    remote: Option<IpAddress>,
) -> (r: Option<IpAddress>)
    ensures
        r == extract_client_ip_spec(forwarded_for, real_ip, remote),
{
    match forwarded_for {
        Some(ip) => Some(ip),
        None => match real_ip {
            Some(ip) => Some(ip),
            None => remote,
        },
    }
}

/// The address a request is tracked under: as `extract_client_ip`, with the
/// loopback address where nothing else is known.
pub fn client_ip_or_loopback(
    forwarded_for: Option<IpAddress>,
    real_ip: Option<IpAddress>,
    remote: Option<IpAddress>,
) -> (r: IpAddress)
    ensures
        r == resolved_client_ip(forwarded_for, real_ip, remote),
{
    match extract_client_ip(forwarded_for, real_ip, remote) {
        Some(ip) => ip,
        None => IpAddress::V4(LOOPBACK_V4),
    }
}

/// The address that `client_ip_or_loopback` picks.
pub open spec fn resolved_client_ip(
    forwarded_for: Option<IpAddress>,
    real_ip: Option<IpAddress>,
    remote: Option<IpAddress>,
) -> IpAddress {
    match extract_client_ip_spec(forwarded_for, real_ip, remote) {
        Some(ip) => ip,
        None => IpAddress::V4(LOOPBACK_V4),
    }
}

/// The address that `extract_client_ip` picks.
pub open spec fn extract_client_ip_spec(
    forwarded_for: Option<IpAddress>,
    real_ip: Option<IpAddress>,
    remote: Option<IpAddress>,
) -> Option<IpAddress> {
    if forwarded_for is Some {
        forwarded_for
    } else if real_ip is Some {
        real_ip
    } else {
        remote
    }
}

} // verus!
