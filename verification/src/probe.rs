//! The readiness prober's decision logic: which resolved addresses may be
//! dialled, which one becomes the connect target, and when the two-stage
//! probe counts as ready.
//!
//! The harness resolves the host name, makes the TCP connect attempts and
//! the HTTP request; every choice between their outcomes is made here.

use vstd::prelude::*;

verus! {

/// A resolved network address, as plain numbers.
#[derive(Clone, Copy, Debug, PartialEq, Eq, Structural)]
pub enum IpAddress {
    /// A version-4 address, one octet per field.
    V4(u8, u8, u8, u8),
    /// A version-6 address, one sixteen-bit group per field.
    V6(u16, u16, u16, u16, u16, u16, u16, u16),
}

impl IpAddress {
    /// The unspecified wildcard: all-zeros, in either version.  It means
    /// "every local interface" and is not itself dialable.
    pub open spec fn spec_is_unspecified(self) -> bool {
        match self {
            IpAddress::V4(a, b, c, d) => a == 0 && b == 0 && c == 0 && d == 0,
            IpAddress::V6(a, b, c, d, e, f, g, h) => a == 0 && b == 0 && c == 0 && d == 0 && e
                == 0 && f == 0 && g == 0 && h == 0,
        }
    }

    pub fn is_unspecified(&self) -> (r: bool)
        ensures
            r == self.spec_is_unspecified(),
    {
        match self {
            IpAddress::V4(a, b, c, d) => *a == 0 && *b == 0 && *c == 0 && *d == 0,
            IpAddress::V6(a, b, c, d, e, f, g, h) => *a == 0 && *b == 0 && *c == 0 && *d == 0
                && *e == 0 && *f == 0 && *g == 0 && *h == 0,
        }
    }
}

/// An address/port pair a TCP connect can be attempted against.
#[derive(Clone, Copy, Debug, PartialEq, Eq, Structural)]
pub struct Endpoint {
    pub ip: IpAddress,
    pub port: u16,
}

/// The loopback fallback endpoint on a given port.
pub open spec fn spec_loopback(port: u16) -> Endpoint {
    Endpoint { ip: IpAddress::V4(127, 0, 0, 1), port }
}

pub fn loopback_endpoint(port: u16) -> (e: Endpoint)
    ensures
        e == spec_loopback(port),
{
    Endpoint { ip: IpAddress::V4(127, 0, 0, 1), port }
}

/// The dialable subsequence of a resolution result: the addresses that are
/// not the unspecified wildcard, in the order the resolver gave them.
pub open spec fn spec_dialable(addrs: Seq<Endpoint>) -> Seq<Endpoint>
    decreases addrs.len(),
{
    if addrs.len() == 0 {
        Seq::empty()
    } else {
        let rest = spec_dialable(addrs.drop_last());
        if addrs.last().ip.spec_is_unspecified() {
            rest
        } else {
            rest.push(addrs.last())
        }
    }
}

/// No dialable address is the unspecified wildcard.
pub proof fn lemma_dialable_excludes_wildcards(addrs: Seq<Endpoint>)
    ensures
        forall|i: int|
            0 <= i < spec_dialable(addrs).len() ==> !(#[trigger] spec_dialable(
                addrs,
            )[i]).ip.spec_is_unspecified(),
    decreases addrs.len(),
{
    if addrs.len() > 0 {
        lemma_dialable_excludes_wildcards(addrs.drop_last());
    }
}

/// The ordered list of connect candidates: the dialable part of what the
/// resolver returned, or the loopback endpoint alone when resolution failed.
pub open spec fn spec_candidates(resolved: Option<Seq<Endpoint>>, port: u16) -> Seq<Endpoint> {
    match resolved {
        Some(addrs) => spec_dialable(addrs),
        None => seq![spec_loopback(port)],
    }
}

/// Turns a resolution result into the ordered connect candidates, dropping
/// every wildcard address and falling back to loopback when the resolver
/// returned nothing at all.
pub fn probe_candidates(resolved: Option<Vec<Endpoint>>, port: u16) -> (c: Vec<Endpoint>)
    ensures
        resolved matches Some(addrs) ==> c@ == spec_candidates(Some(addrs@), port),
        resolved is None ==> c@ == spec_candidates(None, port),
{
    match resolved {
        Some(addrs) => {
            let mut c: Vec<Endpoint> = Vec::new();
            let n = addrs.len();
            let mut i: usize = 0;
            while i < n
                invariant
                    i <= n,
                    n == addrs@.len(),
                    c@ == spec_dialable(addrs@.subrange(0, i as int)),
                decreases n - i,
            {
                let ghost prefix = addrs@.subrange(0, i as int);
                let ghost extended = addrs@.subrange(0, i + 1 as int);
                proof {
                    assert(extended.drop_last() =~= prefix);
                    assert(extended.last() == addrs@[i as int]);
                }
                if !addrs[i].ip.is_unspecified() {
                    c.push(addrs[i]);
                }
                i += 1;
            }
            proof {
                assert(addrs@.subrange(0, n as int) =~= addrs@);
            }
            c
        },
        None => {
            let mut c: Vec<Endpoint> = Vec::new();
            c.push(loopback_endpoint(port));
            proof {
                assert(c@ =~= seq![spec_loopback(port)]);
            }
            c
        },
    }
}

/// The endpoint the final TCP verification dials: the first candidate whose
/// connect attempt succeeded, or the loopback fallback when none did.
pub open spec fn spec_target(candidates: Seq<Endpoint>, first_ok: Option<int>, port: u16) -> Endpoint {
    match first_ok {
        Some(i) => if 0 <= i < candidates.len() {
            candidates[i]
        } else {
            spec_loopback(port)
        },
        None => spec_loopback(port),
    }
}

/// Picks the connect target from the candidates and the index of the first
/// successful connect attempt, if any.
pub fn select_target(candidates: &Vec<Endpoint>, first_ok: Option<usize>, port: u16) -> (t:
    Endpoint)
    ensures
        first_ok matches Some(i) ==> t == spec_target(candidates@, Some(i as int), port),
        first_ok is None ==> t == spec_target(candidates@, None, port),
{
    match first_ok {
        Some(i) => if i < candidates.len() {
            candidates[i]
        } else {
            loopback_endpoint(port)
        },
        None => loopback_endpoint(port),
    }
}

/// A wildcard address is never selected as the connect target: whatever the
/// resolver returned and whichever connect attempt succeeded first, the
/// target is either a dialable resolved address or the loopback fallback.
pub proof fn lemma_wildcard_never_selected(
    resolved: Option<Seq<Endpoint>>,
    port: u16,
    first_ok: Option<int>,
)
    ensures
        !spec_target(spec_candidates(resolved, port), first_ok, port).ip.spec_is_unspecified(),
{
    if resolved is Some {
        lemma_dialable_excludes_wildcards(resolved->0);
    }
}

/// When the probe counts the server as ready: the final TCP connect
/// succeeded and the health request came back with status 200.  Every
/// transport error, timeout or other status reads as not ready.
pub open spec fn spec_ready(tcp_ok: bool, http_status: Option<u16>) -> bool {
    tcp_ok && http_status == Some(200u16)
}

/// Combines the two probe stages into the readiness answer: ready exactly
/// when the TCP verification succeeded and the health endpoint answered
/// with status 200 (`http_status` is `None` on any transport error or
/// timeout).
pub fn check_backend_ready(tcp_ok: bool, http_status: Option<u16>) -> (r: bool)
    ensures
        r == spec_ready(tcp_ok, http_status),
{
    if !tcp_ok {
        return false;
    }
    match http_status {
        Some(status) => status == 200,
        None => false,
    }
}

} // verus!
