//! The peer-discovery reconciler: a live, deduplicated view of the
//! hosts visible on the LAN.
//!
//! Peers are added when their service record resolves, keyed by
//! address, and removed when a record named by service name goes away —
//! the two event kinds carry different identifying fields, a quirk of
//! the underlying protocol that is preserved here deliberately.

use vstd::prelude::*;
use crate::models::{clone_hosts, ConnectionInfo};

verus! {

/// One peer lifecycle notice, reduced to the fields the reconciler
/// reads.
pub enum DiscoveryEvent {
    /// A record resolved: first advertised address, serving port, and
    /// fully-qualified service name.
    Resolved(String, u16, String),
    /// The record with this service name went away.
    Removed(String),
    /// Any other notice; ignored.
    Other,
}

/// True when some entry of `s` advertises address `ip`.
pub open spec fn has_ip(s: Seq<ConnectionInfo>, ip: Seq<char>) -> bool {
    exists|i: int| 0 <= i < s.len() && s[i].ip@ == ip
}

/// True when no two entries of `s` share an address.
pub open spec fn distinct_ips(s: Seq<ConnectionInfo>) -> bool {
    forall|i: int, j: int| 0 <= i < j < s.len() ==> s[i].ip@ != s[j].ip@
}

/// The set of peers currently visible.
pub struct DiscoveryState {
    hosts: Vec<ConnectionInfo>,
}

impl DiscoveryState {
    pub closed spec fn view(&self) -> Seq<ConnectionInfo> {
        self.hosts@
    }

    /// No peers seen yet.
    pub fn new() -> (r: DiscoveryState)
        ensures
            r@ == Seq::<ConnectionInfo>::empty(),
    {
        DiscoveryState { hosts: Vec::new() }
    }

    /// The visible peers, in the order they were first seen.
    pub fn hosts_snapshot(&self) -> (r: Vec<ConnectionInfo>)
        ensures
            r@ == self@,
    {
        clone_hosts(&self.hosts)
    }

    /// Reconcile one lifecycle notice, and say whether the set changed
    /// (a change is what prompts republishing the list to observers).
    /// A resolved peer is appended unless an entry already has its
    /// address; a removal drops every entry carrying the removed
    /// service name; other notices do nothing.
    pub fn handle_event(&mut self, event: DiscoveryEvent) -> (changed: bool)
        ensures
            event matches DiscoveryEvent::Resolved(ip, port, name) ==> (if has_ip(
                old(self)@,
                ip@,
            ) {
                final(self)@ == old(self)@ && !changed
            } else {
                final(self)@ == old(self)@.push(
                    (ConnectionInfo { ip, port, hostname: name, pin: None }),
                ) && changed
            }),
            event matches DiscoveryEvent::Removed(name) ==> final(self)@ == old(self)@.filter(
                |h: ConnectionInfo| h.hostname@ != name@,
            ) && changed == (final(self)@.len() != old(self)@.len()),
            event matches DiscoveryEvent::Other ==> final(self)@ == old(self)@ && !changed,
    {
        match event {
            DiscoveryEvent::Resolved(ip, port, name) => {
                let n = self.hosts.len();
                let mut i: usize = 0;
                while i < n
                    invariant
                        n == self@.len(),
                        self@ == old(self)@,
                        event matches DiscoveryEvent::Resolved(e_ip, e_port, e_name) && e_ip
                            == ip && e_port == port && e_name == name,
                        i <= n,
                        forall|j: int| 0 <= j < i ==> self@[j].ip@ != ip@,
                    decreases n - i,
                {
                    if self.hosts[i].ip == ip {
                        proof {
                            assert(has_ip(self@, ip@));
                        }
                        return false;
                    }
                    i += 1;
                }
                proof {
                    assert(!has_ip(self@, ip@));
                }
                self.hosts.push(ConnectionInfo { ip, port, hostname: name, pin: None });
                true
            },
            DiscoveryEvent::Removed(name) => {
                let ghost s = self@;
                let ghost pred = |h: ConnectionInfo| h.hostname@ != name@;
                let n = self.hosts.len();
                let mut kept: Vec<ConnectionInfo> = Vec::new();
                let mut i: usize = 0;
                while i < n
                    invariant
                        n == s.len(),
                        self@ == s,
                        s == old(self)@,
                        event matches DiscoveryEvent::Removed(e_name) && e_name == name,
                        pred == (|h: ConnectionInfo| h.hostname@ != name@),
                        i <= n,
                        kept@ == s.take(i as int).filter(pred),
                    decreases n - i,
                {
                    proof {
                        reveal(Seq::filter);
                        assert(s.take(i + 1 as int).drop_last() =~= s.take(i as int));
                        assert(s.take(i + 1 as int).last() == s[i as int]);
                    }
                    if !(self.hosts[i].hostname == name) {
                        kept.push(self.hosts[i].duplicate());
                    }
                    i += 1;
                }
                proof {
                    assert(s.take(n as int) =~= s);
                }
                let shrank = kept.len() != self.hosts.len();
                self.hosts = kept;
                shrank
            },
            DiscoveryEvent::Other => false,
        }
    }
}

/// Every element of a filtered sequence comes from the original.
proof fn lemma_filter_elements_from(s: Seq<ConnectionInfo>, pred: spec_fn(ConnectionInfo) -> bool)
    ensures
        forall|i: int| 0 <= i < s.filter(pred).len() ==> s.contains(#[trigger] s.filter(pred)[i]),
    decreases s.len(),
{
    reveal(Seq::filter);
    if s.len() > 0 {
        let d = s.drop_last();
        lemma_filter_elements_from(d, pred);
        assert forall|i: int| 0 <= i < s.filter(pred).len() implies s.contains(
            #[trigger] s.filter(pred)[i],
        ) by {
            let x = s.filter(pred)[i];
            if pred(s.last()) && i == s.filter(pred).len() - 1 {
                assert(x == s.last());
                assert(s[s.len() - 1] == x);
            } else {
                assert(d.filter(pred)[i] == x);
                assert(d.contains(x));
                let j = choose|j: int| 0 <= j < d.len() && d[j] == x;
                assert(s[j] == x);
            }
        }
    }
}

/// Removing peers by name never makes two remaining entries share an
/// address.
pub proof fn lemma_removal_keeps_distinct_ips(
    s: Seq<ConnectionInfo>,
    pred: spec_fn(ConnectionInfo) -> bool,
)
    requires
        distinct_ips(s),
    ensures
        distinct_ips(s.filter(pred)),
    decreases s.len(),
{
    reveal(Seq::filter);
    if s.len() > 0 {
        let d = s.drop_last();
        assert(distinct_ips(d)) by {
            assert(forall|i: int| 0 <= i < d.len() ==> d[i] == s[i]);
        }
        lemma_removal_keeps_distinct_ips(d, pred);
        if pred(s.last()) {
            lemma_filter_elements_from(d, pred);
            let f = s.filter(pred);
            assert(f == d.filter(pred).push(s.last()));
            assert forall|i: int, j: int| 0 <= i < j < f.len() implies f[i].ip@ != f[j].ip@ by {
                if j < f.len() - 1 {
                    assert(d.filter(pred)[i] == f[i] && d.filter(pred)[j] == f[j]);
                } else {
                    assert(f[j] == s.last());
                    assert(d.filter(pred)[i] == f[i]);
                    assert(d.contains(f[i]));
                    let k = choose|k: int| 0 <= k < d.len() && d[k] == f[i];
                    assert(s[k].ip@ != s[s.len() - 1].ip@);
                }
            }
        }
    }
}

/// Adding a peer whose address is absent never makes two entries share
/// an address: together with the removal lemma, every reconciler step
/// keeps the visible set deduplicated by address.
pub proof fn lemma_arrival_keeps_distinct_ips(s: Seq<ConnectionInfo>, c: ConnectionInfo)
    requires
        distinct_ips(s),
        !has_ip(s, c.ip@),
    ensures
        distinct_ips(s.push(c)),
{
    let t = s.push(c);
    assert forall|i: int, j: int| 0 <= i < j < t.len() implies t[i].ip@ != t[j].ip@ by {
        if j < s.len() {
            assert(s[i].ip@ != s[j].ip@);
        } else {
            assert(t[i] == s[i]);
            assert(!(exists|k: int| 0 <= k < s.len() && s[k].ip@ == c.ip@));
        }
    }
}

} // verus!
