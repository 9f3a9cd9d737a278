//! The engine's socket cache: a mapping from endpoint to a reusable socket
//! handle, populated when a listener starts and consulted when a send wants
//! to reuse an already-bound local identity.
//!
//! The cache is an association list whose abstract value is a map; an
//! endpoint stored again later shadows its earlier entry, and lookups read
//! the newest entry.

use crate::endpoint::{Endpoint, EndpointView};
use crate::socket::{GenericSocket, GenericSocketView};
use vstd::prelude::*;

verus! {

/// The engine's endpoint-to-socket mapping.
#[derive(Debug)]
pub struct SocketCache {
    entries: Vec<(Endpoint, GenericSocket)>,
}

/// The map an entry list denotes: later entries win.
spec fn entries_map(s: Seq<(Endpoint, GenericSocket)>) -> Map<
    EndpointView,
    GenericSocketView,
>
    decreases s.len(),
{
    if s.len() == 0 {
        Map::empty()
    } else {
        entries_map(s.drop_last()).insert(s.last().0@, s.last().1@)
    }
}

/// Entries whose keys differ from `k` do not affect the map at `k`: the map
/// of a list agrees at `k` with the map of any prefix beyond which `k` never
/// occurs.
proof fn lemma_entries_map_agree(s: Seq<(Endpoint, GenericSocket)>, i: int, k: EndpointView)
    requires
        0 <= i <= s.len(),
        forall|j: int| i <= j < s.len() ==> (#[trigger] s[j]).0@ != k,
    ensures
        entries_map(s).contains_key(k) == entries_map(s.take(i)).contains_key(k),
        entries_map(s).contains_key(k) ==> entries_map(s)[k] == entries_map(s.take(i))[k],
    decreases s.len() - i,
{
    if i < s.len() {
        let t = s.drop_last();
        assert(s.last().0@ != k);
        assert(forall|j: int| i <= j < t.len() ==> (#[trigger] t[j]).0@ != k);
        lemma_entries_map_agree(t, i, k);
        assert(t.take(i) =~= s.take(i));
    } else {
        assert(s.take(i) =~= s);
    }
}

impl View for SocketCache {
    type V = Map<EndpointView, GenericSocketView>;

    closed spec fn view(&self) -> Map<EndpointView, GenericSocketView> {
        entries_map(self.entries@)
    }
}

impl SocketCache {
    /// An empty cache.
    pub fn new() -> (r: Self)
        ensures
            r@ == Map::<EndpointView, GenericSocketView>::empty(),
    {
        SocketCache { entries: Vec::new() }
    }

    /// Stores a socket under its endpoint, replacing what an earlier store
    /// put there.
    pub fn insert(&mut self, endpoint: Endpoint, socket: GenericSocket)
        ensures
            final (self)@ == old(self)@.insert(endpoint@, socket@),
    {
        self.entries.push((endpoint, socket));
        proof {
            assert(self.entries@.drop_last() =~= old(self).entries@);
        }
    }

    /// Looks an endpoint up, returning the socket stored most recently under
    /// it.
    pub fn get(&self, endpoint: &Endpoint) -> (r: Option<&GenericSocket>)
        ensures
            match r {
                Some(s) => self@.contains_key(endpoint@) && s@ == self@[endpoint@],
                None => !self@.contains_key(endpoint@),
            },
    {
        let ghost k = endpoint@;
        let n = self.entries.len();
        let mut i = n;
        while i > 0
            invariant
                0 <= i <= n,
                n == self.entries@.len(),
                k == endpoint@,
                forall|j: int| i <= j < n ==> (#[trigger] self.entries@[j]).0@ != k,
            decreases i,
        {
            i = i - 1;
            if self.entries[i].0 == *endpoint {
                proof {
                    lemma_entries_map_agree(self.entries@, i + 1, k);
                    let t = self.entries@.take(i + 1);
                    assert(t.drop_last() =~= self.entries@.take(i as int));
                    assert(t.last() == self.entries@[i as int]);
                }
                return Some(&self.entries[i].1);
            }
        }
        proof {
            lemma_entries_map_agree(self.entries@, 0, k);
            assert(self.entries@.take(0) =~= Seq::<(Endpoint, GenericSocket)>::empty());
        }
        None
    }
}

} // verus!
