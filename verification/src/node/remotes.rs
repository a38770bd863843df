//! Remote peers known to a node: connected ones with their inbox, and those
//! scheduled for disconnection.
use std::collections::HashMap;
use vstd::prelude::*;
use vstd::std_specs::cmp::PartialEqSpec;
use vstd::std_specs::hash::spec_hash_map_iter;
use vstd::std_specs::iter::IteratorSpec;

use crate::frame::Marshaller;
use crate::Direction;

verus! {

broadcast use vstd::std_specs::hash::group_hash_axioms;

/// Reactor resource id of a connection.
pub type ResId = u64;

/// Why a remote was disconnected.
#[derive(Clone, Debug)]
pub enum DisconnectReason {
    /// Error while dialing the remote. This error occurs before a connection is
    /// even established. Errors of this kind are usually not transient.
    Dial(String),
    /// Error with an underlying established connection. Sometimes, reconnecting
    /// after such an error is possible.
    Connection(String),
    /// Session error.
    Session(String),
    /// Session conflicts with existing session.
    Conflict,
    /// Connection to self.
    SelfConnection,
    /// User requested disconnect.
    Command,
}

/// An outbound connection attempt.
#[derive(Debug)]
pub struct Outbound<A, I> {
    /// Resource ID, if registered.
    pub res_id: Option<ResId>,
    /// Remote address.
    pub addr: A,
    /// Remote identity
    pub id: I,
}

/// An accepted inbound connection.
#[derive(Debug)]
pub struct Inbound<A> {
    /// Resource ID, if registered.
    pub res_id: Option<ResId>,
    /// Remote address.
    pub addr: A,
}

/// The resource ids under which `m` holds a connected remote.
pub open spec fn connected_keys<A, I>(m: Map<ResId, Remote<A, I>>) -> Set<ResId> {
    m.dom().filter(|k: ResId| m[k] is Connected)
}

/// Whether `v` lists the connected remotes of `m`, each with its identity
/// and link direction: every entry is one of them, every one of them is an
/// entry, and no resource id is listed twice.
pub open spec fn lists_connected<A, I>(m: Map<ResId, Remote<A, I>>, v: Seq<(ResId, I, Direction)>) -> bool {
    &&& forall|j: int|
        0 <= j < v.len() ==> {
            let (k, i, d) = #[trigger] v[j];
            &&& m.contains_key(k)
            &&& m[k] matches Remote::Connected { id, direction, .. }
            &&& id == i
            &&& direction == d
        }
    &&& forall|k: ResId| #[trigger]
        m.contains_key(k) ==> (m[k] matches Remote::Connected { id, direction, .. } ==> v.contains(
            (k, id, direction),
        ))
    &&& forall|a: int, b: int| 0 <= a < b < v.len() ==> (#[trigger] v[a]).0 != (#[trigger] v[b]).0
}

/// Listing the active remotes lists each connected remote exactly once:
/// the list is as long as the registry holds connected remotes, and its
/// resource ids are those of the connected remotes.
pub proof fn lemma_active_lists_each_once<A, I>(m: Map<ResId, Remote<A, I>>, v: Seq<(ResId, I, Direction)>)
    requires
        lists_connected(m, v),
    ensures
        v.len() == connected_keys(m).len(),
        v.map_values(|t: (ResId, I, Direction)| t.0).to_set() == connected_keys(m),
{
    let ks = v.map_values(|t: (ResId, I, Direction)| t.0);
    assert forall|a: int, b: int| 0 <= a < ks.len() && 0 <= b < ks.len() && a != b implies ks[a] != ks[b] by {
        if a < b {
            assert(v[a].0 != v[b].0);
        } else {
            assert(v[b].0 != v[a].0);
        }
    }
    assert(ks.no_duplicates());
    ks.unique_seq_to_set();
    assert forall|k: ResId| ks.to_set().contains(k) <==> connected_keys(m).contains(k) by {
        if ks.to_set().contains(k) {
            assert(ks.contains(k));
            let j = choose|j: int| 0 <= j < ks.len() && ks[j] == k;
            assert(v[j].0 == k);
        }
        if connected_keys(m).contains(k) {
            match m[k] {
                Remote::Connected { id, direction, .. } => {
                    assert(v.contains((k, id, direction)));
                    let j = choose|j: int| 0 <= j < v.len() && v[j] == (k, id, direction);
                    assert(ks[j] == k);
                    assert(ks.contains(k));
                },
                _ => {},
            }
        }
    }
    assert(ks.to_set() =~= connected_keys(m));
}

/// A remote peer with an established session.
pub enum Remote<A, I> {
    /// The state after handshake is completed. Remotes in this state are handled by the underlying
    /// processor.
    Connected { addr: A, id: I, inbox: Marshaller, direction: Direction },
    /// The peer was scheduled for disconnection. Once the transport is handed over
    /// by the reactor, we can consider it disconnected.
    Disconnecting { id: Option<I>, reason: DisconnectReason, direction: Direction },
}

/// Identity of a remote, if known.
pub open spec fn remote_id<A, I>(r: Remote<A, I>) -> Option<I> {
    match r {
        Remote::Connected { id, .. } => Some(id),
        Remote::Disconnecting { id, .. } => id,
    }
}

/// Direction of the link with a remote.
pub open spec fn remote_direction<A, I>(r: Remote<A, I>) -> Direction {
    match r {
        Remote::Connected { direction, .. } => direction,
        Remote::Disconnecting { direction, .. } => direction,
    }
}

impl<A, I> Remote<A, I> {
    /// Return the remote id, if any.
    pub fn id(&self) -> (r: Option<&I>)
        ensures
            match remote_id(*self) {
                Some(i) => r == Some(&i),
                None => r is None,
            },
    {
        match self {
            Remote::Connected { id, .. } => Some(id),
            Remote::Disconnecting { id, .. } => match id {
                Some(id) => Some(id),
                None => None,
            },
        }
    }

    /// The address of a connected remote.
    pub fn addr(&self) -> (r: Option<&A>)
        ensures
            match *self {
                Remote::Connected { addr, .. } => r == Some(&addr),
                Remote::Disconnecting { .. } => r is None,
            },
    {
        match self {
            Remote::Connected { addr, .. } => Some(addr),
            Remote::Disconnecting { .. } => None,
        }
    }

    /// Direction of the link.
    pub fn direction(&self) -> (d: Direction)
        ensures
            d == remote_direction(*self),
    {
        match self {
            Remote::Connected { direction, .. } => *direction,
            Remote::Disconnecting { direction, .. } => *direction,
        }
    }

    /// Connected remote with an empty inbox.
    pub fn connected(id: I, addr: A, direction: Direction) -> (r: Self)
        ensures
            r matches Remote::Connected { addr: a, id: i, inbox, direction: d } && a == addr && i
                == id && d == direction && inbox.read_bytes() == Seq::<u8>::empty()
                && inbox.write_bytes() == Seq::<u8>::empty(),
    {
        Remote::Connected { direction, addr, id, inbox: Marshaller::new() }
    }
}

/// Remotes of a node by the resource id of their connection.
pub struct Remotes<A, I>(HashMap<ResId, Remote<A, I>>);

impl<A, I: Copy + PartialEq> Remotes<A, I> {
    /// The remotes by resource id.
    pub closed spec fn map(&self) -> Map<ResId, Remote<A, I>> {
        self.0@
    }

    /// No remotes.
    pub fn new() -> (r: Self)
        ensures
            r.map() == Map::<ResId, Remote<A, I>>::empty(),
    {
        Remotes(HashMap::new())
    }

    /// The remote with the given resource id.
    pub fn get(&self, res_id: &ResId) -> (r: Option<&Remote<A, I>>)
        ensures
            match r {
                Some(p) => self.map().contains_key(*res_id) && *p == self.map()[*res_id],
                None => !self.map().contains_key(*res_id),
            },
    {
        self.0.get(res_id)
    }

    /// Adds a remote, replacing the remote with the same resource id.
    pub fn insert(&mut self, res_id: ResId, peer: Remote<A, I>)
        ensures
            final(self).map() == old(self).map().insert(res_id, peer),
    {
        let _ = self.0.insert(res_id, peer);
    }

    /// Removes the remote with the given resource id.
    pub fn remove(&mut self, res_id: &ResId) -> (r: Option<Remote<A, I>>)
        ensures
            final(self).map() == old(self).map().remove(*res_id),
            match r {
                Some(p) => old(self).map().contains_key(*res_id) && p == old(self).map()[*res_id],
                None => !old(self).map().contains_key(*res_id),
            },
    {
        self.0.remove(res_id)
    }

    /// Finds a remote with the given identity.
    pub fn lookup(&self, id: &I) -> (r: Option<(ResId, &Remote<A, I>)>)
        ensures
            match r {
                Some((k, p)) => self.map().contains_key(k) && *p == self.map()[k] && (
                I::obeys_eq_spec() ==> (remote_id(*p) matches Some(i) && i.eq_spec(id))),
                None => I::obeys_eq_spec() ==> forall|k: ResId| #[trigger]
                    self.map().contains_key(k) ==> !(remote_id(self.map()[k]) matches Some(i)
                        && i.eq_spec(id)),
            },
    {
        let ghost m = self.0@;
        let ghost all = spec_hash_map_iter(&self.0).remaining();
        for entry in it: self.0.iter()
            invariant
                m == self.0@,
                it.seq() == all,
                I::obeys_eq_spec() ==> forall|j: int|
                    0 <= j < it.index() ==> !(remote_id(*(#[trigger] all[j]).1) matches Some(i)
                        && i.eq_spec(id)),
        {
            let (k, remote) = entry;
            proof {
                assert(m.contains_key(*k) && m[*k] == *remote);
            }
            match remote.id() {
                Some(rid) => {
                    if *rid == *id {
                        return Some((*k, remote));
                    }
                },
                None => {},
            }
        }
        proof {
            if I::obeys_eq_spec() {
                assert forall|k: ResId| #[trigger] m.contains_key(k) implies !(remote_id(
                    m[k],
                ) matches Some(i) && i.eq_spec(id)) by {
                    assert(all.contains((&k, &m[k])));
                    let j = choose|j: int| 0 <= j < all.len() && all[j] == (&k, &m[k]);
                    assert(!(remote_id(*all[j].1) matches Some(i) && i.eq_spec(id)));
                }
            }
        }
        None
    }

    /// The connected remotes: resource id, identity and link direction.
    pub fn active(&self) -> (v: Vec<(ResId, I, Direction)>)
        ensures
            forall|j: int|
                0 <= j < v@.len() ==> {
                    let (k, i, d) = #[trigger] v@[j];
                    &&& self.map().contains_key(k)
                    &&& self.map()[k] matches Remote::Connected { id, direction, .. }
                    &&& id == i
                    &&& direction == d
                },
            forall|k: ResId| #[trigger]
                self.map().contains_key(k) ==> (self.map()[k] matches Remote::Connected {
                    id,
                    direction,
                    ..
                } ==> v@.contains((k, id, direction))),
            forall|a: int, b: int| 0 <= a < b < v@.len() ==> (#[trigger] v@[a]).0 != (#[trigger] v@[b]).0,
            lists_connected(self.map(), v@),
    {
        let ghost m = self.0@;
        let ghost all = spec_hash_map_iter(&self.0).remaining();
        let mut v: Vec<(ResId, I, Direction)> = Vec::new();
        let ghost mut src: Seq<int> = Seq::empty();
        for entry in it: self.0.iter()
            invariant
                m == self.0@,
                it.seq() == all,
                forall|j: int|
                    0 <= j < v@.len() ==> {
                        let (k, i, d) = #[trigger] v@[j];
                        &&& m.contains_key(k)
                        &&& m[k] matches Remote::Connected { id, direction, .. }
                        &&& id == i
                        &&& direction == d
                    },
                forall|j: int|
                    0 <= j < it.index() ==> (*(#[trigger] all[j]).1 matches Remote::Connected {
                        id,
                        direction,
                        ..
                    } ==> v@.contains((*all[j].0, id, direction))),
                all.no_duplicates(),
                src.len() == v@.len(),
                forall|a: int| 0 <= a < v@.len() ==> 0 <= #[trigger] src[a] < it.index() && v@[a].0 == *all[src[a]].0,
                forall|a: int, b: int| 0 <= a < b < v@.len() ==> (#[trigger] v@[a]).0 != (#[trigger] v@[b]).0,
        {
            let (k, remote) = entry;
            let ghost before = v@;
            proof {
                assert(m.contains_key(*k) && m[*k] == *remote);
            }
            match remote {
                Remote::Connected { id, direction, .. } => {
                    v.push((*k, *id, *direction));
                    proof {
                        assert(v@[v@.len() - 1] == (*k, *id, *direction));
                        assert forall|j: int| 0 <= j < before.len() implies v@[j] == before[j] by {}
                        let cur = it.index();
                        assert(*all[cur].0 == *k);
                        assert forall|a: int| 0 <= a < before.len() implies (#[trigger] v@[a]).0 != *k by {
                            let j = src[a];
                            assert(m[*all[j].0] == *all[j].1);
                            assert(m[*all[cur].0] == *all[cur].1);
                            if *all[j].0 == *all[cur].0 {
                                assert(all[j] == all[cur]);
                            }
                        }
                        src = src.push(cur);
                    }
                },
                Remote::Disconnecting { .. } => {},
            }
            proof {
                assert forall|j: int|
                    0 <= j < it.index() + 1 implies (*(#[trigger] all[j]).1 matches Remote::Connected {
                        id,
                        direction,
                        ..
                    } ==> v@.contains((*all[j].0, id, direction))) by {
                    match *all[j].1 {
                        Remote::Connected { id, direction, .. } => {
                            if j < it.index() {
                                let w = choose|w: int|
                                    0 <= w < before.len() && before[w] == (*all[j].0, id, direction);
                                assert(v@[w] == before[w]);
                            } else {
                                assert(v@[v@.len() - 1] == (*all[j].0, id, direction));
                            }
                        },
                        _ => {},
                    }
                }
            }
        }
        proof {
            assert forall|k: ResId| #[trigger] m.contains_key(k) implies (m[k] matches Remote::Connected {
                id,
                direction,
                ..
            } ==> v@.contains((k, id, direction))) by {
                assert(all.contains((&k, &m[k])));
                let j = choose|j: int| 0 <= j < all.len() && all[j] == (&k, &m[k]);
            }
        }
        v
    }
}

} // verus!
