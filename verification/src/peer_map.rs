//! A map from the URLs of peers.
use crate::url::Url;
use vstd::prelude::*;

verus! {

/// A map from the URLs of peers to what is kept for each.
#[derive(Debug)]
pub struct PeerMap<V> {
    entries: Vec<(Url, V)>,
}

/// Whether an entry for a peer stands at an index.
pub open spec fn entry_at<V>(entries: Seq<(Url, V)>, peer: Seq<char>, i: int) -> bool {
    0 <= i < entries.len() && entries[i].0@ == peer
}

/// Whether no two entries are for one peer.
pub open spec fn distinct<V>(entries: Seq<(Url, V)>) -> bool {
    forall|i: int, j: int|
        0 <= i < entries.len() && 0 <= j < entries.len() && i != j ==> #[trigger] entries[i].0@
            != #[trigger] entries[j].0@
}

/// The map that entries for distinct peers stand for.
pub open spec fn map_of<V>(entries: Seq<(Url, V)>) -> Map<Seq<char>, V> {
    Map::new(
        |peer: Seq<char>| exists|i: int| entry_at(entries, peer, i),
        |peer: Seq<char>| entries[choose|i: int| entry_at(entries, peer, i)].1,
    )
}

/// The map with something kept for a peer: what is kept already, or else a new value.
pub open spec fn keeping<V>(m: Map<Seq<char>, V>, peer: Seq<char>, new: V) -> Map<Seq<char>, V> {
    if m.contains_key(peer) {
        m
    } else {
        m.insert(peer, new)
    }
}

/// What the map holds for the peer of an entry.
proof fn entry_in_map<V>(entries: Seq<(Url, V)>, i: int)
    requires
        distinct(entries),
        0 <= i < entries.len(),
    ensures
        map_of(entries).contains_key(entries[i].0@),
        map_of(entries)[entries[i].0@] == entries[i].1,
{
    let peer = entries[i].0@;
    assert(entry_at(entries, peer, i));
    let j = choose|j: int| entry_at(entries, peer, j);
    assert(entry_at(entries, peer, j));
}

impl<V> View for PeerMap<V> {
    type V = Map<Seq<char>, V>;

    closed spec fn view(&self) -> Map<Seq<char>, V> {
        map_of(self.entries@)
    }
}

impl<V> PeerMap<V> {
    #[verifier::type_invariant]
    spec fn well_formed(self) -> bool {
        distinct(self.entries@)
    }

    /// A map without peers.
    pub fn new() -> (r: PeerMap<V>)
        ensures
            r@ == Map::<Seq<char>, V>::empty(),
    {
        let r = PeerMap { entries: Vec::new() };
        assert(r@ =~= Map::<Seq<char>, V>::empty());
        r
    }

    /// The index of the entry for a peer.
    fn find(&self, peer: &Url) -> (r: Option<usize>)
        ensures
            match r {
                Some(i) => entry_at(self.entries@, peer@, i as int) && self@.contains_key(peer@)
                    && self@[peer@] == self.entries@[i as int].1,
                None => !self@.contains_key(peer@) && forall|i: int|
                    !entry_at(self.entries@, peer@, i),
            },
    {
        proof {
            use_type_invariant(self);
        }
        let mut i: usize = 0;
        while i < self.entries.len()
            invariant
                i <= self.entries.len(),
                distinct(self.entries@),
                forall|j: int| j < i ==> !entry_at(self.entries@, peer@, j),
            decreases self.entries.len() - i,
        {
            if self.entries[i].0.same(peer) {
                proof {
                    entry_in_map(self.entries@, i as int);
                }
                return Some(i);
            }
            i += 1;
        }
        None
    }

    /// What is kept for a peer.
    pub fn get(&self, peer: &Url) -> (r: Option<&V>)
        ensures
            match r {
                Some(v) => self@.contains_key(peer@) && *v == self@[peer@],
                None => !self@.contains_key(peer@),
            },
    {
        match self.find(peer) {
            Some(i) => Some(&self.entries[i].1),
            None => None,
        }
    }

    /// Keeps a value for a peer. Hands out what was kept before.
    pub fn insert(&mut self, peer: Url, value: V) -> (r: Option<V>)
        ensures
            final(self)@ == old(self)@.insert(peer@, value),
            match r {
                Some(v) => old(self)@.contains_key(peer@) && v == old(self)@[peer@],
                None => !old(self)@.contains_key(peer@),
            },
    {
        let before = self.remove(&peer);
        let ghost bare = self@;
        proof {
            use_type_invariant(&*self);
        }
        let ghost key = peer@;
        let mut entries: Vec<(Url, V)> = Vec::new();
        core::mem::swap(&mut entries, &mut self.entries);
        let ghost kept = entries@;
        entries.push((peer, value));
        proof {
            assert forall|i: int| 0 <= i < kept.len() implies kept[i].0@ != key by {
                if kept[i].0@ == key {
                    entry_in_map(kept, i);
                }
            }
            assert forall|p: Seq<char>| #[trigger]
                map_of(entries@).contains_key(p) <==> bare.insert(key, value).contains_key(p) by {
                if bare.contains_key(p) {
                    let i = choose|i: int| entry_at(kept, p, i);
                    assert(entry_at(entries@, p, i));
                }
                if map_of(entries@).contains_key(p) {
                    let i = choose|i: int| entry_at(entries@, p, i);
                    assert(i < kept.len() ==> entry_at(kept, p, i));
                }
                assert(entry_at(entries@, key, kept.len() as int));
            }
            assert forall|p: Seq<char>| #[trigger] map_of(entries@).contains_key(p) implies map_of(
                entries@,
            )[p] == bare.insert(key, value)[p] by {
                let i = choose|i: int| entry_at(entries@, p, i);
                entry_in_map(entries@, i);
                if i < kept.len() {
                    entry_in_map(kept, i);
                }
            }
            assert(map_of(entries@) =~= bare.insert(key, value));
            assert(bare.insert(key, value) =~= old(self)@.insert(key, value));
        }
        self.entries = entries;
        before
    }

    /// Keeps nothing for a peer any more. Hands out what was kept before.
    pub fn remove(&mut self, peer: &Url) -> (r: Option<V>)
        ensures
            final(self)@ == old(self)@.remove(peer@),
            match r {
                Some(v) => old(self)@.contains_key(peer@) && v == old(self)@[peer@],
                None => !old(self)@.contains_key(peer@),
            },
    {
        proof {
            use_type_invariant(&*self);
        }
        match self.find(peer) {
            None => {
                assert(self@.remove(peer@) =~= self@);
                None
            },
            Some(i) => {
                let mut entries: Vec<(Url, V)> = Vec::new();
                core::mem::swap(&mut entries, &mut self.entries);
                let ghost all = entries@;
                let (_, value) = entries.remove(i);
                proof {
                    let left = entries@;
                    assert forall|j: int| 0 <= j < left.len() implies left[j] == all[if j < i {
                        j
                    } else {
                        j + 1
                    }] by {}
                    assert(distinct(left));
                    assert forall|p: Seq<char>| #[trigger]
                        map_of(left).contains_key(p) <==> map_of(all).remove(peer@).contains_key(
                            p,
                        ) by {
                        if map_of(left).contains_key(p) {
                            let j = choose|j: int| entry_at(left, p, j);
                            assert(entry_at(
                                all,
                                p,
                                if j < i {
                                    j
                                } else {
                                    j + 1
                                },
                            ));
                        }
                        if map_of(all).contains_key(p) && p != peer@ {
                            let j = choose|j: int| entry_at(all, p, j);
                            assert(entry_at(
                                left,
                                p,
                                if j < i {
                                    j
                                } else {
                                    j - 1
                                },
                            ));
                        }
                    }
                    assert forall|p: Seq<char>| #[trigger]
                        map_of(left).contains_key(p) implies map_of(left)[p] == map_of(all)[p] by {
                        let j = choose|j: int| entry_at(left, p, j);
                        entry_in_map(left, j);
                        entry_in_map(
                            all,
                            if j < i {
                                j
                            } else {
                                j + 1
                            },
                        );
                    }
                    assert(map_of(left) =~= map_of(all).remove(peer@));
                }
                self.entries = entries;
                Some(value)
            },
        }
    }

    /// What is kept for a peer. Where nothing is, keeps a new value.
    pub fn get_or_insert(&mut self, peer: &Url, new: V) -> (r: &V)
        ensures
            final(self)@ == keeping(old(self)@, peer@, new),
            *r == final(self)@[peer@],
    {
        if self.find(peer).is_none() {
            self.insert(peer.clone(), new);
        }
        let i: usize = match self.find(peer) {
            Some(i) => i,
            None => 0,
        };
        &self.entries[i].1
    }

    /// The peers and what is kept for each, in no particular order.
    pub fn entries(&self) -> (r: &Vec<(Url, V)>)
        ensures
            distinct(r@),
            map_of(r@) == self@,
    {
        proof {
            use_type_invariant(self);
        }
        &self.entries
    }

    /// The peers, in no particular order.
    pub fn get_connected_peers(&self) -> (r: Vec<Url>)
        ensures
            forall|i: int, j: int|
                0 <= i < r@.len() && 0 <= j < r@.len() && i != j ==> #[trigger] r@[i]@
                    != #[trigger] r@[j]@,
            forall|p: Seq<char>| #[trigger]
                self@.contains_key(p) <==> exists|i: int| 0 <= i < r@.len() && r@[i]@ == p,
    {
        proof {
            use_type_invariant(self);
        }
        let mut r: Vec<Url> = Vec::new();
        let mut i: usize = 0;
        while i < self.entries.len()
            invariant
                i <= self.entries.len(),
                r@.len() == i,
                forall|j: int| 0 <= j < i ==> (#[trigger] r@[j])@ == self.entries@[j].0@,
            decreases self.entries.len() - i,
        {
            r.push(self.entries[i].0.clone());
            i += 1;
        }
        proof {
            assert forall|p: Seq<char>| #[trigger] self@.contains_key(p) implies exists|i: int|
                0 <= i < r@.len() && r@[i]@ == p by {
                let i = choose|i: int| entry_at(self.entries@, p, i);
                assert(r@[i]@ == p);
            }
            assert forall|p: Seq<char>|
                (exists|i: int| 0 <= i < r@.len() && r@[i]@ == p) implies #[trigger] self@.contains_key(
                p,
            ) by {
                let i = choose|i: int| 0 <= i < r@.len() && r@[i]@ == p;
                entry_in_map(self.entries@, i);
            }
        }
        r
    }

    /// Empties the map, and hands out what was kept in it.
    pub fn drain(&mut self) -> (r: Vec<(Url, V)>)
        ensures
            final(self)@ == Map::<Seq<char>, V>::empty(),
            distinct(r@),
            map_of(r@) == old(self)@,
    {
        proof {
            use_type_invariant(&*self);
        }
        let mut r: Vec<(Url, V)> = Vec::new();
        core::mem::swap(&mut r, &mut self.entries);
        assert(self@ =~= Map::<Seq<char>, V>::empty());
        r
    }
}

} // verus!
