//! Supervision links: each actor keeps the set of peers it is linked to, and
//! a terminating actor owes every peer in that set exactly one `LinkDied`
//! notification.

use vstd::prelude::*;
use crate::error::ActorStopReason;

verus! {

/// No identity occurs twice in the sequence.
pub open spec fn distinct(s: Seq<u64>) -> bool {
    forall|i: int, j: int| 0 <= i < j < s.len() ==> s[i] != s[j]
}

/// One actor's side of the supervision graph: the identities of the peers it
/// is linked to, each held at most once.
pub struct LinkRegistry {
    peers: Vec<u64>,
}

/// A `LinkDied` notification owed to one peer: `peer` is where it must be
/// delivered, `id` is the actor that terminated, `reason` is why.
pub struct LinkDiedNotice {
    pub peer: u64,
    pub id: u64,
    pub reason: ActorStopReason,
}

impl LinkRegistry {
    /// The linked peers in insertion order.
    pub closed spec fn peer_seq(&self) -> Seq<u64> {
        self.peers@
    }

    /// The set of linked peers.
    pub open spec fn peer_set(&self) -> Set<u64> {
        Set::new(|p: u64| self.peer_seq().contains(p))
    }

    /// Each peer is held at most once.
    pub open spec fn wf(&self) -> bool {
        distinct(self.peer_seq())
    }

    pub fn new() -> (r: LinkRegistry)
        ensures
            r.wf(),
            r.peer_set() == Set::<u64>::empty(),
            r.peer_seq() == Seq::<u64>::empty(),
    {
        let r = LinkRegistry { peers: Vec::new() };
        proof {
            assert(r.peer_set() =~= Set::<u64>::empty());
        }
        r
    }

    /// Whether `peer` is linked.
    pub fn contains(&self, peer: u64) -> (b: bool)
        ensures
            b == self.peer_set().contains(peer),
    {
        let mut k: usize = 0;
        while k < self.peers.len()
            invariant
                k <= self.peers.len(),
                forall|j: int| 0 <= j < k ==> self.peer_seq()[j] != peer,
            decreases self.peers.len() - k,
        {
            if self.peers[k] == peer {
                proof {
                    assert(self.peer_seq()[k as int] == peer);
                }
                return true;
            }
            k = k + 1;
        }
        proof {
            if self.peer_seq().contains(peer) {
                let i = choose|i: int|
                    0 <= i < self.peer_seq().len() && self.peer_seq()[i] == peer;
                assert(self.peer_seq()[i] != peer);
            }
        }
        false
    }

    /// Adds `peer` to the link set. Idempotent: linking an already linked
    /// peer changes nothing.
    pub fn link(&mut self, peer: u64)
        requires
            old(self).wf(),
        ensures
            final(self).wf(),
            final(self).peer_set() == old(self).peer_set().insert(peer),
    {
        let ghost pre = self.peer_seq();
        let present = self.contains(peer);
        if !present {
            self.peers.push(peer);
            proof {
                assert forall|i: int| 0 <= i < pre.len() implies pre[i] != peer by {
                    if pre[i] == peer {
                        assert(pre.contains(peer));
                    }
                }
                assert forall|p: u64|
                    self.peer_seq().contains(p) <==> (pre.contains(p) || p == peer) by {
                    if pre.contains(p) {
                        let i = choose|i: int| 0 <= i < pre.len() && pre[i] == p;
                        assert(self.peer_seq()[i] == p);
                    }
                    if p == peer {
                        assert(self.peer_seq()[pre.len() as int] == p);
                    }
                    if self.peer_seq().contains(p) {
                        let i = choose|i: int|
                            0 <= i < self.peer_seq().len() && self.peer_seq()[i] == p;
                        if i < pre.len() {
                            assert(pre[i] == p);
                        }
                    }
                }
            }
        }
        proof {
            assert(self.peer_set() =~= old(self).peer_set().insert(peer));
        }
    }

    /// Removes `peer` from the link set. Idempotent: unlinking a peer that is
    /// not linked changes nothing.
    pub fn unlink(&mut self, peer: u64)
        requires
            old(self).wf(),
        ensures
            final(self).wf(),
            final(self).peer_set() == old(self).peer_set().remove(peer),
    {
        let ghost pre = self.peer_seq();
        let mut k: usize = 0;
        while k < self.peers.len()
            invariant
                k <= self.peers.len(),
                self.peer_seq() == pre,
                old(self).peer_seq() == pre,
                distinct(pre),
                forall|j: int| 0 <= j < k ==> self.peer_seq()[j] != peer,
            decreases self.peers.len() - k,
        {
            if self.peers[k] == peer {
                self.peers.remove(k);
                proof {
                    lemma_distinct_remove(pre, k as int, peer);
                    assert(self.peer_set() =~= old(self).peer_set().remove(peer));
                }
                return;
            }
            k = k + 1;
        }
        proof {
            if self.peer_seq().contains(peer) {
                let i = choose|i: int|
                    0 <= i < self.peer_seq().len() && self.peer_seq()[i] == peer;
                assert(self.peer_seq()[i] != peer);
            }
            assert(self.peer_set() =~= old(self).peer_set().remove(peer));
        }
    }

    /// The notifications a terminating actor owes its peers: exactly one
    /// `LinkDied` per linked peer, each carrying the terminating actor's
    /// identity and its stop reason.
    pub fn death_notifications(&self, self_id: u64, reason: &ActorStopReason) -> (n: Vec<
        LinkDiedNotice,
    >)
        requires
            self.wf(),
        ensures
            n@.len() == self.peer_seq().len(),
            forall|i: int|
                0 <= i < n@.len() ==> (#[trigger] n@[i]).peer == self.peer_seq()[i]
                    && n@[i].id == self_id && n@[i].reason == *reason,
            forall|i: int, j: int| 0 <= i < j < n@.len() ==> n@[i].peer != n@[j].peer,
            forall|p: u64|
                self.peer_set().contains(p) <==> exists|i: int|
                    0 <= i < n@.len() && (#[trigger] n@[i]).peer == p,
    {
        let mut n: Vec<LinkDiedNotice> = Vec::new();
        let mut k: usize = 0;
        while k < self.peers.len()
            invariant
                k <= self.peers.len(),
                n@.len() == k,
                forall|i: int|
                    0 <= i < k ==> (#[trigger] n@[i]).peer == self.peer_seq()[i]
                        && n@[i].id == self_id && n@[i].reason == *reason,
            decreases self.peers.len() - k,
        {
            n.push(LinkDiedNotice { peer: self.peers[k], id: self_id, reason: reason.duplicate() });
            k = k + 1;
        }
        proof {
            assert forall|p: u64|
                self.peer_set().contains(p) <==> exists|i: int|
                    0 <= i < n@.len() && (#[trigger] n@[i]).peer == p by {
                if self.peer_seq().contains(p) {
                    let i = choose|i: int|
                        0 <= i < self.peer_seq().len() && self.peer_seq()[i] == p;
                    assert(n@[i].peer == p);
                }
                if exists|i: int| 0 <= i < n@.len() && (#[trigger] n@[i]).peer == p {
                    let i = choose|i: int| 0 <= i < n@.len() && (#[trigger] n@[i]).peer == p;
                    assert(self.peer_seq()[i] == p);
                    assert(self.peer_seq().contains(p));
                }
            }
        }
        n
    }
}

/// Removing the single occurrence of `peer` at index `k` of a repeat-free
/// sequence leaves it repeat-free and holding every identity but `peer`.
proof fn lemma_distinct_remove(pre: Seq<u64>, k: int, peer: u64)
    requires
        0 <= k < pre.len(),
        pre[k] == peer,
        distinct(pre),
    ensures
        distinct(pre.remove(k)),
        forall|p: u64| pre.remove(k).contains(p) <==> (pre.contains(p) && p != peer),
{
    let post = pre.remove(k);
    assert forall|i: int, j: int| 0 <= i < j < post.len() implies post[i] != post[j] by {
        let pi: int = if i < k { i } else { i + 1 };
        let pj: int = if j < k { j } else { j + 1 };
        assert(post[i] == pre[pi]);
        assert(post[j] == pre[pj]);
    }
    assert forall|p: u64| post.contains(p) <==> (pre.contains(p) && p != peer) by {
        if post.contains(p) {
            let i = choose|i: int| 0 <= i < post.len() && post[i] == p;
            if i < k {
                assert(pre[i] == p);
                assert(pre[i] != pre[k]);
            } else {
                assert(pre[i + 1] == p);
                assert(pre[i + 1] != pre[k]);
            }
        }
        if pre.contains(p) && p != peer {
            let i = choose|i: int| 0 <= i < pre.len() && pre[i] == p;
            if i < k {
                assert(post[i] == p);
            } else {
                assert(post[i - 1] == p);
            }
        }
    }
}

/// Links two actors' registries to each other, as `link(other)` does: the
/// relationship is symmetric, each side records the other's identity.
pub fn link_pair(a: &mut LinkRegistry, a_id: u64, b: &mut LinkRegistry, b_id: u64)
    requires
        old(a).wf(),
        old(b).wf(),
    ensures
        final(a).wf(),
        final(b).wf(),
        final(a).peer_set() == old(a).peer_set().insert(b_id),
        final(b).peer_set() == old(b).peer_set().insert(a_id),
{
    a.link(b_id);
    b.link(a_id);
}

/// Unlinks two actors' registries from each other, as `unlink(other)` does.
pub fn unlink_pair(a: &mut LinkRegistry, a_id: u64, b: &mut LinkRegistry, b_id: u64)
    requires
        old(a).wf(),
        old(b).wf(),
    ensures
        final(a).wf(),
        final(b).wf(),
        final(a).peer_set() == old(a).peer_set().remove(b_id),
        final(b).peer_set() == old(b).peer_set().remove(a_id),
{
    a.unlink(b_id);
    b.unlink(a_id);
}

/// Linking and then unlinking the same pair restores the link set of both
/// sides, provided the pair was not linked to begin with.
pub proof fn lemma_link_unlink_restores(a: Set<u64>, b: Set<u64>, a_id: u64, b_id: u64)
    requires
        !a.contains(b_id),
        !b.contains(a_id),
    ensures
        a.insert(b_id).remove(b_id) == a,
        b.insert(a_id).remove(a_id) == b,
{
    assert(a.insert(b_id).remove(b_id) =~= a);
    assert(b.insert(a_id).remove(a_id) =~= b);
}

} // verus!
