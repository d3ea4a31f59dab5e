use vstd::prelude::*;

use crate::broadcaster::{others, lemma_broadcast_targets, Attempt, BroadcastReport};
use crate::identity::ConnId;
use crate::outbound::{new_outbound_channel, try_send_text};

verus! {

/// How many pending messages one connection's outbound channel buffers
/// before further deliveries to it are dropped.
pub const OUTBOUND_CAPACITY: usize = 10;

/// One registered connection: its identity and the sending half of its
/// outbound channel.
pub(crate) struct Entry {
    pub(crate) id: ConnId,
    pub(crate) tx: tokio::sync::mpsc::Sender<String>,
}

/// The shared mapping from connection identity to outbound channel. An
/// entry exists for a connection exactly while that connection is accepted
/// and not yet torn down: workers attach themselves at accept time and
/// detach themselves once, on close or error. The broadcaster iterates the
/// entries to fan a message out.
pub struct Registry {
    pub(crate) entries: Vec<Entry>,
}

impl Registry {
    /// The identities currently registered, in attach order.
    pub closed spec fn ids(self) -> Seq<ConnId> {
        self.entries@.map_values(|e: Entry| e.id)
    }

    /// Well-formed: no identity occurs twice, so the registry is a mapping
    /// and its length counts the live connections.
    pub closed spec fn wf(self) -> bool {
        forall|i: int, j: int|
            0 <= i < j < self.ids().len() ==> self.ids()[i] != self.ids()[j]
    }

    /// An empty registry: no connections yet.
    pub fn new() -> (r: Registry)
        ensures
            r.wf(),
            r.ids() == Seq::<ConnId>::empty(),
    {
        Registry { entries: Vec::new() }
    }

    /// The number of currently registered (live, not yet closed) connections.
    pub fn len(&self) -> (r: usize)
        ensures
            r == self.ids().len(),
    {
        self.entries.len()
    }

    /// Whether a connection with this identity is currently registered.
    pub fn contains(&self, id: ConnId) -> (r: bool)
        ensures
            r == self.ids().contains(id),
    {
        let n = self.entries.len();
        let mut i: usize = 0;
        while i < n
            invariant
                n == self.entries.len(),
                0 <= i <= n,
                forall|k: int| 0 <= k < i ==> self.ids()[k] != id,
            decreases n - i,
        {
            if self.entries[i].id == id {
                assert(self.ids()[i as int] == id);
                return true;
            }
            i = i + 1;
        }
        assert(forall|k: int| 0 <= k < self.ids().len() ==> self.ids()[k] != id);
        false
    }

    /// Register a connection under a fresh outbound channel with the given
    /// capacity, returning the receiving half for the connection's writer
    /// path. A fresh identity is appended; re-attaching an identity that is
    /// already present replaces its channel and keeps the identities as they
    /// were.
    pub fn attach_with_capacity(
        &mut self,
        id: ConnId,
        capacity: usize,
    ) -> (rx: tokio::sync::mpsc::Receiver<String>)
        requires
            old(self).wf(),
            1 <= capacity <= 0x1000_0000,
        ensures
            final(self).wf(),
            old(self).ids().contains(id) ==> final(self).ids() == old(self).ids(),
            !old(self).ids().contains(id) ==> final(self).ids() == old(self).ids().push(id),
            final(self).ids().contains(id),
            final(self).ids().len() == old(self).ids().len() + (
                if old(self).ids().contains(id) { 0int } else { 1int }
            ),
    {
        let (tx, rx) = new_outbound_channel(capacity);
        let n = self.entries.len();
        let mut i: usize = 0;
        while i < n
            invariant
                old(self).wf(),
                n == self.entries.len(),
                0 <= i <= n,
                self.ids() == old(self).ids(),
                forall|k: int| 0 <= k < i ==> self.ids()[k] != id,
            decreases n - i,
        {
            if self.entries[i].id == id {
                assert(self.ids()[i as int] == id);
                assert(old(self).ids().contains(id));
                self.entries[i] = Entry { id, tx };
                assert(self.ids() =~= old(self).ids());
                return rx;
            }
            i = i + 1;
        }
        assert(forall|k: int| 0 <= k < self.ids().len() ==> self.ids()[k] != id);
        assert(!old(self).ids().contains(id));
        self.entries.push(Entry { id, tx });
        assert(self.ids() =~= old(self).ids().push(id));
        assert(self.ids()[self.ids().len() - 1] == id);
        rx
    }

    /// Register a connection under a fresh outbound channel with the fixed
    /// capacity the relay uses.
    pub fn attach(&mut self, id: ConnId) -> (rx: tokio::sync::mpsc::Receiver<String>)
        requires
            old(self).wf(),
        ensures
            final(self).wf(),
            old(self).ids().contains(id) ==> final(self).ids() == old(self).ids(),
            !old(self).ids().contains(id) ==> final(self).ids() == old(self).ids().push(id),
            final(self).ids().contains(id),
            final(self).ids().len() == old(self).ids().len() + (
                if old(self).ids().contains(id) { 0int } else { 1int }
            ),
    {
        self.attach_with_capacity(id, OUTBOUND_CAPACITY)
    }

    /// Remove a connection's entry, exactly once per connection: after this,
    /// the identity is absent and no broadcast can target it. Dropping the
    /// entry drops the channel's sending half, so the connection's writer
    /// path sees its channel close.
    pub fn detach(&mut self, id: ConnId) -> (removed: bool)
        requires
            old(self).wf(),
        ensures
            final(self).wf(),
            removed == old(self).ids().contains(id),
            !final(self).ids().contains(id),
            forall|x: ConnId|
                x != id ==> (final(self).ids().contains(x) <==> old(self).ids().contains(x)),
            final(self).ids().len() == old(self).ids().len() - (
                if old(self).ids().contains(id) { 1int } else { 0int }
            ),
    {
        let n = self.entries.len();
        let mut i: usize = 0;
        while i < n
            invariant
                old(self).wf(),
                n == self.entries.len(),
                0 <= i <= n,
                self.ids() == old(self).ids(),
                forall|k: int| 0 <= k < i ==> self.ids()[k] != id,
            decreases n - i,
        {
            if self.entries[i].id == id {
                assert(self.ids()[i as int] == id);
                assert(old(self).ids().contains(id));
                self.entries.remove(i);
                proof {
                    let pre = old(self).ids();
                    let post = self.ids();
                    assert(post =~= pre.subrange(0, i as int) + pre.subrange(
                        i + 1,
                        pre.len() as int,
                    ));
                    assert forall|k: int| 0 <= k < post.len() implies post[k] != id by {
                        if k < i {
                            assert(post[k] == pre[k]);
                        } else {
                            assert(post[k] == pre[k + 1]);
                        }
                    }
                    assert forall|x: ConnId|
                        x != id && pre.contains(x) implies post.contains(x) by {
                        let w = choose|w: int| 0 <= w < pre.len() && pre[w] == x;
                        if w < i {
                            assert(post[w] == x);
                        } else {
                            assert(pre[w] != id);
                            assert(w != i);
                            assert(post[w - 1] == x);
                        }
                    }
                }
                return true;
            }
            i = i + 1;
        }
        assert(forall|k: int| 0 <= k < self.ids().len() ==> self.ids()[k] != id);
        assert(!old(self).ids().contains(id));
        false
    }

    /// Fan a sender's message out: attempt to enqueue it on the outbound
    /// channel of every registered connection except the sender's own, in
    /// registry order. A recipient whose channel is full or closed has its
    /// attempt recorded as such and the remaining recipients are still
    /// served; the sender never receives its own message back.
    pub fn broadcast(&self, sender: ConnId, msg: &str) -> (r: BroadcastReport)
        ensures
            r.message@ == msg@,
            r.targets() == others(self.ids(), sender),
            forall|k: int|
                0 <= k < r.targets().len() ==> r.targets()[k] != sender && self.ids().contains(
                    r.targets()[k],
                ),
    {
        let ghost idsq = self.ids();
        let n = self.entries.len();
        let mut attempts: Vec<Attempt> = Vec::new();
        let mut i: usize = 0;
        while i < n
            invariant
                n == self.entries.len(),
                0 <= i <= n,
                idsq == self.ids(),
                attempts@.map_values(|a: Attempt| a.target) == others(idsq.take(i as int), sender),
            decreases n - i,
        {
            proof {
                assert(idsq.take(i + 1).drop_last() =~= idsq.take(i as int));
                assert(idsq.take(i + 1).last() == idsq[i as int]);
            }
            let target = self.entries[i].id;
            assert(target == idsq[i as int]);
            if target != sender {
                let outcome = try_send_text(&self.entries[i].tx, msg);
                attempts.push(Attempt { target, outcome });
                assert(attempts@.map_values(|a: Attempt| a.target) =~= others(
                    idsq.take(i + 1),
                    sender,
                ));
            }
            i = i + 1;
        }
        proof {
            assert(idsq.take(n as int) =~= idsq);
            lemma_broadcast_targets(idsq, sender);
            assert forall|k: int|
                0 <= k < others(idsq, sender).len() implies others(idsq, sender)[k] != sender
                && idsq.contains(others(idsq, sender)[k]) by {
                assert(others(idsq, sender).contains(others(idsq, sender)[k]));
            }
        }
        BroadcastReport { message: msg.to_string(), attempts }
    }
}

} // verus!
