use vstd::prelude::*;
use vstd::seq_lib::lemma_seq_contains_after_push;

use crate::identity::ConnId;
use crate::outbound::SendOutcome;

verus! {

/// One delivery attempt the broadcaster made: which recipient, and what
/// became of the attempt.
#[derive(Clone, Copy, PartialEq, Eq, Structural, Debug)]
pub struct Attempt {
    pub target: ConnId,
    pub outcome: SendOutcome,
}

/// What one broadcast did: the message as it was delivered, and one attempt
/// per recipient. A failed attempt is recorded and never stops the attempts
/// that follow it.
pub struct BroadcastReport {
    pub message: String,
    pub attempts: Vec<Attempt>,
}

impl BroadcastReport {
    /// The recipients the broadcast attempted, in registry order.
    pub open spec fn targets(self) -> Seq<ConnId> {
        self.attempts@.map_values(|a: Attempt| a.target)
    }
}

/// The recipients of a broadcast: every registered identity except the
/// sender's own, in registry order.
pub open spec fn others(ids: Seq<ConnId>, sender: ConnId) -> Seq<ConnId>
    decreases ids.len(),
{
    if ids.len() == 0 {
        Seq::<ConnId>::empty()
    } else if ids.last() == sender {
        others(ids.drop_last(), sender)
    } else {
        others(ids.drop_last(), sender).push(ids.last())
    }
}

/// A broadcast by one peer targets every other registered peer and never
/// the sender itself: an identity is among the recipients exactly when it
/// is registered and is not the sender's own.
pub proof fn lemma_broadcast_targets(ids: Seq<ConnId>, sender: ConnId)
    ensures
        !others(ids, sender).contains(sender),
        forall|x: ConnId|
            others(ids, sender).contains(x) <==> (ids.contains(x) && x != sender),
    decreases ids.len(),
{
    if ids.len() == 0 {
    } else {
        let rest = ids.drop_last();
        let last = ids.last();
        lemma_broadcast_targets(rest, sender);
        assert(ids =~= rest.push(last));
        assert forall|x: ConnId| ids.contains(x) <==> (rest.contains(x) || x == last) by {
            lemma_seq_contains_after_push(rest, last, x);
        }
        if last == sender {
            assert(others(ids, sender) == others(rest, sender));
        } else {
            assert(others(ids, sender) == others(rest, sender).push(last));
            assert forall|x: ConnId|
                others(ids, sender).contains(x) <==> (others(rest, sender).contains(x) || x
                    == last) by {
                lemma_seq_contains_after_push(others(rest, sender), last, x);
            }
        }
    }
}

/// Once a peer is absent from the registry, no broadcast on that registry
/// targets it, whoever the sender is: nothing more is ever enqueued for a
/// detached connection.
pub proof fn lemma_absent_peer_not_targeted(ids: Seq<ConnId>, sender: ConnId, peer: ConnId)
    requires
        !ids.contains(peer),
    ensures
        !others(ids, sender).contains(peer),
{
    lemma_broadcast_targets(ids, sender);
}

} // verus!
