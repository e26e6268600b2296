use vstd::prelude::*;
use std::collections::HashSet;

verus! {

broadcast use vstd::std_specs::hash::group_hash_axioms;

/// The state of a keyed one-shot rendezvous channel: the identifiers whose
/// signal is latched and not yet consumed, and those whose signal was
/// already consumed once.
pub struct ChannelModel {
    pub pending: Set<u64>,
    pub delivered: Set<u64>,
}

/// What `signal` does to the channel state: latch the identifier, unless its
/// one shot was already consumed; a duplicate signal changes nothing.
pub open spec fn spec_signal(v: ChannelModel, id: u64) -> ChannelModel {
    if v.delivered.contains(id) {
        v
    } else {
        ChannelModel { pending: v.pending.insert(id), delivered: v.delivered }
    }
}

/// What a successful `try_recv` does: consume the latch, at most once per
/// identifier.
pub open spec fn spec_consume(v: ChannelModel, id: u64) -> ChannelModel {
    if v.pending.contains(id) {
        ChannelModel { pending: v.pending.remove(id), delivered: v.delivered.insert(id) }
    } else {
        v
    }
}

/// A keyed one-shot rendezvous channel.
///
/// `signal(id)` latches a notification for `id` until it is consumed;
/// `try_recv(id)` consumes it.  Each identifier is delivered at most once,
/// and duplicate signals for an identifier are ignored.  Waiting for a
/// signal that has not arrived yet is the caller's loop: it is safe to call
/// `try_recv(id)` before or after `signal(id)`.
pub struct ActionChannel {
    pending: HashSet<u64>,
    delivered: HashSet<u64>,
}

/// Rendezvous channel that synchronizes the open handshake.
pub type PreActionChannel = ActionChannel;

/// Rendezvous channel that synchronizes the close handshake.
pub type PostActionChannel = ActionChannel;

impl View for ActionChannel {
    type V = ChannelModel;

    closed spec fn view(&self) -> ChannelModel {
        ChannelModel { pending: self.pending@, delivered: self.delivered@ }
    }
}

impl ActionChannel {
    /// A channel with nothing latched and nothing delivered.
    pub fn new() -> (c: Self)
        ensures
            c@.pending == Set::<u64>::empty(),
            c@.delivered == Set::<u64>::empty(),
    {
        ActionChannel { pending: HashSet::new(), delivered: HashSet::new() }
    }

    /// Latch a signal for `id`; ignored if `id` was already delivered, and a
    /// duplicate of a still-pending signal changes nothing.
    pub fn signal(&mut self, id: u64)
        ensures
            final(self)@ == spec_signal(old(self)@, id),
    {
        if !self.delivered.contains(&id) {
            self.pending.insert(id);
            proof {
                assert(self@.pending =~= spec_signal(old(self)@, id).pending);
            }
        }
    }

    /// Consume the latched signal for `id` if one is pending; returns
    /// whether it was.
    pub fn try_recv(&mut self, id: u64) -> (r: bool)
        ensures
            r == old(self)@.pending.contains(id),
            final(self)@ == spec_consume(old(self)@, id),
    {
        if self.pending.remove(&id) {
            self.delivered.insert(id);
            proof {
                assert(self@.pending =~= spec_consume(old(self)@, id).pending);
                assert(self@.delivered =~= spec_consume(old(self)@, id).delivered);
            }
            true
        } else {
            proof {
                assert(self@.pending =~= spec_consume(old(self)@, id).pending);
            }
            false
        }
    }

    /// Whether a signal for `id` is latched and not yet consumed.
    pub fn is_pending(&self, id: u64) -> (r: bool)
        ensures
            r == self@.pending.contains(id),
    {
        self.pending.contains(&id)
    }
}

} // verus!
