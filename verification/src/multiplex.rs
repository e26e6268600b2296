use vstd::prelude::*;
use std::collections::HashMap;
use crate::packet::{
    decode_packet, encode_packet, spec_decode, spec_encode, MultiplexedPacket, PacketModel,
};
use crate::rendezvous::{
    spec_consume, spec_signal, ChannelModel, PostActionChannel, PreActionChannel,
};
use crate::subscription::{MultiplexedSubscription, OwnedMultiplexedSubscription, SubstreamState};
use crate::sync::{RelativeNodeType, StreamError, SymmetricConvID};

verus! {

broadcast use vstd::std_specs::hash::group_hash_axioms;

/// Identifier types a multiplexer can be keyed by: comparable, copyable, and
/// allocated from a per-multiplexer container.
pub trait MultiplexedConnKey: Eq + Copy + IDGen {
}

/// An identifier allocator.  `generate_container` makes the per-multiplexer
/// state; `generate_next` mints the next identifier from it.  The identifier
/// is a function of nothing but how many were minted before, so two peers
/// that allocate in step agree on every identifier without exchanging them.
pub trait IDGen: Sized {
    type Container;

    /// How many identifiers the container has handed out.
    spec fn spec_count(c: &Self::Container) -> nat;

    /// The identifier minted by the n-th allocation.
    spec fn spec_id_at(n: nat) -> Self;

    fn generate_container() -> (c: Self::Container)
        ensures
            Self::spec_count(&c) == 0,
    ;

    fn generate_next(container: &mut Self::Container) -> (r: Self)
        requires
            Self::spec_count(old(container)) < u64::MAX,
        ensures
            Self::spec_count(final(container)) == Self::spec_count(old(container)) + 1,
            r == Self::spec_id_at(Self::spec_count(old(container)) + 1),
    ;
}

/// The symmetric monotone counter behind `SymmetricConvID` allocation.
pub struct IdCounter {
    pub count: u64,
}

impl IDGen for SymmetricConvID {
    type Container = IdCounter;

    open spec fn spec_count(c: &IdCounter) -> nat {
        c.count as nat
    }

    open spec fn spec_id_at(n: nat) -> SymmetricConvID {
        SymmetricConvID(n as u64)
    }

    fn generate_container() -> (c: IdCounter) {
        IdCounter { count: 0 }
    }

    fn generate_next(container: &mut IdCounter) -> (r: SymmetricConvID) {
        container.count = container.count + 1;
        SymmetricConvID(container.count)
    }
}

impl MultiplexedConnKey for SymmetricConvID {
}

/// The mathematical state of a multiplexer: how many identifiers were
/// handed out, the inbound queue of every registered substream, the
/// payloads still drainable on substreams the peer already tore down, the
/// two rendezvous channels, and whether the underlying transport has
/// failed.
pub struct MuxModel {
    pub node_type: RelativeNodeType,
    pub issued: nat,
    pub queues: Map<u64, Seq<Seq<u8>>>,
    pub draining: Map<u64, Seq<Seq<u8>>>,
    pub pre_open: ChannelModel,
    pub post_close: ChannelModel,
    pub failed: bool,
}

/// The state of a freshly built multiplexer.
pub open spec fn spec_new_mux(node_type: RelativeNodeType) -> MuxModel {
    MuxModel {
        node_type,
        issued: 0,
        queues: Map::empty(),
        draining: Map::empty(),
        pre_open: ChannelModel { pending: Set::empty(), delivered: Set::empty() },
        post_close: ChannelModel { pending: Set::empty(), delivered: Set::empty() },
        failed: false,
    }
}

/// Installing an (empty) inbound queue for `id`: the single registry entry
/// for that identifier, whether or not one existed before.
pub open spec fn spec_subscribe(v: MuxModel, id: u64) -> MuxModel {
    MuxModel {
        queues: v.queues.insert(id, Seq::empty()),
        draining: v.draining.remove(id),
        ..v
    }
}

/// Removing every trace of `id`: the registry entry and whatever was still
/// left to drain.
pub open spec fn spec_unsubscribe(v: MuxModel, id: u64) -> MuxModel {
    MuxModel { queues: v.queues.remove(id), draining: v.draining.remove(id), ..v }
}

/// What observing the peer's `PostDrop { id }` does besides latching the
/// rendezvous: the registry entry for `id` is removed on this, the
/// receiving, side.  Payloads that were already buffered stay drainable by
/// the local handle; after they are gone, `recv` surfaces "connection
/// reset".  A `PostDrop` for an unregistered identifier changes nothing.
pub open spec fn spec_peer_drop(v: MuxModel, id: u64) -> MuxModel {
    if v.queues.contains_key(id) {
        MuxModel {
            queues: v.queues.remove(id),
            draining: v.draining.insert(id, v.queues[id]),
            ..v
        }
    } else {
        v
    }
}

/// What one decoded frame does to the multiplexer state.
///
/// `Greeter` is ignored; `PreCreate` latches the pre-open channel; an
/// application-layer frame is appended to the queue of its substream, or
/// dropped when no live entry exists; `PostDrop` latches the post-close
/// channel and tears the receiving side's registry entry down.
pub open spec fn spec_process(v: MuxModel, p: PacketModel) -> MuxModel {
    match p {
        PacketModel::Greeter => v,
        PacketModel::PreCreate { id } => MuxModel { pre_open: spec_signal(v.pre_open, id), ..v },
        PacketModel::PostDrop { id } => MuxModel {
            post_close: spec_signal(v.post_close, id),
            ..spec_peer_drop(v, id)
        },
        PacketModel::ApplicationLayer { id, payload } => {
            if v.queues.contains_key(id) {
                MuxModel { queues: v.queues.insert(id, v.queues[id].push(payload)), ..v }
            } else {
                v
            }
        },
    }
}

/// What the demux decision for one inbound frame was.
#[derive(Clone, Copy, PartialEq, Eq, Structural, Debug)]
pub enum DemuxOutcome {
    /// An application-layer frame was appended to its substream's queue.
    Delivered { id: SymmetricConvID },
    /// An application-layer frame named a substream that is not registered;
    /// the frame was dropped and the multiplexer goes on.
    UnknownId { id: SymmetricConvID },
    /// A `PreCreate` latched the pre-open rendezvous channel.
    PreOpenSignaled { id: SymmetricConvID },
    /// A `PostDrop` latched the post-close rendezvous channel and tore
    /// down this side's registry entry for the substream.
    PostCloseSignaled { id: SymmetricConvID },
    /// A `Greeter` frame, ignored.
    GreeterIgnored,
    /// The frame did not decode; the whole multiplexer is now failed.
    Fatal,
}

/// One multiplexer endpoint.
///
/// The surrounding runtime owns the underlying transport; it feeds every
/// inbound frame to `process_frame` and sends every byte frame these
/// methods hand back.  All decisions — the registry, the handshakes, the
/// identifier allocation, what each frame means — are made here.
pub struct MultiplexedConn {
    node_type: RelativeNodeType,
    id_gen: IdCounter,
    subscribers: HashMap<u64, Vec<Vec<u8>>>,
    draining: HashMap<u64, Vec<Vec<u8>>>,
    pre_open_container: PreActionChannel,
    post_close_container: PostActionChannel,
    failed: bool,
}

impl View for MultiplexedConn {
    type V = MuxModel;

    closed spec fn view(&self) -> MuxModel {
        MuxModel {
            node_type: self.node_type,
            issued: self.id_gen.count as nat,
            queues: self.subscribers@.map_values(|q: Vec<Vec<u8>>| q.deep_view()),
            draining: self.draining@.map_values(|q: Vec<Vec<u8>>| q.deep_view()),
            pre_open: self.pre_open_container@,
            post_close: self.post_close_container@,
            failed: self.failed,
        }
    }
}

impl MultiplexedConn {
    /// A fresh multiplexer for one side of a connection.
    pub fn new(node_type: RelativeNodeType) -> (c: Self)
        ensures
            c@ == spec_new_mux(node_type),
    {
        let c = MultiplexedConn {
            node_type,
            id_gen: <SymmetricConvID as IDGen>::generate_container(),
            subscribers: HashMap::new(),
            draining: HashMap::new(),
            pre_open_container: PreActionChannel::new(),
            post_close_container: PostActionChannel::new(),
            failed: false,
        };
        proof {
            assert(c@.queues =~= spec_new_mux(node_type).queues);
            assert(c@.draining =~= spec_new_mux(node_type).draining);
            assert(c@ =~= spec_new_mux(node_type));
        }
        c
    }

    /// Which side of the connection this multiplexer is.
    pub fn node_type(&self) -> (r: RelativeNodeType)
        ensures
            r == self@.node_type,
    {
        self.node_type
    }

    /// Whether the underlying transport has failed.
    pub fn is_failed(&self) -> (r: bool)
        ensures
            r == self@.failed,
    {
        self.failed
    }

    /// Record that the underlying transport failed: the demux loop exits,
    /// nothing can be sent any more, and empty inbound queues surface
    /// "connection reset".
    pub fn on_transport_error(&mut self)
        ensures
            final(self)@ == (MuxModel { failed: true, ..old(self)@ }),
    {
        self.failed = true;
    }

    /// Mint the next substream identifier.  Both peers mint the same value
    /// for the n-th allocation.
    pub fn get_next_id(&mut self) -> (id: SymmetricConvID)
        requires
            old(self)@.issued < u64::MAX,
        ensures
            final(self)@ == (MuxModel { issued: old(self)@.issued + 1, ..old(self)@ }),
            id == SymmetricConvID((old(self)@.issued + 1) as u64),
    {
        <SymmetricConvID as IDGen>::generate_next(&mut self.id_gen)
    }

    /// How many identifiers this multiplexer has minted so far.
    pub fn ids_issued(&self) -> (n: u64)
        ensures
            n == self@.issued,
    {
        self.id_gen.count
    }

    /// Whether a substream with this identifier is registered.
    pub fn has_subscriber(&self, id: SymmetricConvID) -> (r: bool)
        ensures
            r == self@.queues.contains_key(id.0),
    {
        self.subscribers.contains_key(&id.0)
    }

    /// How many substreams are registered.
    pub fn subscriber_count(&self) -> (n: usize)
        ensures
            n == self@.queues.len(),
    {
        proof {
            assert(self@.queues.dom() =~= self.subscribers@.dom());
        }
        self.subscribers.len()
    }

    /// Install the single inbound queue for `id` and hand back the borrowed
    /// subscription handle, exactly one registry entry per identifier.
    pub fn subscribe(&mut self, id: SymmetricConvID) -> (s: MultiplexedSubscription)
        ensures
            final(self)@ == spec_subscribe(old(self)@, id.0),
            s.id == id,
            s.node_type == old(self)@.node_type,
            s.state == SubstreamState::Pending,
    {
        let queue: Vec<Vec<u8>> = Vec::new();
        self.subscribers.insert(id.0, queue);
        self.draining.remove(&id.0);
        proof {
            assert(self@.queues =~~= spec_subscribe(old(self)@, id.0).queues);
            assert(self@.draining =~~= spec_subscribe(old(self)@, id.0).draining);
        }
        MultiplexedSubscription {
            id,
            node_type: self.node_type,
            state: SubstreamState::Pending,
        }
    }

    /// `subscribe`, but handing back the owning handle flavor.
    pub fn owned_subscription(&mut self, id: SymmetricConvID) -> (s: OwnedMultiplexedSubscription)
        ensures
            final(self)@ == spec_subscribe(old(self)@, id.0),
            s.id == id,
            s.node_type == old(self)@.node_type,
            s.state == SubstreamState::Pending,
    {
        let sub = self.subscribe(id);
        OwnedMultiplexedSubscription::from(sub)
    }

    /// Remove every trace of `id` — the registry entry and anything left
    /// to drain; after the close handshake this leaves nothing for the
    /// identifier.
    pub fn remove_subscriber(&mut self, id: SymmetricConvID)
        ensures
            final(self)@ == spec_unsubscribe(old(self)@, id.0),
    {
        self.subscribers.remove(&id.0);
        self.draining.remove(&id.0);
        proof {
            assert(self@.queues =~~= spec_unsubscribe(old(self)@, id.0).queues);
            assert(self@.draining =~~= spec_unsubscribe(old(self)@, id.0).draining);
        }
    }

    /// Begin opening a substream: mint the identifier, install its inbound
    /// queue before anything can arrive for it, and build the `PreCreate`
    /// frame to send.  The caller sends the frame and then waits for the
    /// peer's own `PreCreate` via `recv_pre_open_signal` before using the
    /// handle.
    pub fn initiate_subscription(&mut self) -> (r: Result<
        (MultiplexedSubscription, Vec<u8>),
        StreamError,
    >)
        requires
            old(self)@.issued < u64::MAX,
        ensures
            old(self)@.failed ==> r == Err::<(MultiplexedSubscription, Vec<u8>), StreamError>(
                StreamError::TransportFailed,
            ) && final(self)@ == old(self)@,
            !old(self)@.failed ==> ({
                let id = ((old(self)@.issued + 1) as u64);
                &&& r matches Ok((sub, frame)) && ({
                    &&& sub.id == SymmetricConvID(id)
                    &&& sub.node_type == old(self)@.node_type
                    &&& sub.state == SubstreamState::Pending
                    &&& frame@ == spec_encode(PacketModel::PreCreate { id })
                })
                &&& final(self)@ == spec_subscribe(
                    (MuxModel { issued: old(self)@.issued + 1, ..old(self)@ }),
                    id,
                )
            }),
    {
        if self.failed {
            return Err(StreamError::TransportFailed);
        }
        let id = self.get_next_id();
        let sub = self.subscribe(id);
        let frame = encode_packet(&MultiplexedPacket::PreCreate { id });
        Ok((sub, frame))
    }

    /// Consume the pre-open rendezvous latch for `id`, set when the peer's
    /// `PreCreate { id }` was seen by `process_frame`.
    pub fn recv_pre_open_signal(&mut self, id: SymmetricConvID) -> (r: bool)
        ensures
            r == old(self)@.pre_open.pending.contains(id.0),
            final(self)@ == (MuxModel {
                pre_open: spec_consume(old(self)@.pre_open, id.0),
                ..old(self)@
            }),
    {
        self.pre_open_container.try_recv(id.0)
    }

    /// Consume the post-close rendezvous latch for `id`, set when the
    /// peer's `PostDrop { id }` was seen by `process_frame`.
    pub fn recv_post_close_signal_from_stream(&mut self, id: SymmetricConvID) -> (r: bool)
        ensures
            r == old(self)@.post_close.pending.contains(id.0),
            final(self)@ == (MuxModel {
                post_close: spec_consume(old(self)@.post_close, id.0),
                ..old(self)@
            }),
    {
        self.post_close_container.try_recv(id.0)
    }

    /// Build the `PreCreate { id }` frame for the open handshake.
    pub fn send_pre_open_signal(&self, id: SymmetricConvID) -> (r: Result<Vec<u8>, StreamError>)
        ensures
            self@.failed ==> r == Err::<Vec<u8>, StreamError>(StreamError::TransportFailed),
            !self@.failed ==> (r matches Ok(frame) && frame@ == spec_encode(
                PacketModel::PreCreate { id: id.0 },
            )),
    {
        if self.failed {
            return Err(StreamError::TransportFailed);
        }
        Ok(encode_packet(&MultiplexedPacket::PreCreate { id }))
    }

    /// Build the `PostDrop { id }` frame for the close handshake.
    pub fn send_post_close_signal(&self, id: SymmetricConvID) -> (r: Result<Vec<u8>, StreamError>)
        ensures
            self@.failed ==> r == Err::<Vec<u8>, StreamError>(StreamError::TransportFailed),
            !self@.failed ==> (r matches Ok(frame) && frame@ == spec_encode(
                PacketModel::PostDrop { id: id.0 },
            )),
    {
        if self.failed {
            return Err(StreamError::TransportFailed);
        }
        Ok(encode_packet(&MultiplexedPacket::PostDrop { id }))
    }

    /// Wrap user bytes for substream `id` into an application-layer frame.
    pub fn app_frame(&self, id: SymmetricConvID, payload: &[u8]) -> (r: Result<
        Vec<u8>,
        StreamError,
    >)
        ensures
            self@.failed ==> r == Err::<Vec<u8>, StreamError>(StreamError::TransportFailed),
            !self@.failed ==> (r matches Ok(frame) && frame@ == spec_encode(
                PacketModel::ApplicationLayer { id: id.0, payload: payload@ },
            )),
    {
        if self.failed {
            return Err(StreamError::TransportFailed);
        }
        let payload_vec = vstd::slice::slice_to_vec(payload);
        Ok(encode_packet(&MultiplexedPacket::ApplicationLayer { id, payload: payload_vec }))
    }

    /// The demux decision for one inbound frame, exactly as `spec_process`
    /// says: route user data to its queue, latch handshake signals, ignore
    /// the greeter, drop data for unknown identifiers, and treat an
    /// undecodable frame as fatal for the whole multiplexer.
    pub fn process_frame(&mut self, frame: &[u8]) -> (out: DemuxOutcome)
        ensures
            match spec_decode(frame@) {
                Some(p) => {
                    &&& final(self)@ == spec_process(old(self)@, p)
                    &&& match p {
                        PacketModel::Greeter => out == DemuxOutcome::GreeterIgnored,
                        PacketModel::PreCreate { id } => out == (DemuxOutcome::PreOpenSignaled {
                            id: SymmetricConvID(id),
                        }),
                        PacketModel::PostDrop { id } => out == (DemuxOutcome::PostCloseSignaled {
                            id: SymmetricConvID(id),
                        }),
                        PacketModel::ApplicationLayer { id, .. } => {
                            if old(self)@.queues.contains_key(id) {
                                out == (DemuxOutcome::Delivered { id: SymmetricConvID(id) })
                            } else {
                                out == (DemuxOutcome::UnknownId { id: SymmetricConvID(id) })
                            }
                        },
                    }
                },
                None => {
                    &&& final(self)@ == (MuxModel { failed: true, ..old(self)@ })
                    &&& out == DemuxOutcome::Fatal
                },
            },
    {
        match decode_packet(frame) {
            None => {
                self.failed = true;
                DemuxOutcome::Fatal
            },
            Some(MultiplexedPacket::Greeter) => DemuxOutcome::GreeterIgnored,
            Some(MultiplexedPacket::PreCreate { id }) => {
                self.pre_open_container.signal(id.0);
                DemuxOutcome::PreOpenSignaled { id }
            },
            Some(MultiplexedPacket::PostDrop { id }) => {
                self.post_close_container.signal(id.0);
                match self.subscribers.remove(&id.0) {
                    Some(queue) => {
                        self.draining.insert(id.0, queue);
                        proof {
                            let p = spec_decode(frame@)->Some_0;
                            assert(self@.queues =~~= spec_process(old(self)@, p).queues);
                            assert(self@.draining =~~= spec_process(old(self)@, p).draining);
                        }
                    },
                    None => {
                        proof {
                            assert(self@.queues =~~= old(self)@.queues);
                        }
                    },
                }
                DemuxOutcome::PostCloseSignaled { id }
            },
            Some(MultiplexedPacket::ApplicationLayer { id, payload }) => {
                match self.subscribers.remove(&id.0) {
                    Some(mut queue) => {
                        queue.push(payload);
                        self.subscribers.insert(id.0, queue);
                        proof {
                            let p = spec_decode(frame@)->Some_0;
                            assert(self@.queues =~~= spec_process(old(self)@, p).queues);
                        }
                        DemuxOutcome::Delivered { id }
                    },
                    None => {
                        proof {
                            assert(self@.queues =~~= old(self)@.queues);
                        }
                        DemuxOutcome::UnknownId { id }
                    },
                }
            },
        }
    }

    /// Take the next buffered payload for substream `id`.
    ///
    /// `Ok(Some(_))` hands out the oldest payload — from the live queue,
    /// or from what was still buffered when the peer's `PostDrop` tore the
    /// entry down; `Ok(None)` means nothing is buffered yet and the caller
    /// should wait; `Err(ConnectionReset)` means the substream is gone and
    /// drained: never registered, removed with nothing left to read, or
    /// emptied after the peer's drop or a transport failure.
    pub fn recv_from(&mut self, id: SymmetricConvID) -> (r: Result<Option<Vec<u8>>, StreamError>)
        ensures
            !old(self)@.queues.contains_key(id.0) && !old(self)@.draining.contains_key(id.0)
                ==> r == Err::<Option<Vec<u8>>, StreamError>(StreamError::ConnectionReset)
                && final(self)@ == old(self)@,
            !old(self)@.queues.contains_key(id.0) && old(self)@.draining.contains_key(id.0)
                && old(self)@.draining[id.0].len() > 0 ==> ({
                &&& r matches Ok(Some(p)) && p@ == old(self)@.draining[id.0][0]
                &&& final(self)@ == (MuxModel {
                    draining: old(self)@.draining.insert(
                        id.0,
                        old(self)@.draining[id.0].drop_first(),
                    ),
                    ..old(self)@
                })
            }),
            !old(self)@.queues.contains_key(id.0) && old(self)@.draining.contains_key(id.0)
                && old(self)@.draining[id.0].len() == 0 ==> r == Err::<
                Option<Vec<u8>>,
                StreamError,
            >(StreamError::ConnectionReset) && final(self)@ == old(self)@,
            old(self)@.queues.contains_key(id.0) && old(self)@.queues[id.0].len() > 0 ==> ({
                &&& r matches Ok(Some(p)) && p@ == old(self)@.queues[id.0][0]
                &&& final(self)@ == (MuxModel {
                    queues: old(self)@.queues.insert(
                        id.0,
                        old(self)@.queues[id.0].drop_first(),
                    ),
                    ..old(self)@
                })
            }),
            old(self)@.queues.contains_key(id.0) && old(self)@.queues[id.0].len() == 0 ==> ({
                &&& final(self)@ == old(self)@
                &&& old(self)@.failed ==> r == Err::<Option<Vec<u8>>, StreamError>(
                    StreamError::ConnectionReset,
                )
                &&& !old(self)@.failed ==> r == Ok::<Option<Vec<u8>>, StreamError>(None)
            }),
    {
        match self.subscribers.remove(&id.0) {
            None => {
                proof {
                    assert(self@.queues =~~= old(self)@.queues);
                }
                match self.draining.remove(&id.0) {
                    None => {
                        proof {
                            assert(self@.draining =~~= old(self)@.draining);
                        }
                        Err(StreamError::ConnectionReset)
                    },
                    Some(mut queue) => {
                        if queue.len() > 0 {
                            let payload = queue.remove(0);
                            self.draining.insert(id.0, queue);
                            proof {
                                assert(payload.deep_view() =~= payload@);
                                assert(self@.draining =~~= old(self)@.draining.insert(
                                    id.0,
                                    old(self)@.draining[id.0].drop_first(),
                                ));
                            }
                            Ok(Some(payload))
                        } else {
                            self.draining.insert(id.0, queue);
                            proof {
                                assert(self@.draining =~~= old(self)@.draining);
                            }
                            Err(StreamError::ConnectionReset)
                        }
                    },
                }
            },
            Some(mut queue) => {
                if queue.len() > 0 {
                    let payload = queue.remove(0);
                    self.subscribers.insert(id.0, queue);
                    proof {
                        assert(payload.deep_view() =~= payload@);
                        assert(self@.queues =~~= old(self)@.queues.insert(
                            id.0,
                            old(self)@.queues[id.0].drop_first(),
                        ));
                    }
                    Ok(Some(payload))
                } else {
                    self.subscribers.insert(id.0, queue);
                    proof {
                        assert(self@.queues =~~= old(self)@.queues);
                    }
                    if self.failed {
                        Err(StreamError::ConnectionReset)
                    } else {
                        Ok(None)
                    }
                }
            },
        }
    }
}

/// Law: routing an application-layer frame touches no other substream,
/// live or draining.  Bytes sent on one substream are never seen by
/// another.
pub proof fn lemma_no_cross_delivery(v: MuxModel, id: u64, payload: Seq<u8>, other: u64)
    requires
        other != id,
    ensures
        spec_process(v, PacketModel::ApplicationLayer { id, payload }).queues.contains_key(other)
            == v.queues.contains_key(other),
        v.queues.contains_key(other) ==> spec_process(
            v,
            PacketModel::ApplicationLayer { id, payload },
        ).queues[other] == v.queues[other],
        spec_process(v, PacketModel::ApplicationLayer { id, payload }).draining == v.draining,
{
}

/// Delivering a sequence of payloads for one substream, in order.
pub open spec fn spec_deliver_all(v: MuxModel, id: u64, ps: Seq<Seq<u8>>) -> MuxModel
    decreases ps.len(),
{
    if ps.len() == 0 {
        v
    } else {
        spec_deliver_all(
            spec_process(v, PacketModel::ApplicationLayer { id, payload: ps[0] }),
            id,
            ps.drop_first(),
        )
    }
}

/// Law: the inbound queue of a substream is first-in first-out.  Frames
/// processed in arrival order append in that order, and since `recv_from`
/// always takes the front, payloads sent on one side come out on the other
/// side in exactly the order they were sent.
pub proof fn lemma_fifo_order(v: MuxModel, id: u64, ps: Seq<Seq<u8>>)
    requires
        v.queues.contains_key(id),
    ensures
        spec_deliver_all(v, id, ps).queues.contains_key(id),
        spec_deliver_all(v, id, ps).queues[id] == v.queues[id] + ps,
    decreases ps.len(),
{
    if ps.len() == 0 {
        assert(v.queues[id] + ps =~= v.queues[id]);
    } else {
        let v1 = spec_process(v, PacketModel::ApplicationLayer { id, payload: ps[0] });
        lemma_fifo_order(v1, id, ps.drop_first());
        assert(v1.queues[id] + ps.drop_first() =~= v.queues[id] + ps);
    }
}

/// Law: however many application-layer frames are delivered for one
/// substream, and in whatever interleaving with other traffic they arrive,
/// another substream's queue is left exactly as it was: nothing sent on
/// one substream is ever buffered for — and so ever received on — another.
pub proof fn lemma_no_cross_delivery_all(v: MuxModel, id: u64, ps: Seq<Seq<u8>>, other: u64)
    requires
        other != id,
    ensures
        spec_deliver_all(v, id, ps).queues.contains_key(other) == v.queues.contains_key(other),
        v.queues.contains_key(other) ==> spec_deliver_all(v, id, ps).queues[other]
            == v.queues[other],
        spec_deliver_all(v, id, ps).draining == v.draining,
    decreases ps.len(),
{
    if ps.len() > 0 {
        let v1 = spec_process(v, PacketModel::ApplicationLayer { id, payload: ps[0] });
        lemma_no_cross_delivery(v, id, ps[0], other);
        lemma_no_cross_delivery_all(v1, id, ps.drop_first(), other);
    }
}

/// Law: a substream opened with an empty queue receives exactly the
/// payload sequence the peer sent, in order.
pub proof fn lemma_fresh_substream_fifo(v: MuxModel, id: u64, ps: Seq<Seq<u8>>)
    requires
        v.queues.contains_key(id),
        v.queues[id] == Seq::<Seq<u8>>::empty(),
    ensures
        spec_deliver_all(v, id, ps).queues[id] == ps,
{
    lemma_fifo_order(v, id, ps);
    assert(v.queues[id] + ps =~= ps);
}

/// Law: the registry holds at most one entry per identifier — a second
/// `subscribe` of the same identifier leaves the single, fresh entry and
/// nothing else.
pub proof fn lemma_subscribe_at_most_one(v: MuxModel, id: u64)
    ensures
        spec_subscribe(spec_subscribe(v, id), id) == spec_subscribe(v, id),
        spec_subscribe(v, id).queues[id] == Seq::<Seq<u8>>::empty(),
        spec_subscribe(v, id).queues.contains_key(id),
{
    assert(spec_subscribe(spec_subscribe(v, id), id).queues =~= spec_subscribe(v, id).queues);
    assert(spec_subscribe(spec_subscribe(v, id), id).draining =~= spec_subscribe(
        v,
        id,
    ).draining);
}

/// Law: after the close handshake for an identifier completes, the registry
/// holds no entry for it and nothing for it is left to drain.
pub proof fn lemma_close_clears_subscriber(v: MuxModel, id: u64)
    ensures
        !spec_unsubscribe(v, id).queues.contains_key(id),
        !spec_unsubscribe(v, id).draining.contains_key(id),
        forall|other: u64|
            other != id ==> spec_unsubscribe(v, id).queues.contains_key(other)
                == v.queues.contains_key(other),
{
}

/// Law: observing the peer's `PostDrop { id }` removes the registry entry
/// for `id` on the receiving side, there and then.  What was already
/// buffered stays drainable, unchanged and in order, and every other
/// substream is untouched.
pub proof fn lemma_peer_drop_clears_subscriber(v: MuxModel, id: u64)
    ensures
        !spec_process(v, PacketModel::PostDrop { id }).queues.contains_key(id),
        v.queues.contains_key(id) ==> spec_process(v, PacketModel::PostDrop { id }).draining[id]
            == v.queues[id],
        spec_process(v, PacketModel::PostDrop { id }).post_close == spec_signal(v.post_close, id),
        forall|other: u64|
            other != id ==> spec_process(v, PacketModel::PostDrop { id }).queues.contains_key(
                other,
            ) == v.queues.contains_key(other),
        forall|other: u64|
            other != id ==> spec_process(v, PacketModel::PostDrop { id }).draining.contains_key(
                other,
            ) == v.draining.contains_key(other),
{
}

/// Law: `subscribe(id)` followed by the completed close handshake for `id`
/// leaves both sides exactly as empty as they started — the dropping side
/// through its close sequence after the rendezvous, the receiving side at
/// the moment it observes the peer's `PostDrop { id }`, with the retired
/// handle's cleanup taking the last drained trace with it.
pub proof fn lemma_open_close_round_trip(v: MuxModel, id: u64)
    requires
        v.queues == Map::<u64, Seq<Seq<u8>>>::empty(),
        v.draining == Map::<u64, Seq<Seq<u8>>>::empty(),
    ensures
        spec_unsubscribe(spec_subscribe(v, id), id).queues == Map::<u64, Seq<Seq<u8>>>::empty(),
        spec_unsubscribe(spec_subscribe(v, id), id).draining == Map::<u64, Seq<Seq<u8>>>::empty(),
        spec_process(spec_subscribe(v, id), PacketModel::PostDrop { id }).queues == Map::<
            u64,
            Seq<Seq<u8>>,
        >::empty(),
        spec_unsubscribe(
            spec_process(spec_subscribe(v, id), PacketModel::PostDrop { id }),
            id,
        ).draining == Map::<u64, Seq<Seq<u8>>>::empty(),
{
    let opened = spec_subscribe(v, id);
    assert(spec_unsubscribe(opened, id).queues =~= Map::<u64, Seq<Seq<u8>>>::empty());
    assert(spec_unsubscribe(opened, id).draining =~= Map::<u64, Seq<Seq<u8>>>::empty());
    let observed = spec_process(opened, PacketModel::PostDrop { id });
    assert(observed.queues =~= Map::<u64, Seq<Seq<u8>>>::empty());
    assert(spec_unsubscribe(observed, id).draining =~= Map::<u64, Seq<Seq<u8>>>::empty());
}

} // verus!
