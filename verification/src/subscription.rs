use vstd::prelude::*;
use crate::multiplex::{spec_new_mux, spec_unsubscribe, MultiplexedConn};
use crate::packet::{spec_encode, MultiplexedPacket, PacketModel};
use crate::sync::{RelativeNodeType, StreamError, SymmetricConvID};

verus! {

/// Where a substream is in its life: `Pending` until both peers have seen
/// each other's `PreCreate`, `Open` while usable, `Closing` once this side
/// has emitted its `PostDrop`, `Closed` after the registry entry is gone.
#[derive(Clone, Copy, PartialEq, Eq, Structural, Debug)]
pub enum SubstreamState {
    Pending,
    Open,
    Closing,
    Closed,
}

/// A substream handle as it behaves like a transport of its own: it has an
/// identifier and a side, wraps outgoing bytes into application-layer
/// frames, and takes inbound payloads from its queue in the multiplexer.
pub trait SubscriptionBiStream {
    /// The identifier of the substream this handle owns.
    spec fn spec_id(&self) -> SymmetricConvID;

    /// Which side of the connection the handle lives on.
    spec fn spec_node_type(&self) -> RelativeNodeType;

    fn id(&self) -> (r: SymmetricConvID)
        ensures
            r == self.spec_id(),
    ;

    fn node_type(&self) -> (r: RelativeNodeType)
        ensures
            r == self.spec_node_type(),
    ;

    /// Wrap `payload` for the peer: the frame to put on the underlying
    /// transport, or the transport error once the multiplexer has failed.
    fn send_to_peer(&self, conn: &MultiplexedConn, payload: &[u8]) -> (r: Result<
        Vec<u8>,
        StreamError,
    >)
        ensures
            conn@.failed ==> r == Err::<Vec<u8>, StreamError>(StreamError::TransportFailed),
            !conn@.failed ==> (r matches Ok(frame) && frame@ == spec_encode(
                PacketModel::ApplicationLayer { id: self.spec_id().0, payload: payload@ },
            )),
    ;

    /// Take the next buffered payload for this substream, oldest first —
    /// from the live queue, or from what was still buffered when the
    /// peer's `PostDrop` tore the entry down; `Ok(None)` asks the caller
    /// to wait, `Err(ConnectionReset)` says the substream is gone and
    /// drained.
    fn recv(&self, conn: &mut MultiplexedConn) -> (r: Result<Option<Vec<u8>>, StreamError>)
        ensures
            !old(conn)@.queues.contains_key(self.spec_id().0) && !old(
                conn,
            )@.draining.contains_key(self.spec_id().0) ==> r == Err::<
                Option<Vec<u8>>,
                StreamError,
            >(StreamError::ConnectionReset) && final(conn)@ == old(conn)@,
            !old(conn)@.queues.contains_key(self.spec_id().0) && old(
                conn,
            )@.draining.contains_key(self.spec_id().0) && old(conn)@.draining[
                self.spec_id().0
            ].len() > 0 ==> ({
                &&& r matches Ok(Some(p)) && p@ == old(conn)@.draining[self.spec_id().0][0]
                &&& final(conn)@ == (crate::multiplex::MuxModel {
                    draining: old(conn)@.draining.insert(
                        self.spec_id().0,
                        old(conn)@.draining[self.spec_id().0].drop_first(),
                    ),
                    ..old(conn)@
                })
            }),
            !old(conn)@.queues.contains_key(self.spec_id().0) && old(
                conn,
            )@.draining.contains_key(self.spec_id().0) && old(conn)@.draining[
                self.spec_id().0
            ].len() == 0 ==> r == Err::<Option<Vec<u8>>, StreamError>(
                StreamError::ConnectionReset,
            ) && final(conn)@ == old(conn)@,
            old(conn)@.queues.contains_key(self.spec_id().0) && old(conn)@.queues[
                self.spec_id().0
            ].len() > 0 ==> ({
                &&& r matches Ok(Some(p)) && p@ == old(conn)@.queues[self.spec_id().0][0]
                &&& final(conn)@ == (crate::multiplex::MuxModel {
                    queues: old(conn)@.queues.insert(
                        self.spec_id().0,
                        old(conn)@.queues[self.spec_id().0].drop_first(),
                    ),
                    ..old(conn)@
                })
            }),
            old(conn)@.queues.contains_key(self.spec_id().0) && old(conn)@.queues[
                self.spec_id().0
            ].len() == 0 ==> ({
                &&& final(conn)@ == old(conn)@
                &&& old(conn)@.failed ==> r == Err::<Option<Vec<u8>>, StreamError>(
                    StreamError::ConnectionReset,
                )
                &&& !old(conn)@.failed ==> r == Ok::<Option<Vec<u8>>, StreamError>(None)
            }),
    ;

    /// Recursion glue: a fresh multiplexer layered over this substream,
    /// built exactly as one over the root transport.
    fn multiplex(&self) -> (m: MultiplexedConn)
        ensures
            m@ == spec_new_mux(self.spec_node_type()),
    ;
}

/// What an endpoint that can hand out substreams offers: the identifier
/// allocator, the registry, and the handshake signals.  `MultiplexedConn`
/// implements it; the contracts speak of the endpoint's multiplexer state.
pub trait Subscribable {
    /// The multiplexer state behind this endpoint.
    spec fn mux(&self) -> crate::multiplex::MuxModel;

    fn node_type(&self) -> (r: RelativeNodeType)
        ensures
            r == self.mux().node_type,
    ;

    /// Mint the next substream identifier; the n-th call agrees on both
    /// peers.
    fn get_next_id(&mut self) -> (id: SymmetricConvID)
        requires
            old(self).mux().issued < u64::MAX,
        ensures
            final(self).mux() == (crate::multiplex::MuxModel {
                issued: old(self).mux().issued + 1,
                ..old(self).mux()
            }),
            id == SymmetricConvID((old(self).mux().issued + 1) as u64),
    ;

    /// Install the single inbound queue for `id`, without a handshake.
    fn subscribe(&mut self, id: SymmetricConvID) -> (s: MultiplexedSubscription)
        ensures
            final(self).mux() == crate::multiplex::spec_subscribe(old(self).mux(), id.0),
            s.id == id,
            s.node_type == old(self).mux().node_type,
            s.state == SubstreamState::Pending,
    ;

    /// `subscribe`, handing back the owning handle flavor.
    fn owned_subscription(&mut self, id: SymmetricConvID) -> (s: OwnedMultiplexedSubscription)
        ensures
            final(self).mux() == crate::multiplex::spec_subscribe(old(self).mux(), id.0),
            s.id == id,
            s.node_type == old(self).mux().node_type,
            s.state == SubstreamState::Pending,
    ;

    /// Consume the post-close rendezvous latch for `id`.
    fn recv_post_close_signal_from_stream(&mut self, id: SymmetricConvID) -> (r: bool)
        ensures
            r == old(self).mux().post_close.pending.contains(id.0),
            final(self).mux() == (crate::multiplex::MuxModel {
                post_close: crate::rendezvous::spec_consume(old(self).mux().post_close, id.0),
                ..old(self).mux()
            }),
    ;

    /// Build the `PostDrop { id }` frame for the close handshake.
    fn send_post_close_signal(&self, id: SymmetricConvID) -> (r: Result<Vec<u8>, StreamError>)
        ensures
            self.mux().failed ==> r == Err::<Vec<u8>, StreamError>(StreamError::TransportFailed),
            !self.mux().failed ==> (r matches Ok(frame) && frame@ == spec_encode(
                PacketModel::PostDrop { id: id.0 },
            )),
    ;

    /// Build the `PreCreate { id }` frame for the open handshake.
    fn send_pre_open_signal(&self, id: SymmetricConvID) -> (r: Result<Vec<u8>, StreamError>)
        ensures
            self.mux().failed ==> r == Err::<Vec<u8>, StreamError>(StreamError::TransportFailed),
            !self.mux().failed ==> (r matches Ok(frame) && frame@ == spec_encode(
                PacketModel::PreCreate { id: id.0 },
            )),
    ;
}

impl Subscribable for MultiplexedConn {
    open spec fn mux(&self) -> crate::multiplex::MuxModel {
        self@
    }

    fn node_type(&self) -> (r: RelativeNodeType) {
        MultiplexedConn::node_type(self)
    }

    fn get_next_id(&mut self) -> (id: SymmetricConvID) {
        MultiplexedConn::get_next_id(self)
    }

    fn subscribe(&mut self, id: SymmetricConvID) -> (s: MultiplexedSubscription) {
        MultiplexedConn::subscribe(self, id)
    }

    fn owned_subscription(&mut self, id: SymmetricConvID) -> (s: OwnedMultiplexedSubscription) {
        MultiplexedConn::owned_subscription(self, id)
    }

    fn recv_post_close_signal_from_stream(&mut self, id: SymmetricConvID) -> (r: bool) {
        MultiplexedConn::recv_post_close_signal_from_stream(self, id)
    }

    fn send_post_close_signal(&self, id: SymmetricConvID) -> (r: Result<Vec<u8>, StreamError>) {
        MultiplexedConn::send_post_close_signal(self, id)
    }

    fn send_pre_open_signal(&self, id: SymmetricConvID) -> (r: Result<Vec<u8>, StreamError>) {
        MultiplexedConn::send_pre_open_signal(self, id)
    }
}

/// Substream handle borrowed from the multiplexer by `subscribe`.  Turning
/// it into the owning flavor moves the identifier and state over, so the
/// close handshake runs exactly once, on the owning handle.
pub struct MultiplexedSubscription {
    pub id: SymmetricConvID,
    pub node_type: RelativeNodeType,
    pub state: SubstreamState,
}

/// Substream handle that owns its close: exactly one `PostDrop` is emitted
/// for it, by `begin_close`, and `close_sequence_for_multiplexed_bistream`
/// then retires the registry entry.
pub struct OwnedMultiplexedSubscription {
    pub id: SymmetricConvID,
    pub node_type: RelativeNodeType,
    pub state: SubstreamState,
}

impl From<MultiplexedSubscription> for OwnedMultiplexedSubscription {
    /// Transfers the substream to the owning handle; the borrowed handle is
    /// consumed, so its close can never run a second time.
    fn from(this: MultiplexedSubscription) -> (r: OwnedMultiplexedSubscription) {
        OwnedMultiplexedSubscription { id: this.id, node_type: this.node_type, state: this.state }
    }
}

impl vstd::std_specs::convert::FromSpecImpl<MultiplexedSubscription>
    for OwnedMultiplexedSubscription {
    open spec fn obeys_from_spec() -> bool {
        true
    }

    open spec fn from_spec(t: MultiplexedSubscription) -> OwnedMultiplexedSubscription {
        OwnedMultiplexedSubscription { id: t.id, node_type: t.node_type, state: t.state }
    }
}

impl SubscriptionBiStream for MultiplexedSubscription {
    open spec fn spec_id(&self) -> SymmetricConvID {
        self.id
    }

    open spec fn spec_node_type(&self) -> RelativeNodeType {
        self.node_type
    }

    fn id(&self) -> (r: SymmetricConvID) {
        self.id
    }

    fn node_type(&self) -> (r: RelativeNodeType) {
        self.node_type
    }

    fn send_to_peer(&self, conn: &MultiplexedConn, payload: &[u8]) -> (r: Result<
        Vec<u8>,
        StreamError,
    >) {
        conn.app_frame(self.id, payload)
    }

    fn recv(&self, conn: &mut MultiplexedConn) -> (r: Result<Option<Vec<u8>>, StreamError>) {
        conn.recv_from(self.id)
    }

    fn multiplex(&self) -> (m: MultiplexedConn) {
        MultiplexedConn::new(self.node_type)
    }
}

impl SubscriptionBiStream for OwnedMultiplexedSubscription {
    open spec fn spec_id(&self) -> SymmetricConvID {
        self.id
    }

    open spec fn spec_node_type(&self) -> RelativeNodeType {
        self.node_type
    }

    fn id(&self) -> (r: SymmetricConvID) {
        self.id
    }

    fn node_type(&self) -> (r: RelativeNodeType) {
        self.node_type
    }

    fn send_to_peer(&self, conn: &MultiplexedConn, payload: &[u8]) -> (r: Result<
        Vec<u8>,
        StreamError,
    >) {
        conn.app_frame(self.id, payload)
    }

    fn recv(&self, conn: &mut MultiplexedConn) -> (r: Result<Option<Vec<u8>>, StreamError>) {
        conn.recv_from(self.id)
    }

    fn multiplex(&self) -> (m: MultiplexedConn) {
        MultiplexedConn::new(self.node_type)
    }
}

impl MultiplexedSubscription {
    /// Mark the open handshake complete: both peers have observed each
    /// other's `PreCreate` for this identifier.
    pub fn mark_open(&mut self)
        requires
            old(self).state == SubstreamState::Pending,
        ensures
            final(self).id == old(self).id,
            final(self).node_type == old(self).node_type,
            final(self).state == SubstreamState::Open,
    {
        self.state = SubstreamState::Open;
    }
}

impl OwnedMultiplexedSubscription {
    /// Mark the open handshake complete, as on the borrowed flavor.
    pub fn mark_open(&mut self)
        requires
            old(self).state == SubstreamState::Pending,
        ensures
            final(self).id == old(self).id,
            final(self).node_type == old(self).node_type,
            final(self).state == SubstreamState::Open,
    {
        self.state = SubstreamState::Open;
    }

    /// Start the close handshake: the one `PostDrop { id }` frame this
    /// handle will ever emit.  Only a handle that has not begun closing can
    /// take this step, so the peer observes the drop exactly once per
    /// handle lifetime.
    pub fn begin_close(&mut self) -> (frame: Vec<u8>)
        requires
            old(self).state == SubstreamState::Pending || old(self).state == SubstreamState::Open,
        ensures
            final(self).id == old(self).id,
            final(self).node_type == old(self).node_type,
            final(self).state == SubstreamState::Closing,
            frame@ == spec_encode(PacketModel::PostDrop { id: old(self).id.0 }),
    {
        self.state = SubstreamState::Closing;
        crate::packet::encode_packet(&MultiplexedPacket::PostDrop { id: self.id })
    }
}

/// The tail of the close handshake, run when the peer's `PostDrop` was
/// observed (or the wait for it was given up): the registry entry for the
/// substream is removed — zero entries for the identifier remain — and the
/// handle is retired.  Also the whole close where no scheduler is left to
/// run the handshake: then it is best-effort cleanup without the peer
/// rendezvous.
pub fn close_sequence_for_multiplexed_bistream(
    conn: &mut MultiplexedConn,
    sub: &mut OwnedMultiplexedSubscription,
)
    requires
        old(sub).state != SubstreamState::Closed,
    ensures
        final(conn)@ == spec_unsubscribe(old(conn)@, old(sub).id.0),
        final(sub).id == old(sub).id,
        final(sub).node_type == old(sub).node_type,
        final(sub).state == SubstreamState::Closed,
{
    conn.remove_subscriber(sub.id);
    sub.state = SubstreamState::Closed;
}

} // verus!
