use netbeam::multiplex::{DemuxOutcome, MultiplexedConn};
use netbeam::packet::{encode_packet, MultiplexedPacket};
use netbeam::subscription::{OwnedMultiplexedSubscription, Subscribable, SubscriptionBiStream};
use netbeam::sync::{RelativeNodeType, StreamError, SymmetricConvID};

fn pair() -> (MultiplexedConn, MultiplexedConn) {
    (
        MultiplexedConn::new(RelativeNodeType::Initiator),
        MultiplexedConn::new(RelativeNodeType::Responder),
    )
}

/// Runs the full open handshake between the two multiplexers and returns
/// the two owned handles of the new substream pair.
fn open_pair(
    a: &mut MultiplexedConn,
    b: &mut MultiplexedConn,
) -> (OwnedMultiplexedSubscription, OwnedMultiplexedSubscription) {
    let (sub_a, frame_a) = a.initiate_subscription().unwrap();
    let (sub_b, frame_b) = b.initiate_subscription().unwrap();
    // symmetric allocation: the n-th opening mints the same id on each side
    assert_eq!(sub_a.id(), sub_b.id());
    assert!(matches!(b.process_frame(&frame_a), DemuxOutcome::PreOpenSignaled { .. }));
    assert!(matches!(a.process_frame(&frame_b), DemuxOutcome::PreOpenSignaled { .. }));
    assert!(a.recv_pre_open_signal(sub_a.id()));
    assert!(b.recv_pre_open_signal(sub_b.id()));
    let mut owned_a = OwnedMultiplexedSubscription::from(sub_a);
    let mut owned_b = OwnedMultiplexedSubscription::from(sub_b);
    owned_a.mark_open();
    owned_b.mark_open();
    (owned_a, owned_b)
}

#[test]
fn symmetric_id_allocation() {
    let (mut a, mut b) = pair();
    for _ in 0..5 {
        assert_eq!(a.get_next_id(), b.get_next_id());
    }
    assert_eq!(a.get_next_id(), SymmetricConvID(6));
}

#[test]
fn single_substream_echo() {
    let (mut a, mut b) = pair();
    let (sub_a, sub_b) = open_pair(&mut a, &mut b);

    let frame = sub_a.send_to_peer(&a, &[0x01, 0x02, 0x03]).unwrap();
    assert!(matches!(b.process_frame(&frame), DemuxOutcome::Delivered { .. }));
    let got = sub_b.recv(&mut b).unwrap().unwrap();
    assert_eq!(got, vec![0x01, 0x02, 0x03]);

    // echo it back
    let frame = sub_b.send_to_peer(&b, &got).unwrap();
    assert!(matches!(a.process_frame(&frame), DemuxOutcome::Delivered { .. }));
    assert_eq!(sub_a.recv(&mut a).unwrap().unwrap(), vec![0x01, 0x02, 0x03]);
}

#[test]
fn payloads_arrive_in_send_order() {
    let (mut a, mut b) = pair();
    let (sub_a, sub_b) = open_pair(&mut a, &mut b);
    for k in 0u8..10 {
        let frame = sub_a.send_to_peer(&a, &[k, k + 1]).unwrap();
        b.process_frame(&frame);
    }
    for k in 0u8..10 {
        assert_eq!(sub_b.recv(&mut b).unwrap().unwrap(), vec![k, k + 1]);
    }
    assert_eq!(sub_b.recv(&mut b).unwrap(), None);
}

#[test]
fn two_concurrent_substreams() {
    let (mut a, mut b) = pair();
    let (s1_a, s1_b) = open_pair(&mut a, &mut b);
    let (s2_a, s2_b) = open_pair(&mut a, &mut b);
    assert_ne!(s1_a.id(), s2_a.id());

    let f1 = s1_a.send_to_peer(&a, b"hello").unwrap();
    let f2 = s2_a.send_to_peer(&a, b"world").unwrap();
    // deliver in the opposite order: routing does not depend on interleaving
    b.process_frame(&f2);
    b.process_frame(&f1);

    assert_eq!(s1_b.recv(&mut b).unwrap().unwrap(), b"hello".to_vec());
    assert_eq!(s2_b.recv(&mut b).unwrap().unwrap(), b"world".to_vec());
    // no crossover: nothing else is buffered on either substream
    assert_eq!(s1_b.recv(&mut b).unwrap(), None);
    assert_eq!(s2_b.recv(&mut b).unwrap(), None);
}

#[test]
fn clean_close() {
    let (mut a, mut b) = pair();
    let (mut sub_a, mut sub_b) = open_pair(&mut a, &mut b);

    let frame = sub_a.send_to_peer(&a, &[9]).unwrap();
    b.process_frame(&frame);
    assert_eq!(sub_b.recv(&mut b).unwrap().unwrap(), vec![9]);

    // initiator drops its handle: one PostDrop goes out
    let drop_a = sub_a.begin_close();
    assert!(matches!(b.process_frame(&drop_a), DemuxOutcome::PostCloseSignaled { .. }));

    // observing it tears the responder's registry entry down at once:
    // the responder's recv now reads as connection reset
    assert!(!b.has_subscriber(sub_b.id()));
    assert_eq!(b.subscriber_count(), 0);
    assert_eq!(sub_b.recv(&mut b), Err(StreamError::ConnectionReset));

    // the reset makes the responder drop its own handle
    let drop_b = sub_b.begin_close();
    assert!(matches!(a.process_frame(&drop_b), DemuxOutcome::PostCloseSignaled { .. }));

    assert!(a.recv_post_close_signal_from_stream(sub_a.id()));
    assert!(b.recv_post_close_signal_from_stream(sub_b.id()));
    netbeam::subscription::close_sequence_for_multiplexed_bistream(&mut a, &mut sub_a);
    netbeam::subscription::close_sequence_for_multiplexed_bistream(&mut b, &mut sub_b);

    // both registries are empty again
    assert_eq!(a.subscriber_count(), 0);
    assert_eq!(b.subscriber_count(), 0);
    assert_eq!(sub_b.recv(&mut b), Err(StreamError::ConnectionReset));

    // a second signal for the same id is a spent one-shot
    assert!(!b.recv_post_close_signal_from_stream(sub_b.id()));
}

#[test]
fn post_drop_drains_buffered_payloads_then_resets() {
    let (mut a, mut b) = pair();
    let (mut sub_a, sub_b) = open_pair(&mut a, &mut b);

    // two payloads are still buffered when the peer's drop arrives
    let f1 = sub_a.send_to_peer(&a, &[1]).unwrap();
    let f2 = sub_a.send_to_peer(&a, &[2]).unwrap();
    b.process_frame(&f1);
    b.process_frame(&f2);
    let drop_a = sub_a.begin_close();
    assert!(matches!(b.process_frame(&drop_a), DemuxOutcome::PostCloseSignaled { .. }));

    // the registry entry is gone, but the backlog drains in order first
    assert!(!b.has_subscriber(sub_b.id()));
    assert_eq!(sub_b.recv(&mut b).unwrap().unwrap(), vec![1]);
    assert_eq!(sub_b.recv(&mut b).unwrap().unwrap(), vec![2]);
    assert_eq!(sub_b.recv(&mut b), Err(StreamError::ConnectionReset));

    // new data for the torn-down substream is dropped as unknown
    let stray = sub_a_frame(sub_b.id(), vec![3]);
    assert!(matches!(b.process_frame(&stray), DemuxOutcome::UnknownId { .. }));
}

fn sub_a_frame(id: SymmetricConvID, payload: Vec<u8>) -> Vec<u8> {
    encode_packet(&MultiplexedPacket::ApplicationLayer { id, payload })
}

#[test]
fn subscribe_then_close_leaves_registry_empty() {
    let (mut a, _b) = pair();
    let id = SymmetricConvID(5);
    let sub = a.subscribe(id);
    assert!(a.has_subscriber(id));
    assert_eq!(a.subscriber_count(), 1);
    // subscribing the same id again keeps a single entry
    let sub2 = a.subscribe(id);
    assert_eq!(a.subscriber_count(), 1);
    drop(sub2);
    let mut owned = OwnedMultiplexedSubscription::from(sub);
    netbeam::subscription::close_sequence_for_multiplexed_bistream(&mut a, &mut owned);
    assert!(!a.has_subscriber(id));
    assert_eq!(a.subscriber_count(), 0);
}

#[test]
fn frame_for_unknown_id_is_dropped() {
    let (mut a, mut b) = pair();
    let (sub_a, sub_b) = open_pair(&mut a, &mut b);

    let stray = encode_packet(&MultiplexedPacket::ApplicationLayer {
        id: SymmetricConvID(999),
        payload: vec![1, 2, 3],
    });
    assert!(matches!(
        b.process_frame(&stray),
        DemuxOutcome::UnknownId { id: SymmetricConvID(999) }
    ));
    assert!(!b.is_failed());

    // traffic on the live substream is unaffected
    let frame = sub_a.send_to_peer(&a, &[7]).unwrap();
    b.process_frame(&frame);
    assert_eq!(sub_b.recv(&mut b).unwrap().unwrap(), vec![7]);
}

#[test]
fn greeter_is_ignored_and_bad_frame_is_fatal() {
    let (mut a, _b) = pair();
    let greet = encode_packet(&MultiplexedPacket::Greeter);
    assert_eq!(a.process_frame(&greet), DemuxOutcome::GreeterIgnored);
    assert!(!a.is_failed());
    assert_eq!(a.process_frame(&[0xFF, 0xFF]), DemuxOutcome::Fatal);
    assert!(a.is_failed());
}

#[test]
fn transport_failure_resets_all_substreams() {
    let (mut a, mut b) = pair();
    let (s1_a, s1_b) = open_pair(&mut a, &mut b);
    let (_s2_a, s2_b) = open_pair(&mut a, &mut b);

    // one payload is already buffered on s1 when the transport dies
    let frame = s1_a.send_to_peer(&a, &[5]).unwrap();
    b.process_frame(&frame);
    b.on_transport_error();

    // buffered data still drains, then the reset surfaces
    assert_eq!(s1_b.recv(&mut b).unwrap().unwrap(), vec![5]);
    assert_eq!(s1_b.recv(&mut b), Err(StreamError::ConnectionReset));
    assert_eq!(s2_b.recv(&mut b), Err(StreamError::ConnectionReset));

    // nothing can be sent on a failed multiplexer
    assert_eq!(s1_b.send_to_peer(&b, &[1]), Err(StreamError::TransportFailed));
    assert!(matches!(b.initiate_subscription(), Err(StreamError::TransportFailed)));
}

#[test]
fn duplicate_pre_open_signal_is_one_shot() {
    let (mut a, mut b) = pair();
    let (sub_a, frame_a) = a.initiate_subscription().unwrap();
    let (sub_b, frame_b) = b.initiate_subscription().unwrap();
    a.process_frame(&frame_b);
    // the peer's frame arriving twice latches only one signal
    a.process_frame(&frame_b);
    assert!(a.recv_pre_open_signal(sub_a.id()));
    assert!(!a.recv_pre_open_signal(sub_a.id()));
    b.process_frame(&frame_a);
    assert!(b.recv_pre_open_signal(sub_b.id()));
    drop(sub_a);
    drop(sub_b);
}

#[test]
fn recv_on_never_subscribed_id_is_reset() {
    let (mut a, _b) = pair();
    assert_eq!(a.recv_from(SymmetricConvID(1)), Err(StreamError::ConnectionReset));
}

#[test]
fn subscribable_signals_match_wire_format() {
    let mut a = MultiplexedConn::new(RelativeNodeType::Initiator);
    let id = Subscribable::get_next_id(&mut a);
    assert_eq!(id, SymmetricConvID(1));
    let pre = Subscribable::send_pre_open_signal(&a, id).unwrap();
    assert_eq!(pre, encode_packet(&MultiplexedPacket::PreCreate { id }));
    let post = Subscribable::send_post_close_signal(&a, id).unwrap();
    assert_eq!(post, encode_packet(&MultiplexedPacket::PostDrop { id }));
    let mut owned = Subscribable::owned_subscription(&mut a, id);
    assert_eq!(owned.id(), id);
    assert!(a.has_subscriber(id));
    netbeam::subscription::close_sequence_for_multiplexed_bistream(&mut a, &mut owned);
    assert!(!a.has_subscriber(id));
    // once failed, the signal builders surface the transport error
    a.on_transport_error();
    assert_eq!(Subscribable::send_pre_open_signal(&a, id), Err(StreamError::TransportFailed));
}
