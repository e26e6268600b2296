use netbeam::packet::{decode_packet, encode_packet, MultiplexedPacket};
use netbeam::sync::SymmetricConvID;

fn round_trip(p: &MultiplexedPacket) -> MultiplexedPacket {
    let bytes = encode_packet(p);
    decode_packet(&bytes).expect("encoded packet must decode")
}

#[test]
fn round_trip_application_layer() {
    let p = MultiplexedPacket::ApplicationLayer {
        id: SymmetricConvID(42),
        payload: vec![0x01, 0x02, 0x03],
    };
    match round_trip(&p) {
        MultiplexedPacket::ApplicationLayer { id, payload } => {
            assert_eq!(id, SymmetricConvID(42));
            assert_eq!(payload, vec![0x01, 0x02, 0x03]);
        }
        _ => panic!("wrong variant after round trip"),
    }
}

#[test]
fn round_trip_empty_payload() {
    let p = MultiplexedPacket::ApplicationLayer { id: SymmetricConvID(0), payload: vec![] };
    match round_trip(&p) {
        MultiplexedPacket::ApplicationLayer { id, payload } => {
            assert_eq!(id, SymmetricConvID(0));
            assert!(payload.is_empty());
        }
        _ => panic!("wrong variant after round trip"),
    }
}

#[test]
fn round_trip_control_packets() {
    match round_trip(&MultiplexedPacket::PreCreate { id: SymmetricConvID(7) }) {
        MultiplexedPacket::PreCreate { id } => assert_eq!(id, SymmetricConvID(7)),
        _ => panic!("wrong variant after round trip"),
    }
    match round_trip(&MultiplexedPacket::PostDrop { id: SymmetricConvID(u64::MAX) }) {
        MultiplexedPacket::PostDrop { id } => assert_eq!(id, SymmetricConvID(u64::MAX)),
        _ => panic!("wrong variant after round trip"),
    }
    assert!(matches!(round_trip(&MultiplexedPacket::Greeter), MultiplexedPacket::Greeter));
}

#[test]
fn encoding_matches_bincode2() {
    // The wire format is what bincode2's default configuration produces for
    // the tagged union: u32 variant tag, u64 fields, u64 length before
    // payload bytes, all little-endian.
    let app = encode_packet(&MultiplexedPacket::ApplicationLayer {
        id: SymmetricConvID(7),
        payload: vec![0xAA, 0xBB, 0xCC],
    });
    let expected = bincode2::serialize(&(0u32, 7u64, vec![0xAAu8, 0xBB, 0xCC])).unwrap();
    assert_eq!(app, expected);

    let post = encode_packet(&MultiplexedPacket::PostDrop { id: SymmetricConvID(9) });
    assert_eq!(post, bincode2::serialize(&(1u32, 9u64)).unwrap());

    let pre = encode_packet(&MultiplexedPacket::PreCreate { id: SymmetricConvID(300) });
    assert_eq!(pre, bincode2::serialize(&(2u32, 300u64)).unwrap());

    let greet = encode_packet(&MultiplexedPacket::Greeter);
    assert_eq!(greet, bincode2::serialize(&3u32).unwrap());
}

#[test]
fn decode_rejects_bad_frames() {
    assert!(decode_packet(&[]).is_none());
    assert!(decode_packet(&[0]).is_none());
    // unknown tag
    assert!(decode_packet(&[9, 0, 0, 0]).is_none());
    // tag bytes not a small u32
    assert!(decode_packet(&[0, 1, 0, 0]).is_none());
    // truncated control frame
    assert!(decode_packet(&[2, 0, 0, 0, 1, 0, 0]).is_none());
    // greeter with trailing bytes
    assert!(decode_packet(&[3, 0, 0, 0, 1]).is_none());
    // data frame whose length field disagrees with the bytes present
    let mut frame = encode_packet(&MultiplexedPacket::ApplicationLayer {
        id: SymmetricConvID(1),
        payload: vec![1, 2, 3],
    });
    frame.pop();
    assert!(decode_packet(&frame).is_none());
}
