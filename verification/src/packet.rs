use vstd::prelude::*;
use vstd::bytes::{
    lemma_auto_spec_u64_to_from_le_bytes, spec_u64_from_le_bytes, spec_u64_to_le_bytes,
    u64_from_le_bytes, u64_to_le_bytes,
};
use vstd::slice::{slice_subrange, slice_to_vec};
use crate::sync::SymmetricConvID;

verus! {

/// One frame on the wire.  `Greeter` is a sentinel that may precede real
/// traffic and is ignored on receipt; `PreCreate` and `PostDrop` carry the
/// open and close handshakes; `ApplicationLayer` carries user bytes for one
/// substream.
pub enum MultiplexedPacket {
    ApplicationLayer { id: SymmetricConvID, payload: Vec<u8> },
    PostDrop { id: SymmetricConvID },
    PreCreate { id: SymmetricConvID },
    Greeter,
}

/// The mathematical value of a packet: the identifier as an integer and the
/// payload as a byte sequence.
#[verifier::ext_equal]
pub enum PacketModel {
    ApplicationLayer { id: u64, payload: Seq<u8> },
    PostDrop { id: u64 },
    PreCreate { id: u64 },
    Greeter,
}

impl View for MultiplexedPacket {
    type V = PacketModel;

    open spec fn view(&self) -> PacketModel {
        match self {
            MultiplexedPacket::ApplicationLayer { id, payload } => {
                PacketModel::ApplicationLayer { id: id.0, payload: payload@ }
            },
            MultiplexedPacket::PostDrop { id } => PacketModel::PostDrop { id: id.0 },
            MultiplexedPacket::PreCreate { id } => PacketModel::PreCreate { id: id.0 },
            MultiplexedPacket::Greeter => PacketModel::Greeter,
        }
    }
}

/// The first four bytes of a frame: the variant tag as a 32-bit
/// little-endian value.
pub open spec fn spec_tag(t: u8) -> Seq<u8> {
    seq![t, 0u8, 0u8, 0u8]
}

/// A packet whose payload length fits the 64-bit length field of the wire
/// format.  Every packet built from a `Vec<u8>` payload satisfies this.
pub open spec fn wf_packet(p: PacketModel) -> bool {
    p matches PacketModel::ApplicationLayer { payload, .. } ==> payload.len() <= u64::MAX
}

/// The wire encoding: the variant tag as a u32, then the identifier as a
/// u64, then for data frames the payload behind its u64 length, every number
/// little-endian.
pub open spec fn spec_encode(p: PacketModel) -> Seq<u8> {
    match p {
        PacketModel::ApplicationLayer { id, payload } => {
            spec_tag(0) + spec_u64_to_le_bytes(id) + spec_u64_to_le_bytes(payload.len() as u64)
                + payload
        },
        PacketModel::PostDrop { id } => spec_tag(1) + spec_u64_to_le_bytes(id),
        PacketModel::PreCreate { id } => spec_tag(2) + spec_u64_to_le_bytes(id),
        PacketModel::Greeter => spec_tag(3),
    }
}

/// The decoder: `None` on every byte string that is not exactly the encoding
/// of one packet.
pub open spec fn spec_decode(b: Seq<u8>) -> Option<PacketModel> {
    if b.len() < 4 || b[1] != 0 || b[2] != 0 || b[3] != 0 {
        None
    } else if b[0] == 0 {
        if b.len() < 20 {
            None
        } else {
            let id = spec_u64_from_le_bytes(b.subrange(4, 12));
            let n = spec_u64_from_le_bytes(b.subrange(12, 20));
            if b.len() == 20 + n {
                Some(
                    PacketModel::ApplicationLayer {
                        id,
                        payload: b.subrange(20, b.len() as int),
                    },
                )
            } else {
                None
            }
        }
    } else if b[0] == 1 {
        if b.len() == 12 {
            Some(PacketModel::PostDrop { id: spec_u64_from_le_bytes(b.subrange(4, 12)) })
        } else {
            None
        }
    } else if b[0] == 2 {
        if b.len() == 12 {
            Some(PacketModel::PreCreate { id: spec_u64_from_le_bytes(b.subrange(4, 12)) })
        } else {
            None
        }
    } else if b[0] == 3 {
        if b.len() == 4 {
            Some(PacketModel::Greeter)
        } else {
            None
        }
    } else {
        None
    }
}

/// Law: encoding a packet and decoding the bytes yields the packet back.
pub proof fn lemma_packet_round_trip(p: PacketModel)
    requires
        wf_packet(p),
    ensures
        spec_decode(spec_encode(p)) == Some(p),
{
    lemma_auto_spec_u64_to_from_le_bytes();
    let b = spec_encode(p);
    match p {
        PacketModel::ApplicationLayer { id, payload } => {
            let idb = spec_u64_to_le_bytes(id);
            let lenb = spec_u64_to_le_bytes(payload.len() as u64);
            assert(b.len() == 20 + payload.len());
            assert(b.subrange(4, 12) =~= idb);
            assert(b.subrange(12, 20) =~= lenb);
            assert(b.subrange(20, b.len() as int) =~= payload);
            assert(spec_decode(b) == Some(p));
        },
        PacketModel::PostDrop { id } => {
            assert(b.subrange(4, 12) =~= spec_u64_to_le_bytes(id));
            assert(spec_decode(b) == Some(p));
        },
        PacketModel::PreCreate { id } => {
            assert(b.subrange(4, 12) =~= spec_u64_to_le_bytes(id));
            assert(spec_decode(b) == Some(p));
        },
        PacketModel::Greeter => {
            assert(spec_decode(b) == Some(p));
        },
    }
}

/// Builds the wire bytes of one packet.
pub fn encode_packet(p: &MultiplexedPacket) -> (r: Vec<u8>)
    ensures
        r@ == spec_encode(p@),
{
    match p {
        MultiplexedPacket::ApplicationLayer { id, payload } => {
            let mut out: Vec<u8> = Vec::new();
            out.push(0u8);
            out.push(0u8);
            out.push(0u8);
            out.push(0u8);
            let mut idb = u64_to_le_bytes(id.0);
            out.append(&mut idb);
            let mut lenb = u64_to_le_bytes(payload.len() as u64);
            out.append(&mut lenb);
            out.extend_from_slice(payload.as_slice());
            proof {
                assert(out@ =~= spec_encode(p@));
            }
            out
        },
        MultiplexedPacket::PostDrop { id } => {
            let mut out: Vec<u8> = Vec::new();
            out.push(1u8);
            out.push(0u8);
            out.push(0u8);
            out.push(0u8);
            let mut idb = u64_to_le_bytes(id.0);
            out.append(&mut idb);
            proof {
                assert(out@ =~= spec_encode(p@));
            }
            out
        },
        MultiplexedPacket::PreCreate { id } => {
            let mut out: Vec<u8> = Vec::new();
            out.push(2u8);
            out.push(0u8);
            out.push(0u8);
            out.push(0u8);
            let mut idb = u64_to_le_bytes(id.0);
            out.append(&mut idb);
            proof {
                assert(out@ =~= spec_encode(p@));
            }
            out
        },
        MultiplexedPacket::Greeter => {
            let mut out: Vec<u8> = Vec::new();
            out.push(3u8);
            out.push(0u8);
            out.push(0u8);
            out.push(0u8);
            proof {
                assert(out@ =~= spec_encode(p@));
            }
            out
        },
    }
}

/// Parses one frame; `None` exactly where the bytes are not the encoding of
/// a packet.
pub fn decode_packet(b: &[u8]) -> (r: Option<MultiplexedPacket>)
    ensures
        match r {
            Some(p) => spec_decode(b@) == Some(p@),
            None => spec_decode(b@) is None,
        },
{
    let n = b.len();
    if n < 4 {
        return None;
    }
    let t = b[0];
    if b[1] != 0 || b[2] != 0 || b[3] != 0 {
        return None;
    }
    if t == 0 {
        if n < 20 {
            return None;
        }
        let id = u64_from_le_bytes(slice_subrange(b, 4, 12));
        let plen = u64_from_le_bytes(slice_subrange(b, 12, 20));
        if (n - 20) as u64 != plen {
            return None;
        }
        let payload = slice_to_vec(slice_subrange(b, 20, n));
        let p = MultiplexedPacket::ApplicationLayer { id: SymmetricConvID(id), payload };
        proof {
            assert(p@->ApplicationLayer_payload =~= b@.subrange(20, b@.len() as int));
        }
        Some(p)
    } else if t == 1 {
        if n != 12 {
            return None;
        }
        let id = u64_from_le_bytes(slice_subrange(b, 4, 12));
        Some(MultiplexedPacket::PostDrop { id: SymmetricConvID(id) })
    } else if t == 2 {
        if n != 12 {
            return None;
        }
        let id = u64_from_le_bytes(slice_subrange(b, 4, 12));
        Some(MultiplexedPacket::PreCreate { id: SymmetricConvID(id) })
    } else if t == 3 {
        if n != 4 {
            return None;
        }
        Some(MultiplexedPacket::Greeter)
    } else {
        None
    }
}

/// A payload wrapped in one application-layer frame per identifier in `ids`,
/// outermost identifier first: what a substream at that nesting depth puts
/// on the root transport.
pub open spec fn spec_wrap(p: Seq<u8>, ids: Seq<u64>) -> Seq<u8>
    decreases ids.len(),
{
    if ids.len() == 0 {
        p
    } else {
        spec_encode(
            PacketModel::ApplicationLayer { id: ids[0], payload: spec_wrap(p, ids.drop_first()) },
        )
    }
}

/// Peels `depth` application-layer frames off a byte string.
pub open spec fn spec_unwrap(b: Seq<u8>, depth: nat) -> Option<Seq<u8>>
    decreases depth,
{
    if depth == 0 {
        Some(b)
    } else {
        match spec_decode(b) {
            Some(PacketModel::ApplicationLayer { payload, .. }) => {
                spec_unwrap(payload, (depth - 1) as nat)
            },
            _ => None,
        }
    }
}

proof fn lemma_wrap_len(p: Seq<u8>, ids: Seq<u64>)
    requires
        p.len() + 20 * ids.len() <= u64::MAX,
    ensures
        spec_wrap(p, ids).len() == p.len() + 20 * ids.len(),
    decreases ids.len(),
{
    lemma_auto_spec_u64_to_from_le_bytes();
    if ids.len() > 0 {
        lemma_wrap_len(p, ids.drop_first());
        assert(spec_wrap(p, ids).len() == 20 + spec_wrap(p, ids.drop_first()).len());
    }
}

/// Law: a payload wrapped through any nesting depth is recovered exactly by
/// unwrapping, so a substream at any depth carries bytes unchanged.
pub proof fn lemma_nested_round_trip(p: Seq<u8>, ids: Seq<u64>)
    requires
        p.len() + 20 * ids.len() <= u64::MAX,
    ensures
        spec_unwrap(spec_wrap(p, ids), ids.len()) == Some(p),
    decreases ids.len(),
{
    if ids.len() > 0 {
        let inner = spec_wrap(p, ids.drop_first());
        lemma_wrap_len(p, ids.drop_first());
        lemma_packet_round_trip(PacketModel::ApplicationLayer { id: ids[0], payload: inner });
        lemma_nested_round_trip(p, ids.drop_first());
    }
}

} // verus!
