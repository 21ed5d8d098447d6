//! The SCALE-encoded connection proof bundle handed to substrate-side
//! verifiers: a host proof paired with a connection proof, each encoded as a
//! compact-length-prefixed byte vector.

use vstd::prelude::*;

verus! {

broadcast use crate::proto::lemma_empty_concat;

/// The SCALE compact encoding of a length below `2^30`.
pub open spec fn spec_compact_len(n: nat) -> Seq<u8> {
    if n < 64 {
        seq![(n * 4) as u8]
    } else if n < 16384 {
        let v = n * 4 + 1;
        seq![(v % 256) as u8, (v / 256) as u8]
    } else {
        let v = n * 4 + 2;
        seq![
            (v % 256) as u8,
            ((v / 256) % 256) as u8,
            ((v / 65536) % 256) as u8,
            ((v / 16777216) % 256) as u8,
        ]
    }
}

/// The SCALE encoding of a byte vector: its compact length, then its bytes.
pub open spec fn spec_scale_bytes(b: Seq<u8>) -> Seq<u8> {
    spec_compact_len(b.len()) + b
}

/// Relies on `parity_scale_codec::Encode` for `Vec<u8>`: a compact length
/// prefix followed by the bytes themselves.
#[verifier::external_body]
fn scale_encode_bytes(v: &Vec<u8>) -> (r: Vec<u8>)
    requires
        v@.len() < 0x40000000,
    ensures
        r@ == spec_scale_bytes(v@),
{
    parity_scale_codec::Encode::encode(v)
}

/// Connection proof type
#[derive(Clone, Debug)]
pub struct ConnectionProof {
    pub host_proof: Vec<u8>,
    pub connection_proof: Vec<u8>,
}

pub struct ConnectionProofV {
    pub host_proof: Seq<u8>,
    pub connection_proof: Seq<u8>,
}

impl View for ConnectionProof {
    type V = ConnectionProofV;

    open spec fn view(&self) -> ConnectionProofV {
        ConnectionProofV {
            host_proof: self.host_proof@,
            connection_proof: self.connection_proof@,
        }
    }
}

/// The SCALE encoding of the pair: both fields in order.
pub open spec fn spec_connection_proof_bytes(p: ConnectionProofV) -> Seq<u8> {
    spec_scale_bytes(p.host_proof) + spec_scale_bytes(p.connection_proof)
}

impl ConnectionProof {
    /// The SCALE encoding of the bundle, field by field.
    pub fn encode(&self) -> (r: Vec<u8>)
        requires
            self.host_proof@.len() < 0x40000000,
            self.connection_proof@.len() < 0x40000000,
        ensures
            r@ == spec_connection_proof_bytes(self@),
    {
        let mut out = scale_encode_bytes(&self.host_proof);
        let mut tail = scale_encode_bytes(&self.connection_proof);
        out.append(&mut tail);
        out
    }
}

} // verus!
