//! The boundary to the messaging layer: deterministic message-id derivation
//! and decoding of inbound envelopes.  Only the two calls below are taken on
//! trust; everything around them is verified against the names they return.

use vstd::prelude::*;

verus! {

/// The message identifier deterministically combined from two names.  The
/// digest behind it depends on its arguments alone.
pub uninterp spec fn combined_msg_id(a: u64, b: u64) -> u64;

/// Whether `bytes` decode to a well-formed message envelope.
pub uninterp spec fn decodable_envelope(bytes: Seq<u8>) -> bool;

#[verifier::external_type_specification]
#[verifier::external_body]
pub struct ExMsgEnvelope(sn_data_types::MsgEnvelope);

/// Relies on sn_data_types::MessageId::combine: a digest of the
/// concatenated names, a function of its arguments alone.
#[verifier::external_body]
pub(crate) fn combine(a: u64, b: u64) -> (r: u64)
    ensures
        r == combined_msg_id(a, b),
{
    let mut left = [0u8; 32];
    left[..8].copy_from_slice(&a.to_be_bytes());
    let mut right = [0u8; 32];
    right[..8].copy_from_slice(&b.to_be_bytes());
    let id = sn_data_types::MessageId::combine(vec![
        xor_name::XorName(left),
        xor_name::XorName(right),
    ]);
    let mut out = [0u8; 8];
    out.copy_from_slice(&(id.0).0[..8]);
    u64::from_be_bytes(out)
}

/// Relies on bincode::deserialize for sn_data_types::MsgEnvelope: whether
/// the bytes decode, and to what, depends on the bytes alone.
#[verifier::external_body]
pub(crate) fn deserialize_envelope(bytes: &[u8]) -> (r: Option<sn_data_types::MsgEnvelope>)
    ensures
        r is Some <==> decodable_envelope(bytes@),
{
    bincode::deserialize::<sn_data_types::MsgEnvelope>(bytes).ok()
}

/// The message identifier a replication instruction for the chunk named
/// `address` must carry when it reaches the node named `our_name`.
pub fn derive_msg_id(address: u64, our_name: u64) -> (r: u64)
    ensures
        r == combined_msg_id(address, our_name),
{
    combine(address, our_name)
}

} // verus!
