//! The numbers and outputs of a commitment transaction.

use crate::bytes::append_slice;
use crate::crypto::{
    sha256, sha256_of, to_local_output, to_local_script_pubkey, to_remote_output,
    to_remote_script_pubkey, TxOutput,
};
use crate::keys::PublicKey;
use vstd::prelude::*;

verus! {

/// Version of every commitment transaction.
pub const COMMITMENT_VERSION: i32 = 2;

/// The number that eight bytes spell, most significant byte first.
pub open spec fn be_u64(b: Seq<u8>) -> u64 {
    (b[0] as int * 0x100_0000_0000_0000 + b[1] as int * 0x1_0000_0000_0000 + b[2] as int
        * 0x100_0000_0000 + b[3] as int * 0x1_0000_0000 + b[4] as int * 0x100_0000 + b[5] as int
        * 0x1_0000 + b[6] as int * 0x100 + b[7] as int) as u64
}

/// The factor that hides the commitment number of a channel: the last eight
/// bytes of the SHA-256 hash of the opener's payment basepoint followed by
/// the responder's, read most significant byte first.
pub open spec fn obscuring_factor_of(opener: Seq<u8>, responder: Seq<u8>) -> u64 {
    be_u64(sha256_of(opener + responder).subrange(24, 32))
}

/// The 48 bits of a commitment number, hidden by the low 48 bits of the
/// obscuring factor.
pub open spec fn obscured_commitment_number(number: u64, factor: u64) -> u64 {
    (number ^ factor) & 0xFFFF_FFFF_FFFF
}

/// The lock time of a commitment transaction: `0x20` above the low 24 bits
/// of the obscured commitment number.
pub open spec fn lock_time_of(obscured: u64) -> u32 {
    (0x2000_0000 | (obscured & 0xFF_FFFF)) as u32
}

/// The sequence of the input of a commitment transaction: `0x80` above the
/// high 24 bits of the obscured commitment number.
pub open spec fn sequence_of(obscured: u64) -> u32 {
    (0x8000_0000 | ((obscured >> 24) & 0xFF_FFFF)) as u32
}

/// The outputs of a commitment transaction, as values and scripts: the
/// delayed output of its holder, then the output of the other side. An
/// output without value is left out.
pub open spec fn commitment_outputs(
    to_local: u64,
    revocation: Seq<u8>,
    delayed: Seq<u8>,
    to_self_delay: u16,
    to_remote: u64,
    remote_key: Seq<u8>,
) -> Seq<(u64, Seq<u8>)> {
    let local = if to_local > 0 {
        seq![(to_local, to_local_script_pubkey(to_local, revocation, delayed, to_self_delay))]
    } else {
        Seq::<(u64, Seq<u8>)>::empty()
    };
    let remote = if to_remote > 0 {
        seq![(to_remote, to_remote_script_pubkey(to_remote, remote_key))]
    } else {
        Seq::<(u64, Seq<u8>)>::empty()
    };
    local + remote
}

/// Computes the obscuring factor from the serialized payment basepoints of
/// the opener and of the responder.
pub fn obscuring_factor_from(opener: &[u8; 33], responder: &[u8; 33]) -> (factor: u64)
    ensures
        factor == obscuring_factor_of(opener@, responder@),
{
    let mut data: Vec<u8> = Vec::new();
    append_slice(&mut data, opener.as_slice());
    append_slice(&mut data, responder.as_slice());
    assert(data@ =~= opener@ + responder@);
    let h = sha256(data.as_slice());
    assert(h@.subrange(24, 32) =~= seq![h@[24], h@[25], h@[26], h@[27], h@[28], h@[29], h@[30], h@[31]]);
    (h[24] as u64) * 0x100_0000_0000_0000 + (h[25] as u64) * 0x1_0000_0000_0000 + (h[26] as u64)
        * 0x100_0000_0000 + (h[27] as u64) * 0x1_0000_0000 + (h[28] as u64) * 0x100_0000 + (
    h[29] as u64) * 0x1_0000 + (h[30] as u64) * 0x100 + (h[31] as u64)
}

/// Computes the obscuring factor of a channel from the payment basepoints
/// of its two sides.
pub fn obscuring_factor(opener: &PublicKey, responder: &PublicKey) -> (factor: u64)
    ensures
        factor == obscuring_factor_of(opener@, responder@),
{
    obscuring_factor_from(&opener.serialize(), &responder.serialize())
}

/// Hides a commitment number.
pub fn obscure(number: u64, factor: u64) -> (obscured: u64)
    ensures
        obscured == obscured_commitment_number(number, factor),
{
    (number ^ factor) & 0xFFFF_FFFF_FFFF
}

/// The lock time that carries the low half of an obscured commitment number.
pub fn lock_time(obscured: u64) -> (time: u32)
    ensures
        time == lock_time_of(obscured),
{
    let low: u64 = obscured & 0xFF_FFFF;
    assert(0x2000_0000u64 | (obscured & 0xFF_FFFF) <= 0xFFFF_FFFF) by (bit_vector);
    (0x2000_0000u64 | low) as u32
}

/// The sequence that carries the high half of an obscured commitment number.
pub fn sequence(obscured: u64) -> (seq: u32)
    ensures
        seq == sequence_of(obscured),
{
    let high: u64 = (obscured >> 24) & 0xFF_FFFF;
    assert(0x8000_0000u64 | ((obscured >> 24) & 0xFF_FFFF) <= 0xFFFF_FFFF) by (bit_vector);
    (0x8000_0000u64 | high) as u32
}

/// Builds the outputs of a commitment transaction.
pub fn outputs(
    to_local: u64,
    revocation: &PublicKey,
    delayed: &PublicKey,
    to_self_delay: u16,
    to_remote: u64,
    remote_key: &PublicKey,
) -> (outs: Vec<TxOutput>)
    ensures
        crate::crypto::outputs_view(outs@) == commitment_outputs(
            to_local,
            revocation@,
            delayed@,
            to_self_delay,
            to_remote,
            remote_key@,
        ),
{
    let mut outs: Vec<TxOutput> = Vec::new();
    if to_local > 0 {
        let script_pubkey = to_local_output(to_local, revocation, delayed, to_self_delay);
        outs.push(TxOutput { value: to_local, script_pubkey });
    }
    if to_remote > 0 {
        let script_pubkey = to_remote_output(to_remote, remote_key);
        outs.push(TxOutput { value: to_remote, script_pubkey });
    }
    assert(crate::crypto::outputs_view(outs@) =~= commitment_outputs(
        to_local,
        revocation@,
        delayed@,
        to_self_delay,
        to_remote,
        remote_key@,
    ));
    outs
}

/// The lock time and the sequence of a commitment transaction hold the
/// obscured commitment number between them, under their marker bytes.
pub proof fn lemma_number_is_packed(obscured: u64)
    requires
        obscured <= 0xFFFF_FFFF_FFFF,
    ensures
        lock_time_of(obscured) >> 24 == 0x20,
        sequence_of(obscured) >> 24 == 0x80,
        ((sequence_of(obscured) & 0xFF_FFFF) as u64) << 24 | (lock_time_of(obscured) & 0xFF_FFFF) as u64
            == obscured,
{
    assert(((0x2000_0000u64 | (obscured & 0xFF_FFFF)) as u32) >> 24 == 0x20) by (bit_vector);
    assert(((0x8000_0000u64 | ((obscured >> 24) & 0xFF_FFFF)) as u32) >> 24 == 0x80)
        by (bit_vector);
    assert(obscured <= 0xFFFF_FFFF_FFFF ==> ((((0x8000_0000u64 | ((obscured >> 24) & 0xFF_FFFF))
        as u32) & 0xFF_FFFF) as u64) << 24 | ((((0x2000_0000u64 | (obscured & 0xFF_FFFF)) as u32)
        & 0xFF_FFFF) as u64) == obscured) by (bit_vector);
}

} // verus!
