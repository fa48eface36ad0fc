//! Hashes, scripts and signature digests, as the Bitcoin and Lightning
//! libraries compute them.

use crate::channel_id::OutPoint;
use crate::keys::{public_key_parses, PublicKey};
use amplify::{Slice32, Wrapper};
use bitcoin::hashes;
use bitcoin::secp256k1;
use bitcoin::util::sighash::SighashCache;
use bitcoin::{EcdsaSighashType, PackedLockTime, Script, Sequence, Transaction, TxIn, TxOut, Witness};
use bitcoin_scripts::{LockScript, PubkeyScript};
use lnp::channel::bolt::{LocalPubkey, ScriptGenerators};
use vstd::prelude::*;

verus! {

/// The SHA-256 hash of `data`: 32 bytes.
pub uninterp spec fn sha256_of(data: Seq<u8>) -> Seq<u8>;

/// Whether `a` comes no later than `b` in the order of the dictionary.
pub open spec fn lex_le(a: Seq<u8>, b: Seq<u8>) -> bool
    decreases a.len(),
{
    if a.len() == 0 || b.len() == 0 {
        a.len() <= b.len()
    } else if a[0] != b[0] {
        a[0] < b[0]
    } else {
        lex_le(a.drop_first(), b.drop_first())
    }
}

/// The witness script of a funding output: `2 <key> <key> 2
/// OP_CHECKMULTISIG` over the two serialized funding keys, the lesser one
/// first.
pub open spec fn funding_witness_script(local: Seq<u8>, remote: Seq<u8>) -> Seq<u8> {
    let (first, second) = if lex_le(local, remote) {
        (local, remote)
    } else {
        (remote, local)
    };
    seq![0x52u8, 0x21] + first + seq![0x21u8] + second + seq![0x52u8, 0xae]
}

/// The `scriptPubkey` of a funding output: version 0 and the SHA-256 hash
/// of its witness script.
pub open spec fn funding_script_pubkey(local: Seq<u8>, remote: Seq<u8>) -> Seq<u8> {
    seq![0x00u8, 0x20] + sha256_of(funding_witness_script(local, remote))
}

/// The `scriptPubkey` of the delayed, revocable output of a commitment
/// transaction.
pub uninterp spec fn to_local_script_pubkey(
    amount: u64,
    revocation: Seq<u8>,
    delayed: Seq<u8>,
    to_self_delay: u16,
) -> Seq<u8>;

/// The `scriptPubkey` of the output of a commitment transaction that pays
/// the other side at once.
pub uninterp spec fn to_remote_script_pubkey(amount: u64, key: Seq<u8>) -> Seq<u8>;

/// The BIP143 digest, with `SIGHASH_ALL`, for the only input of a
/// transaction with these fields, spending an output of `value` satoshis
/// under `script_code`.
pub uninterp spec fn segwit_sighash(
    version: i32,
    lock_time: u32,
    txid: Seq<u8>,
    vout: u32,
    sequence: u32,
    outputs: Seq<(u64, Seq<u8>)>,
    script_code: Seq<u8>,
    value: u64,
) -> Seq<u8>;

/// One output of a transaction.
#[derive(Clone, PartialEq, Eq, Debug)]
pub struct TxOutput {
    /// Value in satoshis.
    pub value: u64,
    pub script_pubkey: Vec<u8>,
}

impl View for TxOutput {
    type V = (u64, Seq<u8>);

    open spec fn view(&self) -> (u64, Seq<u8>) {
        (self.value, self.script_pubkey@)
    }
}

/// The outputs of a transaction as values and scripts.
pub open spec fn outputs_view(outputs: Seq<TxOutput>) -> Seq<(u64, Seq<u8>)> {
    outputs.map_values(|o: TxOutput| o@)
}

/// Calls `sha256::Hash::hash` of `bitcoin`.
#[verifier::external_body]
pub(crate) fn sha256(data: &[u8]) -> (digest: [u8; 32])
    ensures
        digest@ == sha256_of(data@),
{
    hashes::Hash::into_inner(<hashes::sha256::Hash as hashes::Hash>::hash(data))
}

/// Calls `LockScript::ln_funding` of `lnp-core` and hands out the bytes of
/// the script. That function sorts the two keys, which secp256k1 orders by
/// their compressed serialization, and pushes `2`, the keys, `2` and
/// `OP_CHECKMULTISIG`; it does not read the amount.
#[verifier::external_body]
fn ln_funding_witness_script(amount: u64, local: &[u8; 33], remote: &[u8; 33]) -> (script: Vec<u8>)
    requires
        public_key_parses(local@),
        public_key_parses(remote@),
    ensures
        script@ == seq![0x52u8, 0x21] + (if lex_le(local@, remote@) {
            local@
        } else {
            remote@
        }) + seq![0x21u8] + (if lex_le(local@, remote@) {
            remote@
        } else {
            local@
        }) + seq![0x52u8, 0xae],
{
    let key = secp256k1::PublicKey::from_slice(local).expect("checked by the caller");
    let local = LocalPubkey { key, source: Default::default() };
    let remote = secp256k1::PublicKey::from_slice(remote).expect("checked by the caller");
    LockScript::ln_funding(amount, &local, remote).into_inner().into_bytes()
}

/// Calls `PubkeyScript::ln_funding` of `lnp-core` and hands out the bytes of
/// the script: version 0 and a push of the SHA-256 hash of the witness
/// script that `LockScript::ln_funding` gives for the same keys.
#[verifier::external_body]
fn ln_funding_script_pubkey(amount: u64, local: &[u8; 33], remote: &[u8; 33]) -> (script: Vec<u8>)
    requires
        public_key_parses(local@),
        public_key_parses(remote@),
    ensures
        script@ == seq![0x00u8, 0x20] + sha256_of(funding_witness_script(local@, remote@)),
{
    let key = secp256k1::PublicKey::from_slice(local).expect("checked by the caller");
    let local = LocalPubkey { key, source: Default::default() };
    let remote = secp256k1::PublicKey::from_slice(remote).expect("checked by the caller");
    PubkeyScript::ln_funding(amount, &local, remote).into_inner().into_bytes()
}

/// Calls `PubkeyScript::ln_to_local` of `lnp-core` and hands out the bytes
/// of the script.
#[verifier::external_body]
fn ln_to_local_script(amount: u64, revocation: &[u8; 33], delayed: &[u8; 33], to_self_delay: u16) -> (script: Vec<u8>)
    requires
        public_key_parses(revocation@),
        public_key_parses(delayed@),
    ensures
        script@ == to_local_script_pubkey(amount, revocation@, delayed@, to_self_delay),
{
    let revocation = secp256k1::PublicKey::from_slice(revocation).expect("checked by the caller");
    let delayed = secp256k1::PublicKey::from_slice(delayed).expect("checked by the caller");
    PubkeyScript::ln_to_local(amount, revocation, delayed, to_self_delay).into_inner().into_bytes()
}

/// Calls `PubkeyScript::ln_to_remote_v1` of `lnp-core` and hands out the
/// bytes of the script.
#[verifier::external_body]
fn ln_to_remote_script(amount: u64, key: &[u8; 33]) -> (script: Vec<u8>)
    requires
        public_key_parses(key@),
    ensures
        script@ == to_remote_script_pubkey(amount, key@),
{
    let key = secp256k1::PublicKey::from_slice(key).expect("checked by the caller");
    PubkeyScript::ln_to_remote_v1(amount, key).into_inner().into_bytes()
}

/// Builds the transaction with these fields and one input without
/// signature, and calls `SighashCache::segwit_signature_hash` of `bitcoin`
/// for that input with `SIGHASH_ALL`.
#[verifier::external_body]
pub(crate) fn sighash_all(
    version: i32,
    lock_time: u32,
    funding: &OutPoint,
    sequence: u32,
    outputs: &Vec<TxOutput>,
    script_code: &Vec<u8>,
    value: u64,
) -> (digest: [u8; 32])
    ensures
        digest@ == segwit_sighash(
            version,
            lock_time,
            funding.txid@,
            funding.vout,
            sequence,
            outputs_view(outputs@),
            script_code@,
            value,
        ),
{
    let previous_output = bitcoin::OutPoint { txid: hashes::Hash::from_inner(funding.txid), vout: funding.vout };
    let input = vec![TxIn { previous_output, script_sig: Script::new(), sequence: Sequence(sequence), witness: Witness::new() }];
    let output = outputs.iter().map(|o| TxOut { value: o.value, script_pubkey: Script::from(o.script_pubkey.clone()) }).collect();
    let tx = Transaction { version, lock_time: PackedLockTime(lock_time), input, output };
    let code = Script::from(script_code.clone());
    let digest = SighashCache::new(&tx).segwit_signature_hash(0, &code, value, EcdsaSighashType::All);
    hashes::Hash::into_inner(digest.expect("the transaction has an input"))
}

/// Calls `Slice32::random` of `amplify`: 32 bytes from the random number
/// generator of the thread. Nothing is known of them.
#[verifier::external_body]
pub(crate) fn random_preimage() -> (preimage: [u8; 32])
{
    Slice32::random().into_inner()
}

/// The witness script of the funding output of a channel between these two
/// funding keys.
pub fn funding_witness(amount: u64, local: &PublicKey, remote: &PublicKey) -> (script: Vec<u8>)
    ensures
        script@ == funding_witness_script(local@, remote@),
{
    ln_funding_witness_script(amount, &local.serialize(), &remote.serialize())
}

/// The `scriptPubkey` of the funding output of a channel between these two
/// funding keys.
pub fn funding_output(amount: u64, local: &PublicKey, remote: &PublicKey) -> (script: Vec<u8>)
    ensures
        script@ == funding_script_pubkey(local@, remote@),
{
    ln_funding_script_pubkey(amount, &local.serialize(), &remote.serialize())
}

/// The `scriptPubkey` of a delayed output that `revocation` can revoke.
pub fn to_local_output(amount: u64, revocation: &PublicKey, delayed: &PublicKey, to_self_delay: u16) -> (script: Vec<u8>)
    ensures
        script@ == to_local_script_pubkey(amount, revocation@, delayed@, to_self_delay),
{
    ln_to_local_script(amount, &revocation.serialize(), &delayed.serialize(), to_self_delay)
}

/// The `scriptPubkey` of an output that pays `key` at once.
pub fn to_remote_output(amount: u64, key: &PublicKey) -> (script: Vec<u8>)
    ensures
        script@ == to_remote_script_pubkey(amount, key@),
{
    ln_to_remote_script(amount, &key.serialize())
}

/// Of two sequences of one length, one comes no later than the other; and
/// they are equal if each comes no later than the other.
pub proof fn lemma_lex_le_is_an_order(a: Seq<u8>, b: Seq<u8>)
    requires
        a.len() == b.len(),
    ensures
        lex_le(a, b) || lex_le(b, a),
        lex_le(a, b) && lex_le(b, a) ==> a == b,
    decreases a.len(),
{
    if a.len() > 0 && a[0] == b[0] {
        lemma_lex_le_is_an_order(a.drop_first(), b.drop_first());
        if lex_le(a, b) && lex_le(b, a) {
            assert(a =~= seq![a[0]] + a.drop_first());
            assert(b =~= seq![b[0]] + b.drop_first());
        }
    } else if a.len() == 0 {
        assert(a =~= b);
    }
}

/// The funding script does not depend on which key is called local: both
/// sides of a channel fund the same output.
pub proof fn lemma_funding_script_is_shared(a: Seq<u8>, b: Seq<u8>)
    requires
        a.len() == b.len(),
    ensures
        funding_witness_script(a, b) == funding_witness_script(b, a),
        funding_script_pubkey(a, b) == funding_script_pubkey(b, a),
{
    lemma_lex_le_is_an_order(a, b);
}

} // verus!
