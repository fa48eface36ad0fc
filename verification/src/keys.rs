//! Keys of the two sides of a channel, and the node key that signs.

use bitcoin::secp256k1;
use vstd::prelude::*;

verus! {

/// Whether these bytes are the serialization of a point on secp256k1.
pub uninterp spec fn public_key_parses(bytes: Seq<u8>) -> bool;

/// Whether these bytes are a secret key: a number that is not zero and lies
/// below the order of secp256k1.
pub uninterp spec fn secret_key_parses(bytes: Seq<u8>) -> bool;

/// The compressed serialization of the public key of a secret key.
pub uninterp spec fn public_key_of(secret: Seq<u8>) -> Seq<u8>;

/// The compact ECDSA signature that a secret key gives to a 32-byte digest,
/// with the nonce of RFC 6979.
pub uninterp spec fn ecdsa_signature(secret: Seq<u8>, digest: Seq<u8>) -> Seq<u8>;

/// Whether a compact signature is a valid ECDSA signature of a 32-byte
/// digest under a public key.
pub uninterp spec fn ecdsa_verifies(key: Seq<u8>, digest: Seq<u8>, signature: Seq<u8>) -> bool;

/// Calls `PublicKey::from_slice` of `secp256k1` and says whether it
/// accepted the bytes.
#[verifier::external_body]
fn check_public_key(bytes: &[u8; 33]) -> (ok: bool)
    ensures
        ok == public_key_parses(bytes@),
{
    secp256k1::PublicKey::from_slice(bytes).is_ok()
}

/// Calls `SecretKey::from_slice` of `secp256k1` and says whether it
/// accepted the bytes.
#[verifier::external_body]
fn check_secret_key(bytes: &[u8; 32]) -> (ok: bool)
    ensures
        ok == secret_key_parses(bytes@),
{
    secp256k1::SecretKey::from_slice(bytes).is_ok()
}

/// Calls `PublicKey::from_secret_key` of `secp256k1` and serializes the
/// result, which is a point of the curve and so parses again.
#[verifier::external_body]
fn derive_public_key(secret: &[u8; 32]) -> (key: [u8; 33])
    requires
        secret_key_parses(secret@),
    ensures
        key@ == public_key_of(secret@),
        public_key_parses(key@),
{
    let sk = secp256k1::SecretKey::from_slice(secret).expect("checked by the caller");
    secp256k1::PublicKey::from_secret_key(secp256k1::SECP256K1, &sk).serialize()
}

/// Calls `Secp256k1::sign_ecdsa` of `secp256k1` on the digest and serializes
/// the signature in compact form.
#[verifier::external_body]
fn sign_digest(secret: &[u8; 32], digest: &[u8; 32]) -> (signature: [u8; 64])
    requires
        secret_key_parses(secret@),
    ensures
        signature@ == ecdsa_signature(secret@, digest@),
{
    let sk = secp256k1::SecretKey::from_slice(secret).expect("checked by the caller");
    let msg = secp256k1::Message::from_slice(digest).expect("a digest has 32 bytes");
    secp256k1::SECP256K1.sign_ecdsa(&msg, &sk).serialize_compact()
}

/// Calls `Secp256k1::verify_ecdsa` of `secp256k1`. A signature that does not
/// parse in compact form verifies nothing.
#[verifier::external_body]
fn verify_digest(key: &[u8; 33], digest: &[u8; 32], signature: &[u8; 64]) -> (ok: bool)
    requires
        public_key_parses(key@),
    ensures
        ok == ecdsa_verifies(key@, digest@, signature@),
{
    let pk = secp256k1::PublicKey::from_slice(key).expect("checked by the caller");
    let msg = secp256k1::Message::from_slice(digest).expect("a digest has 32 bytes");
    match secp256k1::ecdsa::Signature::from_compact(signature) {
        Ok(sig) => secp256k1::SECP256K1.verify_ecdsa(&msg, &sig, &pk).is_ok(),
        Err(_) => false,
    }
}

/// The secret key that is the number one.
pub open spec fn one_key() -> Seq<u8> {
    Seq::new(32, |i: int| if i == 31 { 1u8 } else { 0u8 })
}

/// Calls `PublicKey::from_secret_key` of `secp256k1` on its constant
/// `ONE_KEY`, the secret key one, and serializes the result: the generator
/// of the curve, which parses again.
#[verifier::external_body]
fn generator() -> (key: [u8; 33])
    ensures
        key@ == public_key_of(one_key()),
        public_key_parses(key@),
{
    secp256k1::PublicKey::from_secret_key(secp256k1::SECP256K1, &secp256k1::ONE_KEY).serialize()
}

/// A point on secp256k1 in its compressed serialization.
#[derive(Clone, Copy, PartialEq, Eq, Debug, Hash)]
pub struct PublicKey {
    bytes: [u8; 33],
}

impl View for PublicKey {
    type V = Seq<u8>;

    closed spec fn view(&self) -> Seq<u8> {
        self.bytes@
    }
}

impl PublicKey {
    #[verifier::type_invariant]
    pub closed spec fn inv(self) -> bool {
        public_key_parses(self.bytes@)
    }

    /// The key that these bytes serialize, if they serialize one.
    pub fn from_bytes(bytes: [u8; 33]) -> (key: Option<PublicKey>)
        ensures
            key is Some <==> public_key_parses(bytes@),
            key matches Some(k) ==> k@ == bytes@,
    {
        if check_public_key(&bytes) {
            Some(PublicKey { bytes })
        } else {
            None
        }
    }

    /// The key that stands in where none is known yet: the generator of
    /// the curve.
    pub fn dumb() -> (key: PublicKey)
        ensures
            key@ == public_key_of(one_key()),
    {
        PublicKey { bytes: generator() }
    }

    /// The compressed serialization of the key.
    pub fn serialize(&self) -> (bytes: [u8; 33])
        ensures
            bytes@ == self@,
            public_key_parses(bytes@),
    {
        proof {
            use_type_invariant(self);
        }
        self.bytes
    }

    /// Whether `signature` signs `digest` under this key.
    pub fn verifies(&self, digest: &[u8; 32], signature: &Signature) -> (ok: bool)
        ensures
            ok == ecdsa_verifies(self@, digest@, signature@),
    {
        proof {
            use_type_invariant(self);
        }
        verify_digest(&self.bytes, digest, &signature.0)
    }
}

/// A serialized key has 33 bytes.
pub proof fn lemma_key_length(key: PublicKey)
    ensures
        key@.len() == 33,
{
    broadcast use vstd::array::group_array_axioms;

}

/// An ECDSA signature in compact form: `r` and `s`, 32 bytes each.
#[derive(Clone, Copy, PartialEq, Eq, Debug, Hash)]
pub struct Signature(pub [u8; 64]);

impl View for Signature {
    type V = Seq<u8>;

    open spec fn view(&self) -> Seq<u8> {
        self.0@
    }
}

/// The local node: its secret key and the public key it is known by.
#[derive(Clone, Copy)]
pub struct LocalNode {
    secret: [u8; 32],
    id: PublicKey,
}

impl LocalNode {
    #[verifier::type_invariant]
    pub closed spec fn inv(self) -> bool {
        secret_key_parses(self.secret@) && self.id@ == public_key_of(self.secret@)
    }

    /// The secret key of the node.
    pub closed spec fn secret(&self) -> Seq<u8> {
        self.secret@
    }

    /// The public key of the node.
    pub closed spec fn public_key(&self) -> PublicKey {
        self.id
    }

    /// The node with this secret key, if it is one.
    pub fn with(secret: [u8; 32]) -> (node: Option<LocalNode>)
        ensures
            node is Some <==> secret_key_parses(secret@),
            node matches Some(n) ==> n.secret() == secret@,
    {
        if check_secret_key(&secret) {
            let id = PublicKey { bytes: derive_public_key(&secret) };
            Some(LocalNode { secret, id })
        } else {
            None
        }
    }

    /// The public key of the node.
    pub fn node_id(&self) -> (id: PublicKey)
        ensures
            id == self.public_key(),
            id@ == public_key_of(self.secret()),
    {
        proof {
            use_type_invariant(self);
        }
        self.id
    }

    /// Signs a 32-byte digest with the node key.
    pub fn sign(&self, digest: &[u8; 32]) -> (signature: Signature)
        ensures
            signature@ == ecdsa_signature(self.secret(), digest@),
    {
        proof {
            use_type_invariant(self);
        }
        Signature(sign_digest(&self.secret, digest))
    }
}

/// The basepoints of one side of a channel, and its first per-commitment
/// point.
#[derive(Clone, Copy, PartialEq, Eq, Debug)]
pub struct ChannelKeys {
    pub funding_pubkey: PublicKey,
    pub revocation_basepoint: PublicKey,
    pub payment_basepoint: PublicKey,
    pub delayed_payment_basepoint: PublicKey,
    pub htlc_basepoint: PublicKey,
    pub first_per_commitment_point: PublicKey,
}

impl ChannelKeys {
    /// The key set that stands in where none is known yet.
    pub fn dumb() -> (keys: ChannelKeys)
        ensures
            keys.funding_pubkey@ == public_key_of(one_key()),
            keys.revocation_basepoint == keys.funding_pubkey,
            keys.payment_basepoint == keys.funding_pubkey,
            keys.delayed_payment_basepoint == keys.funding_pubkey,
            keys.htlc_basepoint == keys.funding_pubkey,
            keys.first_per_commitment_point == keys.funding_pubkey,
    {
        let key = PublicKey::dumb();
        ChannelKeys {
            funding_pubkey: key,
            revocation_basepoint: key,
            payment_basepoint: key,
            delayed_payment_basepoint: key,
            htlc_basepoint: key,
            first_per_commitment_point: key,
        }
    }
}

} // verus!
