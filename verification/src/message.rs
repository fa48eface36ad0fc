//! The peer messages of channel establishment and of payments, as plain
//! values.

use crate::channel_id::{ChannelId, TempChannelId};
use crate::keys::{ChannelKeys, PublicKey, Signature};
use vstd::prelude::*;

verus! {

/// `open_channel`: the originator proposes a channel and its parameters.
#[derive(Clone, Copy, PartialEq, Eq, Debug)]
pub struct OpenChannel {
    pub chain_hash: [u8; 32],
    pub temporary_channel_id: TempChannelId,
    pub funding_satoshis: u64,
    pub push_msat: u64,
    pub dust_limit_satoshis: u64,
    pub max_htlc_value_in_flight_msat: u64,
    pub channel_reserve_satoshis: u64,
    pub htlc_minimum_msat: u64,
    pub feerate_per_kw: u32,
    pub to_self_delay: u16,
    pub max_accepted_htlcs: u16,
    pub funding_pubkey: PublicKey,
    pub revocation_basepoint: PublicKey,
    pub payment_point: PublicKey,
    pub delayed_payment_basepoint: PublicKey,
    pub htlc_basepoint: PublicKey,
    pub first_per_commitment_point: PublicKey,
    pub channel_flags: u8,
}

/// `accept_channel`: the responder answers with its own parameters.
#[derive(Clone, Copy, PartialEq, Eq, Debug)]
pub struct AcceptChannel {
    pub temporary_channel_id: TempChannelId,
    pub dust_limit_satoshis: u64,
    pub max_htlc_value_in_flight_msat: u64,
    pub channel_reserve_satoshis: u64,
    pub htlc_minimum_msat: u64,
    pub minimum_depth: u32,
    pub to_self_delay: u16,
    pub max_accepted_htlcs: u16,
    pub funding_pubkey: PublicKey,
    pub revocation_basepoint: PublicKey,
    pub payment_point: PublicKey,
    pub delayed_payment_basepoint: PublicKey,
    pub htlc_basepoint: PublicKey,
    pub first_per_commitment_point: PublicKey,
}

/// `funding_created`: the originator names the funding output and signs the
/// responder's first commitment transaction.
#[derive(Clone, Copy, PartialEq, Eq, Debug)]
pub struct FundingCreated {
    pub temporary_channel_id: TempChannelId,
    pub funding_txid: [u8; 32],
    pub funding_output_index: u16,
    pub signature: Signature,
}

/// `funding_signed`: the responder signs the originator's first commitment
/// transaction.
#[derive(Clone, Copy, PartialEq, Eq, Debug)]
pub struct FundingSigned {
    pub channel_id: ChannelId,
    pub signature: Signature,
}

/// `funding_locked`: the sender has seen the funding transaction buried deep
/// enough.
#[derive(Clone, Copy, PartialEq, Eq, Debug)]
pub struct FundingLocked {
    pub channel_id: ChannelId,
    pub next_per_commitment_point: PublicKey,
}

/// `update_add_htlc`: the sender offers a payment.
#[derive(Clone, Copy, PartialEq, Eq, Debug)]
pub struct UpdateAddHtlc {
    pub channel_id: ChannelId,
    pub htlc_id: u64,
    pub amount_msat: u64,
    pub payment_hash: [u8; 32],
    pub cltv_expiry: u32,
    /// The asset that is paid; the native one if none is named.
    pub asset_id: Option<[u8; 32]>,
}

/// A message of the peer protocol.
#[derive(Clone, Copy, PartialEq, Eq, Debug)]
pub enum Messages {
    OpenChannel(OpenChannel),
    AcceptChannel(AcceptChannel),
    FundingCreated(FundingCreated),
    FundingSigned(FundingSigned),
    FundingLocked(FundingLocked),
    UpdateAddHtlc(UpdateAddHtlc),
    /// Any other message, by its type number.
    Other(u16),
}

impl ChannelKeys {
    /// The keys that the originator announced.
    pub fn from_open_channel(open_channel: &OpenChannel) -> (keys: ChannelKeys)
        ensures
            keys == open_channel_keys(*open_channel),
    {
        ChannelKeys {
            funding_pubkey: open_channel.funding_pubkey,
            revocation_basepoint: open_channel.revocation_basepoint,
            payment_basepoint: open_channel.payment_point,
            delayed_payment_basepoint: open_channel.delayed_payment_basepoint,
            htlc_basepoint: open_channel.htlc_basepoint,
            first_per_commitment_point: open_channel.first_per_commitment_point,
        }
    }

    /// The keys that the responder announced.
    pub fn from_accept_channel(accept_channel: &AcceptChannel) -> (keys: ChannelKeys)
        ensures
            keys == accept_channel_keys(*accept_channel),
    {
        ChannelKeys {
            funding_pubkey: accept_channel.funding_pubkey,
            revocation_basepoint: accept_channel.revocation_basepoint,
            payment_basepoint: accept_channel.payment_point,
            delayed_payment_basepoint: accept_channel.delayed_payment_basepoint,
            htlc_basepoint: accept_channel.htlc_basepoint,
            first_per_commitment_point: accept_channel.first_per_commitment_point,
        }
    }
}

/// The key set in an `open_channel`.
pub open spec fn open_channel_keys(m: OpenChannel) -> ChannelKeys {
    ChannelKeys {
        funding_pubkey: m.funding_pubkey,
        revocation_basepoint: m.revocation_basepoint,
        payment_basepoint: m.payment_point,
        delayed_payment_basepoint: m.delayed_payment_basepoint,
        htlc_basepoint: m.htlc_basepoint,
        first_per_commitment_point: m.first_per_commitment_point,
    }
}

/// The key set in an `accept_channel`.
pub open spec fn accept_channel_keys(m: AcceptChannel) -> ChannelKeys {
    ChannelKeys {
        funding_pubkey: m.funding_pubkey,
        revocation_basepoint: m.revocation_basepoint,
        payment_basepoint: m.payment_point,
        delayed_payment_basepoint: m.delayed_payment_basepoint,
        htlc_basepoint: m.htlc_basepoint,
        first_per_commitment_point: m.first_per_commitment_point,
    }
}

} // verus!
